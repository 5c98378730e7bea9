//! Requests to the migration runtime's foreground service. On hosts without
//! an Android service there is nothing to ask, and the runtime reports
//! itself stopped.

use vstd::prelude::*;

verus! {

/// The status text reported where no foreground service exists.
pub open spec fn stopped_status_json() -> Seq<char> {
    "{\"state\":\"stopped\"}"@
}

/// Asks the foreground migration service to start the runtime. Idempotent;
/// succeeds where there is no service to ask.
pub fn request_service_start() -> (r: Result<(), String>)
    ensures
        r is Ok,
{
    Ok(())
}

/// Asks the foreground migration service to stop. Idempotent; safe if not
/// running.
pub fn request_service_stop() {
}

/// The runtime status as JSON text: `{"state":"stopped"}` where there is no
/// foreground service to ask.
pub fn query_status() -> (r: Result<String, String>)
    ensures
        r matches Ok(s) && s@ == stopped_status_json(),
{
    Ok("{\"state\":\"stopped\"}".to_owned())
}

} // verus!
