//! The status documents returned to the migration runtime's foreground
//! service.

use vstd::prelude::*;
use crate::json::{entries_view, json_text, push_entry, Json, JsonValue};

verus! {

/// The status document `{"last_error": .., "state": ..}`; `last_error` is
/// left out when there is none. Keys are in serde_json's map order.
pub open spec fn status_document(state: Seq<char>, last_error: Option<Seq<char>>) -> Json {
    match last_error {
        Some(e) => Json::Object(seq![("last_error"@, Json::Str(e)), ("state"@, Json::Str(state))]),
        None => Json::Object(seq![("state"@, Json::Str(state))]),
    }
}

/// The status text for `state` and an optional error.
pub fn migration_runtime_status_json(state: &str, last_error: Option<&str>) -> (s: String)
    ensures
        s@ == json_text(status_document(state@, match last_error {
            Some(e) => Some(e@),
            None => None,
        })),
{
    let mut es: Vec<(String, JsonValue)> = Vec::new();
    match last_error {
        Some(e) => {
            push_entry(&mut es, "last_error", JsonValue::string(e));
            push_entry(&mut es, "state", JsonValue::string(state));
            proof {
                assert(entries_view(es@) =~= seq![("last_error"@, Json::Str(e@)), ("state"@, Json::Str(state@))]);
            }
        },
        None => {
            push_entry(&mut es, "state", JsonValue::string(state));
            proof {
                assert(entries_view(es@) =~= seq![("state"@, Json::Str(state@))]);
            }
        },
    }
    JsonValue::Object(es).to_json_text()
}

/// The reply to a start request, given whether the runtime started:
/// `running`, or `error` with the failure.
pub fn native_start(started: &Result<(), String>) -> (s: String)
    ensures
        s@ == json_text(match *started {
            Ok(_) => status_document("running"@, None),
            Err(e) => status_document("error"@, Some(e@)),
        }),
{
    match started {
        Ok(_) => migration_runtime_status_json("running", None),
        Err(e) => migration_runtime_status_json("error", Some(e.as_str())),
    }
}

/// The reply to a stop request, given whether the runtime shut down:
/// `stopped`, or `error` with the failure.
pub fn native_stop(stopped: &Result<(), String>) -> (s: String)
    ensures
        s@ == json_text(match *stopped {
            Ok(_) => status_document("stopped"@, None),
            Err(e) => status_document("error"@, Some(e@)),
        }),
{
    match stopped {
        Ok(_) => migration_runtime_status_json("stopped", None),
        Err(e) => migration_runtime_status_json("error", Some(e.as_str())),
    }
}

/// The reply to a status request: `running` or `stopped`.
pub fn native_status(running: bool) -> (s: String)
    ensures
        s@ == json_text(status_document(if running { "running"@ } else { "stopped"@ }, None)),
{
    if running {
        migration_runtime_status_json("running", None)
    } else {
        migration_runtime_status_json("stopped", None)
    }
}

} // verus!
