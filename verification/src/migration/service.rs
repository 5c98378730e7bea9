//! Service manager of the in-process migration runtime.

use vstd::prelude::*;
use crate::service::{status_of, ServiceManager, ServiceOptions, ServiceStatus};
use crate::text::{contains_seq, str_contains};

verus! {

/// The command that asks the runtime for its node graph.
pub const GETINFO_COMMAND: &'static str = "{\"getinfo\":{}}";

/// Service manager of the migration runtime.
pub struct MigrationServiceManager {
    pub options: ServiceOptions,
}

impl MigrationServiceManager {
    pub fn new(options: ServiceOptions) -> (m: MigrationServiceManager)
        ensures
            m.options == options,
    {
        MigrationServiceManager { options }
    }

    /// Whether starting should start the runtime; when the service is
    /// disabled this is the status to report instead.
    pub fn start_step(&self) -> (r: Option<ServiceStatus>)
        ensures
            self.options.enabled <==> r is None,
            r matches Some(s) ==> !s.running && s.healthy && s.status_text@ == "migration runtime disabled"@
                && s.error_text@.len() == 0,
    {
        if !self.options.enabled {
            return Some(status_of(false, true, "migration runtime disabled"));
        }
        None
    }

    /// The status once the runtime started.
    pub fn started_status() -> (s: ServiceStatus)
        ensures
            s.running && s.healthy && s.status_text@ == "migration runtime started"@ && s.error_text@.len() == 0,
    {
        status_of(true, true, "migration runtime started")
    }

    /// The status once the runtime stopped.
    pub fn stopped_status() -> (s: ServiceStatus)
        ensures
            !s.running && s.healthy && s.status_text@ == "migration runtime stopped"@ && s.error_text@.len() == 0,
    {
        status_of(false, true, "migration runtime stopped")
    }

    /// The health check read from the runtime's reply to `getinfo`: the
    /// runtime is responsive exactly when the reply carries a `"result"`.
    pub fn status_from_response(response: &str) -> (s: ServiceStatus)
        ensures
            s.running == contains_seq(response@, "\"result\""@),
            s.healthy == s.running,
            s.status_text@ == if s.running { "migration runtime responsive"@ } else { "migration runtime not responding"@ },
            s.error_text@.len() == 0,
    {
        let healthy = str_contains(response, "\"result\"");
        if healthy {
            status_of(true, true, "migration runtime responsive")
        } else {
            status_of(false, false, "migration runtime not responding")
        }
    }
}

impl ServiceManager for MigrationServiceManager {
    fn name(&self) -> (r: &str)
        ensures
            r@ == "migration"@,
    {
        "migration"
    }

    fn options(&self) -> (r: ServiceOptions)
        ensures
            r == self.options,
    {
        self.options
    }

    fn set_options(&mut self, options: ServiceOptions)
        ensures
            final(self).options == options,
    {
        self.options = options;
    }
}

} // verus!
