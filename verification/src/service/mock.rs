//! A service manager that only records start and stop calls.

use vstd::prelude::*;
use super::{default_options, ServiceManager, ServiceOptions, ServiceStatus};
use crate::text::push_str;

verus! {

/// A mock service manager that tracks start/stop calls.
pub struct MockServiceManager {
    pub name: String,
    pub options: ServiceOptions,
    pub started: bool,
    pub start_should_fail: bool,
}

impl MockServiceManager {
    pub fn new(name: &str) -> (m: MockServiceManager)
        ensures
            m.name@ == name@,
            m.options == default_options(),
            !m.started,
            !m.start_should_fail,
    {
        MockServiceManager {
            name: name.to_owned(),
            options: ServiceOptions::default(),
            started: false,
            start_should_fail: false,
        }
    }

    /// Starts the mock: fails when told to (and then records nothing),
    /// else records that it runs.
    pub fn start(&mut self) -> (r: Result<ServiceStatus, String>)
        ensures
            if old(self).start_should_fail {
                &&& r matches Err(e) && e@ == "mock start failure"@
                &&& final(self).started == old(self).started
            } else {
                &&& r matches Ok(s) && s.running && s.healthy
                    && s.status_text@ == old(self).name@ + " mock started"@
                    && s.error_text@.len() == 0
                &&& final(self).started
            },
            final(self).name == old(self).name,
            final(self).options == old(self).options,
            final(self).start_should_fail == old(self).start_should_fail,
    {
        if self.start_should_fail {
            return Err("mock start failure".to_owned());
        }
        self.started = true;
        let mut text = self.name.clone();
        push_str(&mut text, " mock started");
        Ok(ServiceStatus { running: true, healthy: true, status_text: text, error_text: String::new() })
    }

    /// Stops the mock.
    pub fn stop(&mut self) -> (r: Result<ServiceStatus, String>)
        ensures
            r matches Ok(s) && !s.running && s.healthy
                && s.status_text@ == old(self).name@ + " mock stopped"@
                && s.error_text@.len() == 0,
            !final(self).started,
            final(self).name == old(self).name,
            final(self).options == old(self).options,
            final(self).start_should_fail == old(self).start_should_fail,
    {
        self.started = false;
        let mut text = self.name.clone();
        push_str(&mut text, " mock stopped");
        Ok(ServiceStatus { running: false, healthy: true, status_text: text, error_text: String::new() })
    }

    /// Reports whether the mock runs.
    pub fn status(&self) -> (r: Result<ServiceStatus, String>)
        ensures
            r matches Ok(s) && s.running == self.started && s.healthy
                && s.status_text@ == "mock status"@ && s.error_text@.len() == 0,
    {
        Ok(ServiceStatus {
            running: self.started,
            healthy: true,
            status_text: "mock status".to_owned(),
            error_text: String::new(),
        })
    }
}

impl ServiceManager for MockServiceManager {
    fn name(&self) -> (r: &str)
        ensures
            r@ == self.name@,
    {
        self.name.as_str()
    }

    fn options(&self) -> (r: ServiceOptions)
        ensures
            r == self.options,
    {
        self.options
    }

    fn set_options(&mut self, options: ServiceOptions)
        ensures
            final(self).options == options,
            final(self).name == old(self).name,
            final(self).started == old(self).started,
            final(self).start_should_fail == old(self).start_should_fail,
    {
        self.options = options;
    }
}

} // verus!
