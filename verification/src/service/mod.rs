//! Service lifecycle abstraction layer: a uniform interface to start, stop
//! and health-check any managed background service (gst-pop, migration
//! runtime, future services).

use vstd::prelude::*;

pub mod mock;
pub mod registry;

verus! {

/// How the service process is hosted.
#[derive(Clone, Copy, Debug, PartialEq, Eq, Structural)]
pub enum ServiceMode {
    /// Run the engine inside the app process (current Migration default).
    Embedded,
    /// Managed Android foreground Service (current GstPop default on Android).
    AndroidService,
    /// Connect to a user-supplied external daemon (CI / dev machine).
    External,
}

impl Default for ServiceMode {
    fn default() -> (m: ServiceMode)
        ensures
            m == ServiceMode::Embedded,
    {
        ServiceMode::Embedded
    }
}

/// Per-service toggles persisted alongside the backend configuration.
#[derive(Clone, Copy, Debug, PartialEq, Eq, Structural)]
pub struct ServiceOptions {
    pub enabled: bool,
    pub auto_start: bool,
    pub mode: ServiceMode,
}

/// The options of a service configured without any: enabled, started
/// automatically, embedded.
pub open spec fn default_options() -> ServiceOptions {
    ServiceOptions { enabled: true, auto_start: true, mode: ServiceMode::Embedded }
}

impl Default for ServiceOptions {
    fn default() -> (o: ServiceOptions)
        ensures
            o == default_options(),
    {
        ServiceOptions { enabled: true, auto_start: true, mode: ServiceMode::Embedded }
    }
}

/// Lifecycle status reported by a managed service.
#[derive(Debug)]
pub struct ServiceStatus {
    pub running: bool,
    pub healthy: bool,
    pub status_text: String,
    pub error_text: String,
}

impl Default for ServiceStatus {
    fn default() -> (s: ServiceStatus)
        ensures
            !s.running,
            !s.healthy,
            s.status_text@.len() == 0,
            s.error_text@.len() == 0,
    {
        ServiceStatus { running: false, healthy: false, status_text: String::new(), error_text: String::new() }
    }
}

/// A status with the given flags and text, and no error text.
pub fn status_of(running: bool, healthy: bool, status_text: &str) -> (s: ServiceStatus)
    ensures
        s.running == running,
        s.healthy == healthy,
        s.status_text@ == status_text@,
        s.error_text@.len() == 0,
{
    ServiceStatus {
        running,
        healthy,
        status_text: status_text.to_owned(),
        error_text: String::new(),
    }
}

/// Uniform access to a managed background service's name and options.
pub trait ServiceManager {
    /// Human-readable service name (e.g. "gst-pop", "migration").
    fn name(&self) -> &str;

    /// Current options (enabled, auto-start, mode).
    fn options(&self) -> ServiceOptions;

    /// Replace the options.
    fn set_options(&mut self, options: ServiceOptions);
}

} // verus!
