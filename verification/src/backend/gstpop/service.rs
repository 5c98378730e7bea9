//! Management of the gst-pop daemon service: whether it is asked to start,
//! and how each hosting mode reports its state.

use vstd::prelude::*;
use crate::backend::persistence::StoredBackendConfig;
use crate::service::{status_of, ServiceManager, ServiceMode, ServiceOptions, ServiceStatus};
use crate::text::{decimal, push_decimal, push_str};
use crate::backend::gstpop::embedded::{ask_step, EmbeddedStartup, StartupStep};

verus! {

/// The port of the embedded daemon.
pub const EMBEDDED_PORT: u16 = 9000;

/// Whether a configuration lets the gst-pop service be started: it is
/// skipped only when its options say it is disabled.
pub open spec fn service_start_wanted(config: StoredBackendConfig) -> bool {
    match config.gstpop_service {
        Some(svc) => svc.enabled,
        None => true,
    }
}

/// Whether the foreground service should be asked to start for `config`.
pub fn wants_service_start(config: &StoredBackendConfig) -> (r: bool)
    ensures
        r == service_start_wanted(*config),
{
    match config.gstpop_service {
        Some(svc) => svc.enabled,
        None => true,
    }
}

/// Asks the foreground gst-pop service to start the daemon. Idempotent.
/// Hosts without an Android service have nothing to ask: this succeeds.
pub fn request_service_start(config: &StoredBackendConfig) -> (r: Result<(), String>)
    ensures
        r is Ok,
{
    Ok(())
}

/// Asks the foreground gst-pop service to stop. Idempotent; hosts without an
/// Android service have nothing to ask.
pub fn request_service_stop() {
}

/// The state of the embedded daemon.
#[derive(Clone, Copy, Debug, PartialEq, Eq, Structural)]
pub enum EmbeddedState {
    Stopped,
    Starting,
    Running,
    Error,
}

/// The debug name of an embedded state.
pub open spec fn embedded_state_name(s: EmbeddedState) -> Seq<char> {
    match s {
        EmbeddedState::Stopped => "Stopped"@,
        EmbeddedState::Starting => "Starting"@,
        EmbeddedState::Running => "Running"@,
        EmbeddedState::Error => "Error"@,
    }
}

/// What the embedded daemon reports.
#[derive(Debug)]
pub struct EmbeddedStatus {
    pub state: EmbeddedState,
    pub port: u16,
    pub last_error: Option<String>,
    pub externally_owned: bool,
}

/// The first step of starting the service.
pub enum StartStep {
    /// Nothing more to do; this is the status.
    Finished(ServiceStatus),
    /// Start the embedded daemon on this port, then read its status with
    /// [`GstPopServiceManager::status_after_embedded_start`].
    StartEmbedded(u16),
    /// Ask the Android service to start with this configuration, then report
    /// [`GstPopServiceManager::status_after_android_start`].
    RequestAndroidService(StoredBackendConfig),
}

/// The first step of stopping the service.
pub enum StopStep {
    /// Nothing more to do; this is the status.
    Finished(ServiceStatus),
    /// Stop the embedded daemon, then read its status with
    /// [`GstPopServiceManager::status_after_embedded_stop`].
    StopEmbedded,
    /// Ask the Android service to stop, then report
    /// [`GstPopServiceManager::status_after_android_stop`].
    RequestAndroidStop,
}

/// What a start of the service does, by its options.
pub ghost enum StartPlan {
    /// Nothing: the service is disabled.
    Disabled,
    /// Nothing: an external daemon is used.
    External,
    /// Ask for the embedded daemon on this port.
    Embedded(u16),
    /// Ask the Android service to start.
    Android,
}

/// The start plan of a service with options `o`.
pub open spec fn start_plan(o: ServiceOptions) -> StartPlan {
    if !o.enabled {
        StartPlan::Disabled
    } else {
        match o.mode {
            ServiceMode::Embedded => StartPlan::Embedded(EMBEDDED_PORT),
            ServiceMode::AndroidService => StartPlan::Android,
            ServiceMode::External => StartPlan::External,
        }
    }
}

/// The plan a first start step carries out.
pub open spec fn plan_of(step: StartStep) -> StartPlan {
    match step {
        StartStep::Finished(s) => if s.running { StartPlan::External } else { StartPlan::Disabled },
        StartStep::StartEmbedded(port) => StartPlan::Embedded(port),
        StartStep::RequestAndroidService(_) => StartPlan::Android,
    }
}

/// Starting the service a second time starts nothing new: both starts
/// follow the same plan, a function of the options alone; a disabled
/// service asks for nothing either time; and for the embedded daemon the
/// second request finds the daemon that the first start made ready, is
/// told that it already runs, and leaves the startup state as it was.
pub proof fn law_second_start_starts_nothing(o: ServiceOptions, after_first: EmbeddedStartup, port_open: bool)
    requires
        o.enabled && o.mode == ServiceMode::Embedded ==> after_first.ready,
    ensures
        !o.enabled ==> start_plan(o) == StartPlan::Disabled,
        o.enabled && o.mode == ServiceMode::Embedded ==> start_plan(o) == StartPlan::Embedded(EMBEDDED_PORT)
            && ask_step(after_first, port_open) == (after_first, StartupStep::AlreadyRunning),
{
}

/// Service manager of the gst-pop daemon.
pub struct GstPopServiceManager {
    pub options: ServiceOptions,
}

impl GstPopServiceManager {
    pub fn new(options: ServiceOptions) -> (m: GstPopServiceManager)
        ensures
            m.options == options,
    {
        GstPopServiceManager { options }
    }

    /// How starting begins: a disabled service reports so, an external
    /// daemon is taken as running, the embedded daemon is started on port
    /// 9000, and the Android service is asked to start with the default
    /// configuration.
    pub fn start_step(&self) -> (step: StartStep)
        ensures
            plan_of(step) == start_plan(self.options),
            !self.options.enabled ==> (step matches StartStep::Finished(s) && !s.running && s.healthy
                && s.status_text@ == "gst-pop service disabled by configuration"@ && s.error_text@.len() == 0),
            self.options.enabled && self.options.mode == ServiceMode::Embedded ==> step == StartStep::StartEmbedded(EMBEDDED_PORT),
            self.options.enabled && self.options.mode == ServiceMode::AndroidService ==> (step matches StartStep::RequestAndroidService(c)
                && c.kind == crate::backend::BackendKind::Migration
                && c.gstpop_url@ == crate::backend::persistence::default_gstpop_url()),
            self.options.enabled && self.options.mode == ServiceMode::External ==> (step matches StartStep::Finished(s) && s.running && s.healthy
                && s.status_text@ == "using external gst-pop daemon"@ && s.error_text@.len() == 0),
    {
        if !self.options.enabled {
            return StartStep::Finished(status_of(false, true, "gst-pop service disabled by configuration"));
        }
        match self.options.mode {
            ServiceMode::Embedded => StartStep::StartEmbedded(EMBEDDED_PORT),
            ServiceMode::AndroidService => StartStep::RequestAndroidService(StoredBackendConfig::defaults()),
            ServiceMode::External => StartStep::Finished(status_of(true, true, "using external gst-pop daemon")),
        }
    }

    /// The status after the embedded daemon was started: running when it
    /// runs, healthy when it reports no error.
    pub fn status_after_embedded_start(status: EmbeddedStatus) -> (s: ServiceStatus)
        ensures
            s.running == (status.state == EmbeddedState::Running),
            s.healthy == (status.last_error is None),
            s.status_text@ == "embedded gst-pop on port "@ + decimal(status.port as nat),
            s.error_text@ == match status.last_error {
                Some(e) => e@,
                None => Seq::empty(),
            },
    {
        let mut text = String::new();
        push_str(&mut text, "embedded gst-pop on port ");
        push_decimal(&mut text, status.port as u64);
        assert(text@ =~= "embedded gst-pop on port "@ + decimal(status.port as nat));
        let healthy = status.last_error.is_none();
        ServiceStatus {
            running: status.state == EmbeddedState::Running,
            healthy,
            status_text: text,
            error_text: match status.last_error {
                Some(e) => e,
                None => String::new(),
            },
        }
    }

    /// The status after the Android service was asked to start.
    pub fn status_after_android_start(requested: Result<(), String>) -> (r: Result<ServiceStatus, String>)
        ensures
            match requested {
                Ok(()) => r matches Ok(s) && s.running && s.healthy
                    && s.status_text@ == "Android service start requested"@ && s.error_text@.len() == 0,
                Err(e) => r == Err::<ServiceStatus, String>(e),
            },
    {
        match requested {
            Ok(()) => Ok(status_of(true, true, "Android service start requested")),
            Err(e) => Err(e),
        }
    }

    /// How stopping begins, by hosting mode.
    pub fn stop_step(&self) -> (step: StopStep)
        ensures
            self.options.mode == ServiceMode::Embedded ==> step is StopEmbedded,
            self.options.mode == ServiceMode::AndroidService ==> step is RequestAndroidStop,
            self.options.mode == ServiceMode::External ==> (step matches StopStep::Finished(s) && s.running && s.healthy
                && s.status_text@ == "external daemon \u{2014} stop is a no-op"@ && s.error_text@.len() == 0),
    {
        match self.options.mode {
            ServiceMode::Embedded => StopStep::StopEmbedded,
            ServiceMode::AndroidService => StopStep::RequestAndroidStop,
            ServiceMode::External => StopStep::Finished(status_of(true, true, "external daemon \u{2014} stop is a no-op")),
        }
    }

    /// The status after the embedded daemon was stopped.
    pub fn status_after_embedded_stop(status: &EmbeddedStatus) -> (s: ServiceStatus)
        ensures
            s.running == (status.state == EmbeddedState::Running),
            s.healthy,
            s.status_text@ == "embedded gst-pop stopped"@,
            s.error_text@.len() == 0,
    {
        status_of(status.state == EmbeddedState::Running, true, "embedded gst-pop stopped")
    }

    /// The status after the Android service was asked to stop.
    pub fn status_after_android_stop() -> (s: ServiceStatus)
        ensures
            !s.running,
            s.healthy,
            s.status_text@ == "Android service stop requested"@,
            s.error_text@.len() == 0,
    {
        status_of(false, true, "Android service stop requested")
    }

    /// The health check, read from the embedded daemon's status.
    pub fn status_from_embedded(status: EmbeddedStatus) -> (s: ServiceStatus)
        ensures
            s.running == (status.state == EmbeddedState::Running),
            s.healthy == (status.last_error is None),
            s.status_text@ == embedded_state_name(status.state),
            s.error_text@ == match status.last_error {
                Some(e) => e@,
                None => Seq::empty(),
            },
    {
        let name = match status.state {
            EmbeddedState::Stopped => "Stopped",
            EmbeddedState::Starting => "Starting",
            EmbeddedState::Running => "Running",
            EmbeddedState::Error => "Error",
        };
        let healthy = status.last_error.is_none();
        ServiceStatus {
            running: status.state == EmbeddedState::Running,
            healthy,
            status_text: name.to_owned(),
            error_text: match status.last_error {
                Some(e) => e,
                None => String::new(),
            },
        }
    }
}

impl ServiceManager for GstPopServiceManager {
    fn name(&self) -> (r: &str)
        ensures
            r@ == "gst-pop"@,
    {
        "gst-pop"
    }

    fn options(&self) -> (r: ServiceOptions)
        ensures
            r == self.options,
    {
        self.options
    }

    fn set_options(&mut self, options: ServiceOptions)
        ensures
            final(self).options == options,
    {
        self.options = options;
    }
}

} // verus!
