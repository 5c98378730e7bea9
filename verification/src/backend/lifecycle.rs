//! The media-backend lifecycle: the configuration the app starts with, the
//! decisions taken when it starts, applies or probes a backend, and what the
//! settings panel shows as a result.

use vstd::prelude::*;
use super::gstpop::backend::GstPopBackend;
use super::gstpop::embedded::{is_localhost, spec_is_localhost};
use super::gstpop::service::{EmbeddedState, EmbeddedStatus};
use super::persistence::{is_default_config, StoredBackendConfig};
use super::{
    from_slint, into_slint, spec_from_slint, spec_into_slint, BackendKind, BackendStatus,
    MediaBackendKind, MigrationBackend,
};
use crate::text::{contains_seq, owned, push_str, str_contains, str_eq};

verus! {

/// The state pill of the media-backend panel.
#[derive(Clone, Copy, Debug, PartialEq, Eq, Structural)]
pub enum MediaBackendState {
    Disconnected,
    Probing,
    Starting,
    Ready,
    Error,
}

/// How many times the backend is probed at start-up before giving up.
pub const PROBE_ATTEMPTS: u32 = 25;

/// The pause between two start-up probes, in milliseconds.
pub const PROBE_RETRY_DELAY_MILLIS: u64 = 200;

/// Whether `config` asks for the local gst-pop daemon, whose service is then
/// started along with the backend.
pub open spec fn wants_local_daemon(config: StoredBackendConfig) -> bool {
    config.kind == BackendKind::GstPop && spec_is_localhost(config.gstpop_url@)
}

/// The backend choice and the directory its configuration is saved in.
pub struct BackendLifecycle {
    files_dir: String,
    initial_config: StoredBackendConfig,
}

impl BackendLifecycle {
    /// The directory the configuration is saved in.
    pub closed spec fn dir(&self) -> Seq<char> {
        self.files_dir@
    }

    /// The configuration the app started with.
    pub closed spec fn config(&self) -> StoredBackendConfig {
        self.initial_config
    }

    /// A lifecycle for `files_dir`, starting from the configuration that was
    /// loaded from there, or from the defaults when loading failed.
    pub fn new(files_dir: String, loaded: Result<StoredBackendConfig, String>) -> (l: BackendLifecycle)
        ensures
            l.dir() == files_dir@,
            match loaded {
                Ok(c) => l.config() == c,
                Err(_) => is_default_config(l.config()),
            },
    {
        let initial_config = match loaded {
            Ok(c) => c,
            Err(_) => StoredBackendConfig::defaults(),
        };
        BackendLifecycle { files_dir, initial_config }
    }

    /// The directory the configuration is saved in.
    pub fn files_dir(&self) -> (d: &str)
        ensures
            d@ == self.dir(),
    {
        self.files_dir.as_str()
    }

    /// The configuration the app started with.
    pub fn initial_config(&self) -> (c: &StoredBackendConfig)
        ensures
            *c == self.config(),
    {
        &self.initial_config
    }

    /// What start-up does before the first probe: with the local gst-pop
    /// daemon configured, ask its service to start and show Starting;
    /// otherwise show Probing.
    pub fn autostart_plan(&self) -> (p: AutostartPlan)
        ensures
            p.start_service == wants_local_daemon(self.config()),
            p.state == (if wants_local_daemon(self.config()) {
                MediaBackendState::Starting
            } else {
                MediaBackendState::Probing
            }),
    {
        let start = self.initial_config.kind == BackendKind::GstPop
            && is_localhost(self.initial_config.gstpop_url.as_str());
        AutostartPlan {
            start_service: start,
            state: if start { MediaBackendState::Starting } else { MediaBackendState::Probing },
        }
    }
}

/// What start-up does before the first probe.
pub struct AutostartPlan {
    /// Ask the gst-pop service to start.
    pub start_service: bool,
    /// The state shown while the probes run.
    pub state: MediaBackendState,
}

/// What follows one start-up probe.
pub enum ProbeStep {
    /// The backend answered: show this status and stop probing.
    Report(BackendStatus),
    /// Wait [`PROBE_RETRY_DELAY_MILLIS`] and probe again.
    Retry,
    /// The last attempt failed: show this error and stop probing.
    Fail(String),
}

/// What follows the start-up probe numbered `attempt` (from 0), given its
/// outcome: an answer is reported, a failure is retried until the last of
/// the [`PROBE_ATTEMPTS`] attempts, whose failure is shown.
pub fn probe_step(attempt: u32, outcome: Result<BackendStatus, String>) -> (s: ProbeStep)
    requires
        attempt < PROBE_ATTEMPTS,
    ensures
        match outcome {
            Ok(status) => s == ProbeStep::Report(status),
            Err(e) => if attempt + 1 < PROBE_ATTEMPTS {
                s is Retry
            } else {
                s == ProbeStep::Fail(e)
            },
        },
{
    match outcome {
        Ok(status) => ProbeStep::Report(status),
        Err(e) => {
            if attempt + 1 < PROBE_ATTEMPTS {
                ProbeStep::Retry
            } else {
                ProbeStep::Fail(e)
            }
        },
    }
}

/// What applying a configuration does to the gst-pop service.
#[derive(Clone, Copy, Debug, PartialEq, Eq, Structural)]
pub enum ServiceAction {
    /// Show Starting and ask the service to start.
    Start,
    /// Ask the service to stop.
    Stop,
}

/// What applying a configuration does besides saving it.
pub struct ApplyPlan {
    pub service: ServiceAction,
    /// Shut the outgoing backend down before the new one is installed.
    pub shutdown_previous: bool,
}

/// The plan for applying `config` while a backend of kind `previous` is
/// installed: the gst-pop service runs exactly when the local daemon is
/// configured, and the outgoing backend is shut down exactly when the kind
/// changes.
pub fn apply_plan(previous: BackendKind, config: &StoredBackendConfig) -> (p: ApplyPlan)
    ensures
        p.service == (if wants_local_daemon(*config) {
            ServiceAction::Start
        } else {
            ServiceAction::Stop
        }),
        p.shutdown_previous == (previous != config.kind),
{
    let local = config.kind == BackendKind::GstPop && is_localhost(config.gstpop_url.as_str());
    ApplyPlan {
        service: if local { ServiceAction::Start } else { ServiceAction::Stop },
        shutdown_previous: previous != config.kind,
    }
}

/// The message shown when the gst-pop service could not be asked to start.
pub fn service_start_failure(err: &str) -> (m: String)
    ensures
        m@ == "service start failed: "@ + err@,
{
    let mut m = String::new();
    push_str(&mut m, "service start failed: ");
    push_str(&mut m, err);
    proof {
        assert(m@ =~= "service start failed: "@ + err@);
    }
    m
}

/// The message shown when the configuration could not be saved.
pub fn save_failure(err: &str) -> (m: String)
    ensures
        m@ == "save failed: "@ + err@,
{
    let mut m = String::new();
    push_str(&mut m, "save failed: ");
    push_str(&mut m, err);
    proof {
        assert(m@ =~= "save failed: "@ + err@);
    }
    m
}

/// An API key that is present and not empty; an empty key counts as none.
pub open spec fn usable_key(key: Option<String>) -> Option<Seq<char>> {
    match key {
        Some(k) => if k@.len() > 0 { Some(k@) } else { None },
        None => None,
    }
}

/// The view of an optional string.
pub open spec fn opt_view(s: Option<String>) -> Option<Seq<char>> {
    match s {
        Some(k) => Some(k@),
        None => None,
    }
}

/// The backend that a configuration describes.
pub enum BuiltBackend {
    Migration(MigrationBackend),
    GstPop(GstPopBackend),
}

/// The backend for `stored`: the migration runtime, or a gst-pop client for
/// its URL and pipeline, with its API key unless that key is empty.
pub fn build_backend(stored: &StoredBackendConfig) -> (b: BuiltBackend)
    ensures
        stored.kind == BackendKind::Migration ==> b is Migration,
        stored.kind == BackendKind::GstPop ==> (b matches BuiltBackend::GstPop(g)
            && g.url@ == stored.gstpop_url@
            && g.pipeline_id@ == stored.gstpop_pipeline_id@
            && opt_view(g.api_key) == usable_key(stored.gstpop_api_key)),
{
    match stored.kind {
        BackendKind::Migration => BuiltBackend::Migration(MigrationBackend::new()),
        BackendKind::GstPop => {
            let key = match &stored.gstpop_api_key {
                Some(k) => if !k.as_str().is_empty() { Some(k.clone()) } else { None },
                None => None,
            };
            BuiltBackend::GstPop(
                GstPopBackend::new(
                    stored.gstpop_url.clone(),
                    key,
                    stored.gstpop_pipeline_id.clone(),
                ),
            )
        },
    }
}

/// What the media-backend settings panel shows.
pub struct BackendPanel {
    pub media_backend: MediaBackendKind,
    pub gstpop_url: String,
    pub gstpop_api_key: String,
    pub gstpop_pipeline_id: String,
    pub state: MediaBackendState,
    pub status_text: String,
    pub error_text: String,
    pub gstpop_service_state: String,
    pub gstpop_service_externally_owned: bool,
    pub migration_runtime_service_state: String,
}

/// The label of an embedded daemon state, as the panel shows it.
pub open spec fn embedded_state_label(s: EmbeddedState) -> Seq<char> {
    match s {
        EmbeddedState::Stopped => "stopped"@,
        EmbeddedState::Starting => "starting"@,
        EmbeddedState::Running => "running"@,
        EmbeddedState::Error => "error"@,
    }
}

/// The label of the migration runtime service for the status query's
/// answer: `running` when the answer holds `"running"`, otherwise `error`
/// when it holds `"error"`, otherwise (and when the query failed) `stopped`.
pub open spec fn migration_state_label(query: Result<String, String>) -> Seq<char> {
    match query {
        Ok(json) => if contains_seq(json@, "\"running\""@) {
            "running"@
        } else if contains_seq(json@, "\"error\""@) {
            "error"@
        } else {
            "stopped"@
        },
        Err(_) => "stopped"@,
    }
}

/// The panel state and status text that a migration service label puts on
/// the pill while migration is the chosen backend.
pub open spec fn migration_pill(label: Seq<char>) -> (MediaBackendState, Seq<char>) {
    if label == "running"@ {
        (MediaBackendState::Ready, "Migration runtime running"@)
    } else if label == "starting"@ {
        (MediaBackendState::Starting, ""@)
    } else if label == "error"@ {
        (MediaBackendState::Error, ""@)
    } else {
        (MediaBackendState::Disconnected, "Migration runtime stopped"@)
    }
}

/// The configuration read back from a panel: its four settings, an empty
/// key read as none, and nothing said of the services.
pub open spec fn panel_config_matches(p: BackendPanel, c: StoredBackendConfig) -> bool {
    &&& c.kind == spec_from_slint(p.media_backend)
    &&& c.gstpop_url@ == p.gstpop_url@
    &&& opt_view(c.gstpop_api_key) == (if p.gstpop_api_key@.len() == 0 {
        None::<Seq<char>>
    } else {
        Some(p.gstpop_api_key@)
    })
    &&& c.gstpop_api_key_alias is None
    &&& c.gstpop_pipeline_id@ == p.gstpop_pipeline_id@
    &&& c.gstpop_service is None
    &&& c.migration_service is None
    &&& !c.auto_start_services
}

/// The text of an optional key as the panel shows it: empty when absent.
pub open spec fn key_text(key: Option<String>) -> Seq<char> {
    match key {
        Some(k) => k@,
        None => Seq::empty(),
    }
}

/// `after` is `before` showing configuration `c`: its four settings, state
/// Disconnected and no texts; the service rows are untouched.
pub open spec fn shows_config(before: BackendPanel, after: BackendPanel, c: StoredBackendConfig) -> bool {
    &&& after.media_backend == spec_into_slint(c.kind)
    &&& after.gstpop_url@ == c.gstpop_url@
    &&& after.gstpop_api_key@ == key_text(c.gstpop_api_key)
    &&& after.gstpop_pipeline_id@ == c.gstpop_pipeline_id@
    &&& after.state == MediaBackendState::Disconnected
    &&& after.status_text@.len() == 0
    &&& after.error_text@.len() == 0
    &&& services_unchanged(before, after)
}

/// The service rows of two panels agree.
pub open spec fn services_unchanged(before: BackendPanel, after: BackendPanel) -> bool {
    &&& after.gstpop_service_state@ == before.gstpop_service_state@
    &&& after.gstpop_service_externally_owned == before.gstpop_service_externally_owned
    &&& after.migration_runtime_service_state@ == before.migration_runtime_service_state@
}

/// The settings rows of two panels agree.
pub open spec fn settings_unchanged(before: BackendPanel, after: BackendPanel) -> bool {
    &&& after.media_backend == before.media_backend
    &&& after.gstpop_url@ == before.gstpop_url@
    &&& after.gstpop_api_key@ == before.gstpop_api_key@
    &&& after.gstpop_pipeline_id@ == before.gstpop_pipeline_id@
}

/// The pill rows (state, status text, error text) of two panels agree.
pub open spec fn pill_unchanged(before: BackendPanel, after: BackendPanel) -> bool {
    &&& after.state == before.state
    &&& after.status_text@ == before.status_text@
    &&& after.error_text@ == before.error_text@
}

impl BackendPanel {
    /// Shows `config`, as the panel does when it opens.
    pub fn push_config(&mut self, config: &StoredBackendConfig)
        ensures
            shows_config(*old(self), *final(self), *config),
    {
        self.media_backend = into_slint(config.kind);
        self.gstpop_url = config.gstpop_url.clone();
        self.gstpop_api_key = match &config.gstpop_api_key {
            Some(k) => k.clone(),
            None => String::new(),
        };
        self.gstpop_pipeline_id = config.gstpop_pipeline_id.clone();
        self.state = MediaBackendState::Disconnected;
        self.status_text = String::new();
        self.error_text = String::new();
    }

    /// The configuration the panel's settings describe.
    pub fn read_config(&self) -> (c: StoredBackendConfig)
        ensures
            panel_config_matches(*self, c),
    {
        let key = if self.gstpop_api_key.as_str().is_empty() {
            None
        } else {
            Some(self.gstpop_api_key.clone())
        };
        StoredBackendConfig {
            kind: from_slint(self.media_backend),
            gstpop_url: self.gstpop_url.clone(),
            gstpop_api_key: key,
            gstpop_api_key_alias: None,
            gstpop_pipeline_id: self.gstpop_pipeline_id.clone(),
            gstpop_service: None,
            migration_service: None,
            auto_start_services: false,
        }
    }

    /// Shows `state` on the pill.
    pub fn push_state(&mut self, state: MediaBackendState)
        ensures
            final(self).state == state,
            final(self).status_text@ == old(self).status_text@,
            final(self).error_text@ == old(self).error_text@,
            settings_unchanged(*old(self), *final(self)),
            services_unchanged(*old(self), *final(self)),
    {
        self.state = state;
    }

    /// Shows that the settings were saved.
    pub fn push_saved(&mut self)
        ensures
            final(self).state == old(self).state,
            final(self).status_text@ == "Saved backend settings"@,
            final(self).error_text@.len() == 0,
            settings_unchanged(*old(self), *final(self)),
            services_unchanged(*old(self), *final(self)),
    {
        self.error_text = String::new();
        self.status_text = owned("Saved backend settings");
    }

    /// Shows a probe's answer: Ready when the backend is connected, else
    /// Disconnected, with the answer's texts.
    pub fn push_status(&mut self, status: BackendStatus)
        ensures
            final(self).state == (if status.is_connected {
                MediaBackendState::Ready
            } else {
                MediaBackendState::Disconnected
            }),
            final(self).status_text@ == status.status_text@,
            final(self).error_text@ == status.error_text@,
            settings_unchanged(*old(self), *final(self)),
            services_unchanged(*old(self), *final(self)),
    {
        self.state = if status.is_connected {
            MediaBackendState::Ready
        } else {
            MediaBackendState::Disconnected
        };
        self.status_text = status.status_text;
        self.error_text = status.error_text;
    }

    /// Shows an error: state Error, no status text, the message.
    pub fn push_error(&mut self, message: &str)
        ensures
            final(self).state == MediaBackendState::Error,
            final(self).status_text@.len() == 0,
            final(self).error_text@ == message@,
            settings_unchanged(*old(self), *final(self)),
            services_unchanged(*old(self), *final(self)),
    {
        self.state = MediaBackendState::Error;
        self.status_text = String::new();
        self.error_text = owned(message);
    }

    /// Shows the embedded daemon's state, when the media-backend panel is
    /// the active one; otherwise nothing changes.
    pub fn show_embedded_status(&mut self, panel_active: bool, status: &EmbeddedStatus)
        ensures
            panel_active ==> final(self).gstpop_service_state@ == embedded_state_label(status.state),
            panel_active ==> final(self).gstpop_service_externally_owned == status.externally_owned,
            !panel_active ==> final(self).gstpop_service_state@ == old(self).gstpop_service_state@,
            !panel_active ==> final(self).gstpop_service_externally_owned == old(self).gstpop_service_externally_owned,
            final(self).migration_runtime_service_state@ == old(self).migration_runtime_service_state@,
            settings_unchanged(*old(self), *final(self)),
            pill_unchanged(*old(self), *final(self)),
    {
        if panel_active {
            let label = match status.state {
                EmbeddedState::Stopped => "stopped",
                EmbeddedState::Starting => "starting",
                EmbeddedState::Running => "running",
                EmbeddedState::Error => "error",
            };
            self.gstpop_service_state = owned(label);
            self.gstpop_service_externally_owned = status.externally_owned;
        }
    }

    /// Shows the migration runtime service's state, read from the answer of
    /// its status query, when the media-backend panel is the active one;
    /// while migration is the chosen backend the pill follows it too.
    pub fn show_migration_status(&mut self, panel_active: bool, query: &Result<String, String>)
        ensures
            panel_active ==> final(self).migration_runtime_service_state@ == migration_state_label(*query),
            !panel_active ==> final(self).migration_runtime_service_state@ == old(self).migration_runtime_service_state@,
            (panel_active && old(self).media_backend == MediaBackendKind::Migration) ==> {
                &&& final(self).state == migration_pill(migration_state_label(*query)).0
                &&& final(self).status_text@ == migration_pill(migration_state_label(*query)).1
                &&& final(self).error_text@ == old(self).error_text@
            },
            !(panel_active && old(self).media_backend == MediaBackendKind::Migration)
                ==> pill_unchanged(*old(self), *final(self)),
            final(self).gstpop_service_state@ == old(self).gstpop_service_state@,
            final(self).gstpop_service_externally_owned == old(self).gstpop_service_externally_owned,
            settings_unchanged(*old(self), *final(self)),
    {
        if !panel_active {
            return;
        }
        let label: &str = match query {
            Ok(json) => {
                if str_contains(json.as_str(), "\"running\"") {
                    "running"
                } else if str_contains(json.as_str(), "\"error\"") {
                    "error"
                } else {
                    "stopped"
                }
            },
            Err(_) => "stopped",
        };
        self.migration_runtime_service_state = owned(label);
        if self.media_backend == MediaBackendKind::Migration {
            let (state, text): (MediaBackendState, &str) = if str_eq(label, "running") {
                (MediaBackendState::Ready, "Migration runtime running")
            } else if str_eq(label, "starting") {
                (MediaBackendState::Starting, "")
            } else if str_eq(label, "error") {
                (MediaBackendState::Error, "")
            } else {
                (MediaBackendState::Disconnected, "Migration runtime stopped")
            };
            self.state = state;
            self.status_text = owned(text);
        }
    }
}

/// Reading back a panel that shows a configuration gives that
/// configuration's kind, URL and pipeline, and its API key unless the key
/// is empty.
pub proof fn law_panel_round_trip(
    before: BackendPanel,
    after: BackendPanel,
    config: StoredBackendConfig,
    read: StoredBackendConfig,
)
    requires
        shows_config(before, after, config),
        panel_config_matches(after, read),
    ensures
        read.kind == config.kind,
        read.gstpop_url@ == config.gstpop_url@,
        read.gstpop_pipeline_id@ == config.gstpop_pipeline_id@,
        opt_view(read.gstpop_api_key) == usable_key(config.gstpop_api_key),
{
    super::lemma_slint_round_trip(config.kind, after.media_backend);
}

} // verus!
