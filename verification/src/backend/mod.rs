//! Media backends: which one is chosen, how it is configured, and how its
//! replies are read.

use vstd::prelude::*;

pub mod gstpop;
pub mod kind;
pub mod lifecycle;
pub mod migration_backend;
pub mod persistence;
pub mod registry;

pub use gstpop::backend::GstPopBackend;
pub use kind::BackendKind;
pub use migration_backend::MigrationBackend;

verus! {

/// What a backend probe reports.
#[derive(Debug)]
pub struct BackendStatus {
    pub status_text: String,
    pub error_text: String,
    /// True when the backend is reachable and operational (show Ready).
    /// False when it is present but not yet running (show Disconnected).
    pub is_connected: bool,
}

impl Default for BackendStatus {
    fn default() -> (s: BackendStatus)
        ensures
            s.status_text@.len() == 0,
            s.error_text@.len() == 0,
            s.is_connected,
    {
        BackendStatus { status_text: String::new(), error_text: String::new(), is_connected: true }
    }
}

/// The backend choice as the settings UI names it.
#[derive(Clone, Copy, Debug, PartialEq, Eq, Structural)]
pub enum MediaBackendKind {
    Migration,
    GstPop,
}

/// The backend kind for the UI's choice.
pub open spec fn spec_from_slint(kind: MediaBackendKind) -> BackendKind {
    match kind {
        MediaBackendKind::Migration => BackendKind::Migration,
        MediaBackendKind::GstPop => BackendKind::GstPop,
    }
}

/// The UI's choice for a backend kind.
pub open spec fn spec_into_slint(kind: BackendKind) -> MediaBackendKind {
    match kind {
        BackendKind::Migration => MediaBackendKind::Migration,
        BackendKind::GstPop => MediaBackendKind::GstPop,
    }
}

/// Maps the UI's backend choice to a [`BackendKind`].
pub fn from_slint(kind: MediaBackendKind) -> (k: BackendKind)
    ensures
        k == spec_from_slint(kind),
{
    match kind {
        MediaBackendKind::Migration => BackendKind::Migration,
        MediaBackendKind::GstPop => BackendKind::GstPop,
    }
}

/// Maps a [`BackendKind`] to the UI's backend choice.
pub fn into_slint(kind: BackendKind) -> (k: MediaBackendKind)
    ensures
        k == spec_into_slint(kind),
{
    match kind {
        BackendKind::Migration => MediaBackendKind::Migration,
        BackendKind::GstPop => MediaBackendKind::GstPop,
    }
}

/// The UI mapping and its inverse undo each other.
pub proof fn lemma_slint_round_trip(k: BackendKind, m: MediaBackendKind)
    ensures
        spec_from_slint(spec_into_slint(k)) == k,
        spec_into_slint(spec_from_slint(m)) == m,
{
}

} // verus!
