//! The error categories that reach the UI, their texts, and which of them a
//! retry can cure.

use vstd::prelude::*;
use crate::text::{owned, push_str};

verus! {

/// The error categories surfaced to the UI.
#[derive(Clone, Debug)]
pub enum AppError {
    /// The service is not running or unreachable.
    ServiceUnavailable { service: String, detail: String },
    /// A media pipeline operation failed.
    PipelineError { node_id: String, detail: String },
    /// SRT source connection or streaming error.
    SrtError { slot_id: String, detail: String },
    /// Overlay image loading or composition error.
    OverlayError { overlay_id: String, detail: String },
    /// Configuration load/save failure.
    ConfigError { path: String, detail: String },
    /// Network or connectivity problem.
    NetworkError { detail: String },
    /// Catch-all for unexpected errors.
    Internal { detail: String },
}

/// The full text of an error, naming what failed and why.
pub open spec fn app_error_text(e: AppError) -> Seq<char> {
    match e {
        AppError::ServiceUnavailable { service, detail } =>
            service@ + " service is not available: "@ + detail@,
        AppError::PipelineError { node_id, detail } =>
            "Pipeline error (node "@ + node_id@ + "): "@ + detail@,
        AppError::SrtError { slot_id, detail } => "SRT source "@ + slot_id@ + ": "@ + detail@,
        AppError::OverlayError { overlay_id, detail } => "Overlay "@ + overlay_id@ + ": "@ + detail@,
        AppError::ConfigError { path, detail } => "Config "@ + path@ + ": "@ + detail@,
        AppError::NetworkError { detail } => "Network: "@ + detail@,
        AppError::Internal { detail } => "Internal error: "@ + detail@,
    }
}

/// The short message shown in a toast or banner.
pub open spec fn user_message_text(e: AppError) -> Seq<char> {
    match e {
        AppError::ServiceUnavailable { service, .. } =>
            service@ + " is not running. Start it from Service Configuration."@,
        AppError::PipelineError { .. } => "Media pipeline error. Check the debug log for details."@,
        AppError::SrtError { slot_id, .. } =>
            "SRT source "@ + slot_id@ + " disconnected. Auto-reconnect will retry."@,
        AppError::OverlayError { .. } => "Failed to load overlay image. Check the file path."@,
        AppError::ConfigError { .. } => "Settings could not be saved. Check storage permissions."@,
        AppError::NetworkError { .. } => "Network error. Check your connection."@,
        AppError::Internal { .. } => "An unexpected error occurred. Please report this issue."@,
    }
}

/// The categories that a retry can cure: an unavailable service, an SRT
/// source and the network.
pub open spec fn retriable(e: AppError) -> bool {
    e is ServiceUnavailable || e is SrtError || e is NetworkError
}

/// `a`, then `b`.
fn join2(a: &str, b: &str) -> (s: String)
    ensures
        s@ == a@ + b@,
{
    let mut s = owned(a);
    push_str(&mut s, b);
    s
}

/// `a`, then `b`, then `c`.
fn join3(a: &str, b: &str, c: &str) -> (s: String)
    ensures
        s@ == a@ + b@ + c@,
{
    let mut s = String::new();
    push_str(&mut s, a);
    push_str(&mut s, b);
    push_str(&mut s, c);
    proof {
        assert(s@ =~= a@ + b@ + c@);
    }
    s
}

/// `a`, then `b`, then `c`, then `d`.
fn join4(a: &str, b: &str, c: &str, d: &str) -> (s: String)
    ensures
        s@ == a@ + b@ + c@ + d@,
{
    let mut s = join3(a, b, c);
    push_str(&mut s, d);
    s
}

impl AppError {
    /// The full text of the error.
    pub fn display_string(&self) -> (s: String)
        ensures
            s@ == app_error_text(*self),
    {
        match self {
            AppError::ServiceUnavailable { service, detail } =>
                join3(service.as_str(), " service is not available: ", detail.as_str()),
            AppError::PipelineError { node_id, detail } =>
                join4("Pipeline error (node ", node_id.as_str(), "): ", detail.as_str()),
            AppError::SrtError { slot_id, detail } =>
                join4("SRT source ", slot_id.as_str(), ": ", detail.as_str()),
            AppError::OverlayError { overlay_id, detail } =>
                join4("Overlay ", overlay_id.as_str(), ": ", detail.as_str()),
            AppError::ConfigError { path, detail } =>
                join4("Config ", path.as_str(), ": ", detail.as_str()),
            AppError::NetworkError { detail } => join2("Network: ", detail.as_str()),
            AppError::Internal { detail } => join2("Internal error: ", detail.as_str()),
        }
    }

    /// Short message suitable for a UI toast or banner.
    pub fn user_message(&self) -> (s: String)
        ensures
            s@ == user_message_text(*self),
    {
        match self {
            AppError::ServiceUnavailable { service, .. } =>
                join2(service.as_str(), " is not running. Start it from Service Configuration."),
            AppError::PipelineError { .. } =>
                owned("Media pipeline error. Check the debug log for details."),
            AppError::SrtError { slot_id, .. } =>
                join3("SRT source ", slot_id.as_str(), " disconnected. Auto-reconnect will retry."),
            AppError::OverlayError { .. } =>
                owned("Failed to load overlay image. Check the file path."),
            AppError::ConfigError { .. } =>
                owned("Settings could not be saved. Check storage permissions."),
            AppError::NetworkError { .. } => owned("Network error. Check your connection."),
            AppError::Internal { .. } =>
                owned("An unexpected error occurred. Please report this issue."),
        }
    }

    /// Whether this error is recoverable by retrying.
    pub fn is_retriable(&self) -> (r: bool)
        ensures
            r == retriable(*self),
    {
        match self {
            AppError::ServiceUnavailable { .. } => true,
            AppError::SrtError { .. } => true,
            AppError::NetworkError { .. } => true,
            _ => false,
        }
    }

    /// The catch-all error for an unexpected failure described by `err`,
    /// whose text is the error with its chain of causes.
    pub fn from_anyhow(err: &anyhow::Error) -> (e: AppError)
        ensures
            e is Internal,
    {
        AppError::Internal { detail: chain_text(err) }
    }
}

#[verifier::external_type_specification]
#[verifier::external_body]
pub struct ExAnyhowError(anyhow::Error);

/// `anyhow::Error` rendered with `{:#}`: the error, then each cause after a
/// colon. The text is not stated here.
#[verifier::external_body]
fn chain_text(err: &anyhow::Error) -> String {
    format!("{err:#}")
}

/// A retry can cure only a missing service, a dropped SRT source and the
/// network: pipeline, overlay, configuration and internal errors are
/// never retried, whatever they carry, and the three curable kinds always
/// are.
pub proof fn law_retriable_kinds(e: AppError)
    ensures
        e is PipelineError ==> !retriable(e),
        e is OverlayError ==> !retriable(e),
        e is ConfigError ==> !retriable(e),
        e is Internal ==> !retriable(e),
        e is ServiceUnavailable ==> retriable(e),
        e is SrtError ==> retriable(e),
        e is NetworkError ==> retriable(e),
{
}

} // verus!
