use fcastsender::error::AppError;
use fcastsender::text::trim;

#[test]
fn error_texts() {
    let e = AppError::ServiceUnavailable { service: "gst-pop".into(), detail: "refused".into() };
    assert_eq!(e.display_string(), "gst-pop service is not available: refused");
    assert_eq!(e.user_message(), "gst-pop is not running. Start it from Service Configuration.");
    assert!(e.is_retriable());
    let e = AppError::SrtError { slot_id: "s1".into(), detail: "eof".into() };
    assert_eq!(e.display_string(), "SRT source s1: eof");
    assert_eq!(e.user_message(), "SRT source s1 disconnected. Auto-reconnect will retry.");
    assert!(e.is_retriable());
    let e = AppError::PipelineError { node_id: "n".into(), detail: "d".into() };
    assert_eq!(e.display_string(), "Pipeline error (node n): d");
    assert!(!e.is_retriable());
    let e = AppError::ConfigError { path: "/x".into(), detail: "ro".into() };
    assert_eq!(e.user_message(), "Settings could not be saved. Check storage permissions.");
    assert!(!AppError::Internal { detail: String::new() }.is_retriable());
    assert!(AppError::NetworkError { detail: "down".into() }.is_retriable());
    let e = AppError::from_anyhow(&anyhow::Error::msg("inner").context("outer"));
    assert_eq!(e.display_string(), "Internal error: outer: inner");
}

#[test]
fn trim_drops_unicode_white_space() {
    assert_eq!(trim("  ok \n"), "ok");
    assert_eq!(trim("\u{3000}x y\u{a0}"), "x y");
    assert_eq!(trim(" \t "), "");
}
