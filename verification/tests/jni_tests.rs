use fcastsender::jni_bridge::gstpop_bridge::{parse_gstpop_config_port, start_port};
use fcastsender::jni_bridge::migration_bridge::{migration_runtime_status_json, native_start, native_status, native_stop};
use fcastsender::secret::jni::{backend_failure, get_answer};
use fcastsender::secret::SecretError;

#[test]
fn migration_status_documents() {
    assert_eq!(native_status(true), r#"{"state":"running"}"#);
    assert_eq!(native_status(false), r#"{"state":"stopped"}"#);
    assert_eq!(native_start(&Ok(())), r#"{"state":"running"}"#);
    assert_eq!(native_start(&Err("no \"gst\"".into())), r#"{"last_error":"no \"gst\"","state":"error"}"#);
    assert_eq!(native_stop(&Ok(())), r#"{"state":"stopped"}"#);
    assert_eq!(migration_runtime_status_json("x", Some("e")), r#"{"last_error":"e","state":"x"}"#);
}

#[test]
fn gstpop_start_port() {
    assert_eq!(parse_gstpop_config_port(r#"{"gstpop_url":"ws://127.0.0.1:9100"}"#), Some(9100));
    assert_eq!(parse_gstpop_config_port(r#"{"gstpop_url":5}"#), None);
    assert_eq!(parse_gstpop_config_port("not json"), None);
    assert_eq!(start_port(""), 9000);
    assert_eq!(start_port(r#"{"kind":"gst-pop","gstpop_url":"ws://localhost:9002/"}"#), 9002);
}

#[test]
fn platform_secret_answers() {
    match get_answer("a", None) {
        Err(SecretError::NotFound(alias)) => assert_eq!(alias, "a"),
        _ => panic!("a null array means an unknown alias"),
    }
    let got = get_answer("a", Some(vec![104, -1, 0])).unwrap();
    assert_eq!(got.as_slice(), &[104u8, 255, 0]);
    match backend_failure("find_class", "no such class") {
        SecretError::Backend(m) => assert_eq!(m, "find_class: no such class"),
        _ => panic!("expected a backend error"),
    }
}
