use fcastsender::command::legacy_tests::migration_test_log_name;
use fcastsender::command::probe::command_probe_addr;

#[test]
fn migration_test_log_name_known_ids() {
    assert_eq!(migration_test_log_name("getinfo"), "legacy-getinfo");
    assert_eq!(migration_test_log_name("crossfade"), "legacy-crossfade");
    assert_eq!(migration_test_log_name("smoke"), "graph-smoke");
}

#[test]
fn migration_test_log_name_unknown_id() {
    assert_eq!(migration_test_log_name(""), "unknown");
    assert_eq!(migration_test_log_name("bogus"), "unknown");
    assert_eq!(migration_test_log_name("GetInfo"), "unknown");
}

#[test]
fn migration_test_id_count_invariant() {
    const KNOWN: &[&str] = &["getinfo", "crossfade", "smoke"];

    for id in KNOWN {
        assert_ne!(
            migration_test_log_name(id),
            "unknown",
            "test id {id} should be in the dispatch table"
        );
    }
}

#[test]
fn probe_addr_maps_wildcard_binds_to_loopback() {
    assert_eq!(command_probe_addr("0.0.0.0:8080"), "127.0.0.1:8080");
    assert_eq!(command_probe_addr("[::]:8080"), "[::1]:8080");
    assert_eq!(command_probe_addr("192.168.1.2:8080"), "192.168.1.2:8080");
    assert_eq!(command_probe_addr(""), "");
}

use fcastsender::command::http_runner::{
    graph_command_outcome, graph_http_reply, runtime_reply_from_parsed, runtime_start_failure, server_reply_from_parsed,
    server_started_message,
};
use fcastsender::jni_bridge::gstpop_bridge::config_port_from_parsed;
use fcastsender::command::legacy_tests::{
    crossfade_report, crossfade_script, getinfo_report, getinfo_script, migration_test_for, running_status,
    smoke_report, smoke_script, status_line, stop_status, test_passed, unknown_test_status, MigrationTest,
};
use fcastsender::command::probe::{http_request_text, read_http_reply};
use fcastsender::backend::MigrationBackend;
use fcastsender::json::JsonValue;

fn step_texts(steps: &[(String, JsonValue)]) -> Vec<String> {
    steps
        .iter()
        .map(|(a, p)| MigrationBackend::command_payload(a, p.duplicate()))
        .collect()
}

#[test]
fn crossfade_script_commands() {
    let s = crossfade_script(42);
    let texts = step_texts(&s.steps);
    assert_eq!(texts.len(), 9);
    assert_eq!(
        texts[0],
        r#"{"createmixer":{"config":{"height":720,"sample-rate":44100,"width":1280},"id":"legacy-channel-42"}}"#
    );
    assert_eq!(texts[1], r#"{"createdestination":{"family":"LocalPlayback","id":"legacy-output-42"}}"#);
    assert_eq!(
        texts[2],
        r#"{"connect":{"link_id":"legacy-channel-42->legacy-output-42-42","sink_id":"legacy-output-42","src_id":"legacy-channel-42"}}"#
    );
    assert_eq!(
        texts[6],
        r#"{"connect":{"audio":false,"config":{"video::alpha":1.0,"video::height":720,"video::sizing-policy":"keep-aspect-ratio","video::width":1280,"video::zorder":2},"link_id":"legacy-source-slot-42->legacy-channel-42-42","sink_id":"legacy-channel-42","src_id":"legacy-source-slot-42","video":true}}"#
    );
    assert_eq!(texts[8], r#"{"getinfo":{}}"#);
    // Nothing created, nothing removed; everything created, all removed in reverse.
    assert!(s.cleanup_after(0).is_empty());
    let all = step_texts(&s.cleanup_after(9));
    assert_eq!(
        all,
        vec![
            r#"{"remove":{"id":"legacy-source-slot-42"}}"#.to_owned(),
            r#"{"remove":{"id":"legacy-output-42"}}"#.to_owned(),
            r#"{"remove":{"id":"legacy-channel-42"}}"#.to_owned(),
        ]
    );
    assert_eq!(step_texts(&s.cleanup_after(2)).len(), 2);
}

#[test]
fn smoke_and_getinfo_scripts() {
    let s = smoke_script(7);
    let texts = step_texts(&s.steps);
    assert_eq!(texts[0], r#"{"createvideogenerator":{"id":"slint-smoke-videogen-7"}}"#);
    assert_eq!(texts[1], r#"{"createmixer":{"audio":false,"id":"slint-smoke-mixer-7","video":true}}"#);
    assert_eq!(step_texts(&s.cleanup_after(1)), vec![r#"{"remove":{"id":"slint-smoke-videogen-7"}}"#.to_owned()]);
    assert_eq!(step_texts(&getinfo_script().steps), vec![r#"{"getinfo":{}}"#.to_owned()]);
}

#[test]
fn script_reports() {
    let reply = graph_http_reply(r#"{"result":{"info":{"nodes":{"a":{},"b":{}}}}}"#).unwrap();
    assert_eq!(getinfo_report(&Ok(reply.duplicate())), "PASS legacy getinfo (/command) nodes=2");
    assert_eq!(
        crossfade_report(5, &Ok(reply)),
        "PASS legacy crossfade bootstrap ok mixer=legacy-channel-5 destination=legacy-output-5 slot_source=legacy-source-slot-5 nodes=2"
    );
    let info = graph_command_outcome("getinfo", r#"{"result":{"info":{"nodes":{"x":{}}}}}"#).unwrap();
    assert_eq!(
        smoke_report(9, &Ok(info)),
        "PASS smoke ok source=slint-smoke-videogen-9 mixer=slint-smoke-mixer-9 link=slint-smoke-link-9 nodes=1"
    );
    assert_eq!(smoke_report(9, &Err("boom".into())), "FAIL boom");
}

#[test]
fn runner_replies() {
    assert_eq!(
        graph_http_reply(r#"{"result":{"error":"no such node"}}"#).err().unwrap(),
        "Migrated server command error: no such node"
    );
    assert_eq!(
        graph_http_reply(r#"{"ok":1}"#).err().unwrap(),
        r#"Missing result in migrated server response: {"ok":1}"#
    );
    assert!(graph_http_reply("nope").err().unwrap().starts_with("Failed to parse migrated server response: "));
    assert!(graph_command_outcome("start", r#"{"result":"success"}"#).is_ok());
    assert_eq!(graph_command_outcome("start", r#"{"result":{"error":"bad"}}"#).err().unwrap(), "start error: bad");
    assert_eq!(
        graph_command_outcome("start", r#"{"result":3}"#).err().unwrap(),
        r#"start unsupported result shape: {"result":3}"#
    );
    assert_eq!(graph_command_outcome("start", r#"{}"#).err().unwrap(), "start missing result field; raw={}");
    assert!(graph_command_outcome("start", "x").err().unwrap().starts_with("start parse failure: "));
    assert_eq!(server_started_message("0.0.0.0:8080", "  ok\n"), "migrated server active bind=0.0.0.0:8080 health=ok");
    assert_eq!(runtime_start_failure("x"), "Failed to start migrated graph runtime: x");
}

#[test]
fn http_exchange() {
    assert_eq!(
        http_request_text("POST", "/command", "127.0.0.1:8080", "{\"a\":\"é\"}"),
        "POST /command HTTP/1.1\r\nHost: 127.0.0.1:8080\r\nContent-Type: application/json\r\nContent-Length: 10\r\nConnection: close\r\n\r\n{\"a\":\"é\"}"
    );
    assert_eq!(read_http_reply("HTTP/1.1 200 OK\r\nA: b\r\n\r\nbody\r\n\r\nmore"), Ok("body\r\n\r\nmore".to_owned()));
    assert_eq!(
        read_http_reply("HTTP/1.1 404 Not Found\r\n\r\nmissing"),
        Err("Migrated server returned non-200 status: HTTP/1.1 404 Not Found; body=missing".to_owned())
    );
    assert_eq!(
        read_http_reply(""),
        Err("Migrated server returned non-200 status: HTTP/1.1 000; body=".to_owned())
    );
    assert_eq!(read_http_reply("HTTP/1.1 200 OK"), Ok(String::new()));
}

#[test]
fn ui_test_dispatch() {
    assert_eq!(migration_test_for("crossfade"), Some(MigrationTest::Crossfade));
    assert_eq!(migration_test_for("bogus"), None);
    assert_eq!(unknown_test_status("bogus"), "FAIL unknown migration-test id: bogus");
    assert_eq!(running_status("smoke"), "Running migration test 'smoke'...");
    assert_eq!(status_line(&Ok("up".into())), "PASS up");
    assert_eq!(stop_status(&Ok(())), "PASS migration server stopped");
    assert_eq!(stop_status(&Err("busy".into())), "FAIL migration server stop: busy");
    assert!(test_passed("PASS x"));
    assert!(!test_passed("FAIL x"));
}

fn object(entries: Vec<(&str, JsonValue)>) -> JsonValue {
    JsonValue::Object(entries.into_iter().map(|(k, v)| (k.to_owned(), v)).collect())
}

#[test]
fn server_reply_from_parsed_values() {
    assert_eq!(
        server_reply_from_parsed("x", Err("expected value".to_owned())).unwrap_err(),
        "Failed to parse migrated server response: expected value; raw=x"
    );
    assert_eq!(
        server_reply_from_parsed("{}", Ok(object(vec![]))).unwrap_err(),
        "Missing result in migrated server response: {}"
    );
    let failed = object(vec![("result", object(vec![("error", JsonValue::Str("no such node".to_owned()))]))]);
    assert_eq!(server_reply_from_parsed("b", Ok(failed)).unwrap_err(), "Migrated server command error: no such node");
    let ok = object(vec![("result", object(vec![]))]);
    assert!(server_reply_from_parsed("b", Ok(ok)).is_ok());
}

#[test]
fn runtime_reply_from_parsed_values() {
    let success = object(vec![("result", JsonValue::Str("success".to_owned()))]);
    assert!(matches!(runtime_reply_from_parsed("start", "r", Ok(success)), Ok(JsonValue::Str(s)) if s == "success"));
    let other = object(vec![("result", JsonValue::Str("later".to_owned()))]);
    assert_eq!(runtime_reply_from_parsed("start", "r", Ok(other)).unwrap_err(), "start unsupported result shape: r");
    assert_eq!(
        runtime_reply_from_parsed("start", "r", Err("eof".to_owned())).unwrap_err(),
        "start parse failure: eof; raw=r"
    );
}

#[test]
fn config_port_from_parsed_values() {
    let doc = object(vec![("gstpop_url", JsonValue::Str("ws://127.0.0.1:9100".to_owned()))]);
    assert_eq!(config_port_from_parsed(&Ok(doc)), Some(9100));
    assert_eq!(config_port_from_parsed(&Ok(object(vec![]))), None);
    assert_eq!(config_port_from_parsed(&Err("bad".to_owned())), None);
}
