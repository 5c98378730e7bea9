use fcastsender::backend::gstpop::backend::{
    call_step, keep_client_after, probe_status, remove_pipeline_params, translate, CallStep,
};
use fcastsender::backend::gstpop::embedded::{
    is_localhost, loopback_addr, port_wait_failure, url_port, EmbeddedStartup, StartupStep,
};
use fcastsender::backend::lifecycle::{
    apply_plan, build_backend, probe_step, service_start_failure, BackendLifecycle, BackendPanel,
    BuiltBackend, MediaBackendState, ProbeStep, ServiceAction, PROBE_ATTEMPTS,
};
use fcastsender::backend::persistence::StoredBackendConfig;
use fcastsender::backend::registry::{BackendKind as RegistryKind, InMemoryRegistry};
use fcastsender::backend::{BackendKind, BackendStatus, MediaBackendKind, MigrationBackend};
use fcastsender::backend::gstpop::service::EmbeddedState;
use fcastsender::backend::gstpop::service::EmbeddedStatus;
use fcastsender::json::JsonValue;
use fcastsender::composition::App;
use fcastsender::secret::InMemorySecretStore;

fn obj(entries: Vec<(&str, JsonValue)>) -> JsonValue {
    JsonValue::Object(entries.into_iter().map(|(k, v)| (k.to_owned(), v)).collect())
}

#[test]
fn translate_passes_through_native_verbs() {
    let (method, params) =
        translate("snapshot", obj(vec![("details", JsonValue::Str("all".into()))]), "0").unwrap();
    assert_eq!(method, "snapshot");
    assert_eq!(params.get("details").and_then(|v| v.as_str()).map(|s| s.as_str()), Some("all"));
}

#[test]
fn translate_maps_start_to_play() {
    let (method, params) = translate("start", obj(vec![]), "0").unwrap();
    assert_eq!(method, "play");
    assert_eq!(params.get("pipeline_id").and_then(|v| v.as_str()).map(|s| s.as_str()), Some("0"));
}

#[test]
fn install_and_get() {
    let mut r: InMemoryRegistry<MigrationBackend> = InMemoryRegistry::new();
    assert!(r.get(RegistryKind::Migration).is_none());
    r.install(RegistryKind::Migration, MigrationBackend::new());
    assert!(r.get(RegistryKind::Migration).is_some());
}

#[test]
fn unset_kinds_remain_none() {
    let mut r: InMemoryRegistry<MigrationBackend> = InMemoryRegistry::new();
    r.install(RegistryKind::Migration, MigrationBackend::new());
    assert!(r.get(RegistryKind::Gstpop).is_none());
    assert_eq!(r.require(RegistryKind::Gstpop).err().unwrap(), "no backend installed for kind=Gstpop");
}

#[test]
fn kind_names_round_trip() {
    assert_eq!(BackendKind::Migration.as_str(), "migration");
    assert_eq!(BackendKind::parse("gst-pop"), Some(BackendKind::GstPop));
    assert_eq!(BackendKind::parse(BackendKind::GstPop.as_str()), Some(BackendKind::GstPop));
    assert_eq!(BackendKind::parse("GstPop"), None);
}

#[test]
fn urls_name_their_port_and_host() {
    assert_eq!(url_port("ws://127.0.0.1:9001/"), 9001);
    assert_eq!(url_port("ws://example.com"), 9000);
    assert!(is_localhost("ws://localhost:9000"));
    assert!(is_localhost("ws://[::1]:9000"));
    assert!(!is_localhost("ws://10.0.0.2:9000"));
}

#[test]
fn lifecycle_falls_back_to_defaults() {
    let l = BackendLifecycle::new("/data/files".to_owned(), Err("missing".to_owned()));
    assert_eq!(l.files_dir(), "/data/files");
    assert_eq!(l.initial_config().kind, BackendKind::Migration);
    assert_eq!(l.initial_config().gstpop_url, "ws://127.0.0.1:9000");
    let plan = l.autostart_plan();
    assert!(!plan.start_service);
    assert_eq!(plan.state, MediaBackendState::Probing);
}

#[test]
fn local_gstpop_is_started_at_autostart() {
    let mut c = StoredBackendConfig::defaults();
    c.kind = BackendKind::GstPop;
    let l = BackendLifecycle::new("/d".to_owned(), Ok(c));
    let plan = l.autostart_plan();
    assert!(plan.start_service);
    assert_eq!(plan.state, MediaBackendState::Starting);
}

#[test]
fn probes_retry_until_the_last_attempt() {
    assert!(matches!(probe_step(0, Err("down".into())), ProbeStep::Retry));
    assert!(matches!(probe_step(PROBE_ATTEMPTS - 2, Err("down".into())), ProbeStep::Retry));
    match probe_step(PROBE_ATTEMPTS - 1, Err("down".into())) {
        ProbeStep::Fail(e) => assert_eq!(e, "down"),
        _ => panic!("the last attempt must fail"),
    }
    let ok = BackendStatus { status_text: "up".into(), error_text: String::new(), is_connected: true };
    match probe_step(3, Ok(ok)) {
        ProbeStep::Report(s) => assert_eq!(s.status_text, "up"),
        _ => panic!("an answer is reported"),
    }
}

#[test]
fn apply_plan_follows_the_config() {
    let mut c = StoredBackendConfig::defaults();
    c.kind = BackendKind::GstPop;
    let p = apply_plan(BackendKind::Migration, &c);
    assert_eq!(p.service, ServiceAction::Start);
    assert!(p.shutdown_previous);
    c.gstpop_url = "ws://10.0.0.2:9000".into();
    let p = apply_plan(BackendKind::GstPop, &c);
    assert_eq!(p.service, ServiceAction::Stop);
    assert!(!p.shutdown_previous);
    assert_eq!(service_start_failure("boom"), "service start failed: boom");
}

#[test]
fn empty_api_keys_are_dropped_when_building_a_backend() {
    let mut c = StoredBackendConfig::defaults();
    c.kind = BackendKind::GstPop;
    c.gstpop_api_key = Some(String::new());
    match build_backend(&c) {
        BuiltBackend::GstPop(b) => {
            assert_eq!(b.api_key, None);
            assert_eq!(b.url, "ws://127.0.0.1:9000");
            assert_eq!(b.pipeline_id, "0");
        }
        _ => panic!("expected gst-pop"),
    }
    c.gstpop_api_key = Some("k".into());
    match build_backend(&c) {
        BuiltBackend::GstPop(b) => assert_eq!(b.api_key, Some("k".to_owned())),
        _ => panic!("expected gst-pop"),
    }
    assert!(matches!(build_backend(&StoredBackendConfig::defaults()), BuiltBackend::Migration(_)));
}

fn blank_panel() -> BackendPanel {
    BackendPanel {
        media_backend: MediaBackendKind::Migration,
        gstpop_url: String::new(),
        gstpop_api_key: String::new(),
        gstpop_pipeline_id: String::new(),
        state: MediaBackendState::Ready,
        status_text: "old".into(),
        error_text: "old".into(),
        gstpop_service_state: "running".into(),
        gstpop_service_externally_owned: false,
        migration_runtime_service_state: "stopped".into(),
    }
}

#[test]
fn panel_shows_and_reads_back_a_config() {
    let mut c = StoredBackendConfig::defaults();
    c.kind = BackendKind::GstPop;
    c.gstpop_api_key = Some("mock-key".into());
    let mut p = blank_panel();
    p.push_config(&c);
    assert_eq!(p.media_backend, MediaBackendKind::GstPop);
    assert_eq!(p.state, MediaBackendState::Disconnected);
    assert_eq!(p.status_text, "");
    assert_eq!(p.gstpop_service_state, "running");
    let back = p.read_config();
    assert_eq!(back.kind, BackendKind::GstPop);
    assert_eq!(back.gstpop_url, c.gstpop_url);
    assert_eq!(back.gstpop_api_key, Some("mock-key".to_owned()));
    p.gstpop_api_key.clear();
    assert_eq!(p.read_config().gstpop_api_key, None);
}

#[test]
fn panel_reports_status_and_errors() {
    let mut p = blank_panel();
    p.push_status(BackendStatus {
        status_text: "gst-pop v1.2.3 - 2 pipeline(s)".into(),
        error_text: String::new(),
        is_connected: true,
    });
    assert_eq!(p.state, MediaBackendState::Ready);
    assert_eq!(p.status_text, "gst-pop v1.2.3 - 2 pipeline(s)");
    p.push_error("boom");
    assert_eq!(p.state, MediaBackendState::Error);
    assert_eq!(p.status_text, "");
    assert_eq!(p.error_text, "boom");
    p.push_saved();
    assert_eq!(p.status_text, "Saved backend settings");
    assert_eq!(p.error_text, "");
}

#[test]
fn migration_status_drives_the_pill() {
    let mut p = blank_panel();
    p.show_migration_status(true, &Ok(r#"{"state":"running"}"#.to_owned()));
    assert_eq!(p.migration_runtime_service_state, "running");
    assert_eq!(p.state, MediaBackendState::Ready);
    assert_eq!(p.status_text, "Migration runtime running");
    p.show_migration_status(true, &Err("no bridge".into()));
    assert_eq!(p.migration_runtime_service_state, "stopped");
    assert_eq!(p.state, MediaBackendState::Disconnected);
    assert_eq!(p.status_text, "Migration runtime stopped");
    p.show_migration_status(true, &Ok(r#"{"last_error":"x","state":"error"}"#.to_owned()));
    assert_eq!(p.migration_runtime_service_state, "error");
    assert_eq!(p.state, MediaBackendState::Error);
    p.show_migration_status(false, &Ok(r#"{"state":"running"}"#.to_owned()));
    assert_eq!(p.migration_runtime_service_state, "error");
}

#[test]
fn embedded_status_shows_only_on_the_backend_panel() {
    let mut p = blank_panel();
    let status = EmbeddedStatus { state: EmbeddedState::Starting, port: 9000, last_error: None, externally_owned: true };
    p.show_embedded_status(false, &status);
    assert_eq!(p.gstpop_service_state, "running");
    p.show_embedded_status(true, &status);
    assert_eq!(p.gstpop_service_state, "starting");
    assert!(p.gstpop_service_externally_owned);
}

#[test]
fn gstpop_probe_reports_version_and_pipelines() {
    let info = obj(vec![("version", JsonValue::Str("v1.2.3".into()))]);
    let count = obj(vec![("count", JsonValue::Number("2".into()))]);
    let s = probe_status(&info, &count);
    assert_eq!(s.status_text, "gst-pop v1.2.3 - 2 pipeline(s)");
    let s = probe_status(&obj(vec![]), &obj(vec![]));
    assert_eq!(s.status_text, "gst-pop <unknown> - 0 pipeline(s)");
    assert_eq!(remove_pipeline_params("7").to_json_text(), r#"{"pipeline_id":"7"}"#);
}

#[test]
fn only_the_first_caller_starts_the_embedded_daemon() {
    let mut s = EmbeddedStartup::new();
    assert_eq!(s.ensure_started(false), StartupStep::StartServer);
    assert_eq!(s.ensure_started(false), StartupStep::WaitForPort);
    s.server_started(false);
    assert_eq!(s.ensure_started(false), StartupStep::StartServer);
    s.server_started(true);
    assert_eq!(s.ensure_started(false), StartupStep::AlreadyRunning);
    let mut t = EmbeddedStartup::new();
    assert_eq!(t.ensure_started(true), StartupStep::AdoptExternal);
    assert_eq!(t.ensure_started(false), StartupStep::AlreadyRunning);
    assert_eq!(loopback_addr(9000), "127.0.0.1:9000");
    assert_eq!(port_wait_failure(9000), "embedded gst-pop server did not start on port 9000 within 2s");
}

#[test]
fn production_has_migration_backend() {
    let mut a = App::production(MigrationBackend::new(), InMemorySecretStore::new());
    assert!(a.registry().get(RegistryKind::Migration).is_some());
    assert!(a.registry().get(RegistryKind::Gstpop).is_none());
    a.secrets_mut().put("k", b"v").unwrap();
    assert_eq!(a.secrets().get("k").unwrap().as_slice(), b"v");
    let b = a.with_secrets(InMemorySecretStore::new());
    assert!(b.secrets().get("k").is_err());
    assert!(b.registry().get(RegistryKind::Migration).is_some());
}

#[test]
fn cached_connection_is_dropped_after_a_failed_call() {
    assert_eq!(call_step(false), CallStep::Connect);
    assert_eq!(call_step(true), CallStep::UseCached);
    assert_eq!(call_step(keep_client_after(false)), CallStep::Connect);
    assert_eq!(call_step(keep_client_after(true)), CallStep::UseCached);
}
