use fcastsender::backend::gstpop::service::{GstPopServiceManager, StartStep, StopStep, EMBEDDED_PORT};
use fcastsender::backend::persistence::StoredBackendConfig;
use fcastsender::service::mock::MockServiceManager;
use fcastsender::service::registry::{lookup, ServiceId, ServiceManagers};
use fcastsender::service::{ServiceManager, ServiceMode, ServiceOptions};

#[test]
fn mock_service_start_stop() {
    let mut svc = MockServiceManager::new("test-service");
    let status = svc.start().unwrap();
    assert!(status.running);
    assert!(status.healthy);

    let status = svc.stop().unwrap();
    assert!(!status.running);
}

#[test]
fn disabled_service_options_accessible() {
    let mut svc = MockServiceManager::new("test-service");
    svc.set_options(ServiceOptions {
        enabled: false,
        auto_start: false,
        mode: ServiceMode::Embedded,
    });

    let opts = svc.options();
    assert!(!opts.enabled);
    assert!(!opts.auto_start);
}

#[test]
fn start_failure_returns_error() {
    let mut svc = MockServiceManager::new("fail-service");
    svc.start_should_fail = true;

    let result = svc.start();
    assert!(result.is_err());
}

#[test]
fn gstpop_manager_start_depends_on_mode() {
    let disabled = GstPopServiceManager::new(ServiceOptions { enabled: false, auto_start: false, mode: ServiceMode::Embedded });
    match disabled.start_step() {
        StartStep::Finished(s) => {
            assert!(!s.running);
            assert_eq!(s.status_text, "gst-pop service disabled by configuration");
        }
        _ => panic!("a disabled service is not started"),
    }
    let embedded = GstPopServiceManager::new(ServiceOptions { enabled: true, auto_start: false, mode: ServiceMode::Embedded });
    assert!(matches!(embedded.start_step(), StartStep::StartEmbedded(p) if p == EMBEDDED_PORT));
    let external = GstPopServiceManager::new(ServiceOptions { enabled: true, auto_start: false, mode: ServiceMode::External });
    match external.stop_step() {
        StopStep::Finished(s) => assert_eq!(s.status_text, "external daemon — stop is a no-op"),
        _ => panic!("an external daemon is not stopped"),
    }
}

#[test]
fn services_are_looked_up_by_id() {
    let managers = ServiceManagers::init(&StoredBackendConfig::defaults());
    assert_eq!(lookup(Some(&managers), "gstpop"), Some(ServiceId::GstPop));
    assert_eq!(lookup(Some(&managers), "migration"), Some(ServiceId::Migration));
    assert_eq!(lookup(Some(&managers), "overlay"), None);
    assert_eq!(lookup(None, "gstpop"), None);
}
