use fcastsender::application::banner::BannerSeverity;
use fcastsender::application::AppState;
use fcastsender::jni_bridge::discovery::{decode_address, service_found, DecodedAddress};
use fcastsender::jni_bridge::helpers::{
    check_capacity, copy_plane, frame_layout, handle_back_request, java_method_name, needs_reconfigure,
    BackAction, JavaMethod,
};
use fcastsender::jni_bridge::main_activity::{
    native_back_pressed, native_graph_command, native_process_frame, native_slint_apply_state, BackContext,
};
use fcastsender::platform::lifecycle::{countdown_ended, countdown_seconds, Generation, LifecycleMode};
use fcastsender::platform::panel_stack::Panel;
use fcastsender::platform::platform_app::{RecordingState, RecordingTickerState};

#[test]
fn recording_time_leaves_out_pauses() {
    let mut r = RecordingTickerState::new();
    assert_eq!(r.elapsed_at(5_000), None);
    r.start(1_000);
    assert_eq!(r.elapsed_at(4_500), Some(3));
    assert!(r.pause(5_000));
    assert_eq!(r.state, RecordingState::Paused);
    assert_eq!(r.elapsed_at(9_000), None);
    assert!(!r.pause(9_000));
    assert!(r.resume(15_000));
    assert_eq!(r.paused_for, 10_000);
    assert_eq!(r.elapsed_at(17_000), Some(6));
    assert!(!r.resume(18_000));
    r.begin_stop();
    assert_eq!(r.state, RecordingState::Finalizing);
    r.finish_stop();
    assert_eq!(r, RecordingTickerState::new());
}

#[test]
fn countdowns_only_end_their_own_generation() {
    let mut g = Generation::new();
    let first = g.bump();
    let second = g.bump();
    assert_eq!(countdown_ended(LifecycleMode::SnapshotCountdown, first, &g), LifecycleMode::SnapshotCountdown);
    assert_eq!(countdown_ended(LifecycleMode::SnapshotCountdown, second, &g), LifecycleMode::Normal);
    assert_eq!(countdown_ended(LifecycleMode::LockScreen, second, &g), LifecycleMode::LockScreen);
    assert_eq!(countdown_seconds(-4), 0);
    assert_eq!(countdown_seconds(3), 3);
    let mut w = Generation { current: u64::MAX };
    assert_eq!(w.bump(), 0);
}

#[test]
fn back_press_closes_panels_then_overlays_then_sessions() {
    assert_eq!(handle_back_request(Panel::Settings, LifecycleMode::Stealth, AppState::Casting, true), BackAction::PopPanel);
    assert_eq!(handle_back_request(Panel::Home, LifecycleMode::Stealth, AppState::Casting, true), BackAction::ExitLifecycle);
    assert_eq!(handle_back_request(Panel::Home, LifecycleMode::Normal, AppState::Casting, true), BackAction::EndSession);
    assert_eq!(handle_back_request(Panel::Home, LifecycleMode::Normal, AppState::Connecting, true), BackAction::Disconnect);
    assert_eq!(handle_back_request(Panel::Home, LifecycleMode::Normal, AppState::Disconnected, true), BackAction::FinishApp);
    assert_eq!(handle_back_request(Panel::Home, LifecycleMode::Normal, AppState::Disconnected, false), BackAction::Ignore);
    assert_eq!(native_back_pressed(None), None);
    let ctx = BackContext { panel: Panel::Home, mode: LifecycleMode::Normal, state: AppState::WaitingForMedia, has_app: true };
    assert_eq!(native_back_pressed(Some(ctx)), Some(BackAction::EndSession));
    assert_eq!(java_method_name(JavaMethod::FinishApp), "finishApp");
}

#[test]
fn kotlin_state_codes() {
    let u = native_slint_apply_state(3, "Waiting", 2);
    assert_eq!(u.state, AppState::WaitingForMedia);
    assert_eq!(u.banner_severity, BannerSeverity::Warning);
    assert!(u.banner_visible);
    let u = native_slint_apply_state(2, "", 7);
    assert_eq!(u.state, AppState::Disconnected);
    assert_eq!(u.banner_severity, BannerSeverity::Info);
    assert!(!u.banner_visible);
    assert_eq!(native_graph_command(Err("bad".into())), "");
    assert_eq!(native_graph_command(Ok("{\"getinfo\":{}}".into())), "{\"getinfo\":{}}");
}

#[test]
fn discovered_addresses() {
    match decode_address(&[192, 168, 1, 7]) {
        Some(DecodedAddress::V4(a, b, c, d)) => assert_eq!((a, b, c, d), (192, 168, 1, 7)),
        _ => panic!("expected IPv4"),
    }
    let mut v6 = vec![0xfeu8, 0x80];
    v6.extend(std::iter::repeat(0u8).take(13));
    v6.push(1);
    v6.extend([3, 1, 0, 0]);
    match decode_address(&v6) {
        Some(DecodedAddress::V6 { octets, scope_id }) => {
            assert_eq!(octets.len(), 16);
            assert_eq!(octets[0], 0xfe);
            assert_eq!(octets[15], 1);
            assert_eq!(scope_id, 259);
        }
        _ => panic!("expected IPv6"),
    }
    assert!(decode_address(&[1, 2, 3]).is_none());
    let found = service_found("tv".into(), &vec![vec![10, 0, 0, 1], vec![9; 7], v6], 46899);
    assert_eq!(found.addresses.len(), 2);
    assert_eq!(found.port, 46899);
    assert_eq!(service_found("x".into(), &vec![], 65536 + 80).port, 80);
}

#[test]
fn frame_planes() {
    let l = frame_layout(5, 3);
    assert_eq!((l.luma, l.chroma, l.frame_size), (15, 2, 19));
    assert_eq!(check_capacity(10, 15), Err("buffer_cap < size: 10 < 15".to_owned()));
    assert_eq!(check_capacity(15, 15), Ok(()));
    match native_process_frame(4, 4, 16, 4, 3) {
        Err(e) => assert_eq!(e, "buffer_cap < size: 3 < 4"),
        Ok(_) => panic!("the V plane is too small"),
    }
    let l = native_process_frame(4, 4, 16, 4, 4).unwrap();
    assert_eq!(l.frame_size, 24);
    assert!(needs_reconfigure(false, Some((true, 24)), 24));
    assert!(needs_reconfigure(true, None, 24));
    assert!(needs_reconfigure(true, Some((false, 24)), 24));
    assert!(needs_reconfigure(true, Some((true, 23)), 24));
    assert!(!needs_reconfigure(true, Some((true, 24)), 24));
    let mut dest = vec![0u8; 10];
    copy_plane(&mut dest, &[1, 2, 3, 4, 5, 6, 7], 3);
    assert_eq!(dest, vec![1, 2, 3, 4, 5, 6, 0, 0, 0, 0]);
}
