use fcastsender::application::banner::{Banner, BannerSeverity};
use fcastsender::application::defaults::{default_presets, default_quick_actions, QuickActionKind};
use fcastsender::application::settings::{
    delete_history_entry, delete_macro, delete_preset, draft_add_step, draft_remove_step,
    invoke_action, load_draft_macro, move_item, open_history_detail, recast_banner, run_macro,
    save_macro, save_preset, set_active_preset, set_bar_action_enabled, set_interface_enabled,
    enumerate_interfaces, wifi_aware_banner, ActionRequest, MacroStep, SettingsLists,
};
use fcastsender::application::status::{build_status_items, snapshot_items, StatusSeverity, StatusSnapshot};
use fcastsender::application::{
    receiver_items, AppState, Application, CastRequest, DeviceEvent, DeviceInfo, IpAddress,
    SessionAction, SessionEvent,
};
use fcastsender::command::legacy_tests::MigrationTest;

fn device(name: &str, v6: bool, addr: &str, port: u16) -> DeviceInfo {
    DeviceInfo {
        name: name.into(),
        addresses: vec![IpAddress { is_v6: v6, text: addr.into() }],
        port,
    }
}

fn states(actions: &[SessionAction]) -> Vec<AppState> {
    actions
        .iter()
        .filter_map(|a| match a {
            SessionAction::ChangeState(s) => Some(*s),
            _ => None,
        })
        .collect()
}

#[test]
fn receivers_list_only_reachable_devices() {
    let devices = vec![
        device("tv", false, "192.168.1.5", 46899),
        device("mac", true, "fe80::1", 46899),
        DeviceInfo { name: "ghost".into(), addresses: vec![], port: 46899 },
        device("zero", false, "10.0.0.1", 0),
    ];
    let items = receiver_items(&devices);
    assert_eq!(items.len(), 2);
    assert_eq!(items[0].address, "192.168.1.5:46899");
    assert_eq!(items[0].ip, "192.168.1.5");
    assert_eq!(items[0].kind, "fcast");
    assert_eq!(items[1].address, "[fe80::1]:46899");
    assert_eq!(items[1].port, 46899);
    assert!(!items[1].is_default);
}

#[test]
fn session_connects_plays_and_ends() {
    let mut app = Application::new();
    let a = app.handle_event(SessionEvent::DeviceAvailable(device("tv", false, "192.168.1.5", 46899)));
    assert!(matches!(&a[..], [SessionAction::ShowReceivers(items)] if items.len() == 1));
    // A device of the same name replaces the first one.
    let a = app.handle_event(SessionEvent::DeviceChanged(device("tv", false, "192.168.1.6", 46899)));
    match &a[..] {
        [SessionAction::ShowReceivers(items)] => {
            assert_eq!(items.len(), 1);
            assert_eq!(items[0].ip, "192.168.1.6");
        }
        _ => panic!("expected the receiver list"),
    }
    assert_eq!(app.current_device_id(), 0);
    assert!(app.would_connect(&SessionEvent::ConnectToDevice("tv".into())));
    assert!(!app.would_connect(&SessionEvent::ConnectToDevice("nobody".into())));
    assert!(!app.would_connect(&SessionEvent::CaptureStopped));
    let a = app.handle_event(SessionEvent::ConnectToDevice("tv".into()));
    assert!(matches!(&a[0], SessionAction::Connect { handler_id: 1, .. }));
    assert_eq!(app.current_device_id(), 1);
    assert_eq!(states(&a), vec![AppState::Connecting]);
    assert!(app.handle_event(SessionEvent::ConnectToDevice("nobody".into())).is_empty());

    // Reports of an older connection are ignored.
    let old = app.handle_event(SessionEvent::FromDevice {
        id: 0,
        event: DeviceEvent::Connected { local_addr: IpAddress { is_v6: false, text: "192.168.1.2".into() } },
    });
    assert!(old.is_empty());
    let a = app.handle_event(SessionEvent::FromDevice {
        id: 1,
        event: DeviceEvent::Connected { local_addr: IpAddress { is_v6: false, text: "192.168.1.2".into() } },
    });
    assert_eq!(states(&a), vec![AppState::SelectingSettings]);

    let a = app.handle_event(SessionEvent::StartCast { scale_width: 1920, scale_height: 1080, max_framerate: 60 });
    assert!(matches!(a[0], SessionAction::StartScreenCapture(CastRequest { scale_width: 1920, .. })));
    assert_eq!(states(&a), vec![AppState::WaitingForMedia]);

    let a = app.handle_event(SessionEvent::CaptureStarted);
    assert!(matches!(a[0], SessionAction::SetCaptureActive(true)));
    assert!(matches!(a[1], SessionAction::BuildCastGraph(CastRequest { scale_width: 1920, scale_height: 1080, max_framerate: 60 })));
    let a = app.cast_graph_built(true);
    assert!(matches!(a[0], SessionAction::WatchBoundPorts));
    assert_eq!(states(&a), vec![AppState::Casting]);

    let a = app.handle_event(SessionEvent::SignallerStarted { bound_port_v4: 5000, bound_port_v6: 6000 });
    match &a[..] {
        [SessionAction::PlayAt { address, port }] => {
            assert_eq!(address.text, "192.168.1.2");
            assert_eq!(*port, 5000);
        }
        _ => panic!("expected a play message"),
    }
    let a = app.play_message_built("http://192.168.1.2:5000/whep".into());
    assert!(matches!(&a[..], [SessionAction::LoadUrl(u)] if u == "http://192.168.1.2:5000/whep"));

    // The receiver still plays our stream: nothing happens.
    let same = app.handle_event(SessionEvent::FromDevice {
        id: 1,
        event: DeviceEvent::SourceChanged(Some("http://192.168.1.2:5000/whep".into())),
    });
    assert!(same.is_empty());
    // The receiver switched to another source: the cast ends.
    let a = app.handle_event(SessionEvent::FromDevice {
        id: 1,
        event: DeviceEvent::SourceChanged(Some("http://elsewhere/video".into())),
    });
    assert_eq!(states(&a), vec![AppState::Disconnected]);
    assert!(a.iter().any(|x| matches!(x, SessionAction::ReleaseDevice { stop_playback: false })));
    assert!(matches!(a.last(), Some(SessionAction::RemoveCastGraph)));

    // Ending again finds no active receiver to release.
    let a = app.handle_event(SessionEvent::EndSession);
    assert!(!a.iter().any(|x| matches!(x, SessionAction::ReleaseDevice { .. })));
    assert!(matches!(app.handle_event(SessionEvent::Quit)[..], [SessionAction::Quit]));
    assert!(app.names_are_unique());
}

#[test]
fn capture_defaults_and_cancellation() {
    let mut app = Application::new();
    let a = app.handle_event(SessionEvent::CaptureStarted);
    assert!(matches!(a[1], SessionAction::BuildCastGraph(CastRequest { scale_width: 1280, scale_height: 720, max_framerate: 30 })));
    let a = app.handle_event(SessionEvent::CaptureCancelled);
    assert!(matches!(a[0], SessionAction::SetCaptureActive(false)));
    assert_eq!(states(&a), vec![AppState::Disconnected]);
    let a = app.handle_event(SessionEvent::CaptureStopped);
    assert!(matches!(&a[..], [SessionAction::SetCaptureActive(false)]));
    assert!(app.handle_event(SessionEvent::SignallerStarted { bound_port_v4: 1, bound_port_v6: 2 }).is_empty());
    let a = app.handle_event(SessionEvent::DeviceRemoved("missing".into()));
    assert!(a.is_empty());
    let a = app.cast_graph_built(false);
    assert!(matches!(a[0], SessionAction::SetCaptureActive(false)));
}

#[test]
fn factory_defaults() {
    let presets = default_presets();
    let ids: Vec<&str> = presets.iter().map(|p| p.id.as_str()).collect();
    assert_eq!(ids, vec!["low", "med", "high", "max"]);
    assert_eq!(presets.iter().filter(|p| p.active).count(), 1);
    assert!(presets[1].active);
    assert_eq!(presets[3].bitrate_kbps, 15000);
    let bar = default_quick_actions(false);
    assert_eq!(bar.len(), 7);
    assert_eq!(bar[0].kind, QuickActionKind::OpenSettings);
    assert_eq!(bar[0].title, "Settings");
    let debug_bar = default_quick_actions(true);
    assert_eq!(debug_bar.len(), 11);
    assert_eq!(debug_bar[10].custom_id, "test-smoke");
    assert_eq!(debug_bar[10].title, "Smoke Graph");
}

#[test]
fn status_items() {
    let items = build_status_items("TV", "Hardware", "Wi-Fi");
    assert_eq!(items.len(), 3);
    assert_eq!(items[0].label, "Receiver");
    assert_eq!(items[1].icon_glyph, "⚙️");
    let snap = StatusSnapshot { network_label: "Wi-Fi".into(), thermal_label: "Critical".into(), battery_pct: 15, charging: true };
    let items = snapshot_items(&snap);
    assert_eq!(items[1].severity, StatusSeverity::Error);
    assert_eq!(items[1].icon_glyph, "🔥");
    assert_eq!(items[2].value, "15%");
    assert_eq!(items[2].severity, StatusSeverity::Error);
    assert_eq!(items[2].icon_glyph, "⚡");
    let snap = StatusSnapshot { network_label: "Wi-Fi".into(), thermal_label: "Serious".into(), battery_pct: 87, charging: false };
    let items = snapshot_items(&snap);
    assert_eq!(items[1].severity, StatusSeverity::Warning);
    assert_eq!(items[1].icon_glyph, "🌡");
    assert_eq!(items[2].value, "87%");
    assert_eq!(items[2].severity, StatusSeverity::Info);
    assert_eq!(items[2].icon_glyph, "🔋");
}

#[test]
fn presets_keep_a_selection() {
    let mut lists = SettingsLists::new(false);
    save_preset(&mut lists.presets, &mut lists.next_preset_id, "", "Custom", 2500);
    save_preset(&mut lists.presets, &mut lists.next_preset_id, "", "Other", 3000);
    assert_eq!(lists.presets[4].id, "custom-0");
    assert_eq!(lists.presets[5].id, "custom-1");
    assert!(!lists.presets[4].active);
    save_preset(&mut lists.presets, &mut lists.next_preset_id, "custom-0", "Renamed", 2600);
    assert_eq!(lists.presets[4].name, "Renamed");
    assert_eq!(lists.presets[4].bitrate_kbps, 2600);
    set_active_preset(&mut lists.presets, "custom-1");
    assert_eq!(lists.presets.iter().filter(|p| p.active).count(), 1);
    delete_preset(&mut lists.presets, "custom-1");
    assert_eq!(lists.presets.len(), 5);
    assert!(lists.presets[0].active, "the first preset is promoted when the active one goes");
    delete_preset(&mut lists.presets, "high");
    assert!(lists.presets[0].active);
    lists.reset(false);
    assert_eq!(lists.presets.len(), 4);
    assert_eq!(lists.next_preset_id, 0);
    assert!(lists.history.is_empty());
}

#[test]
fn bar_actions_move_and_toggle() {
    let mut bar = default_quick_actions(false);
    move_item(&mut bar, 0, 2);
    assert_eq!(bar[2].kind, QuickActionKind::OpenSettings);
    assert_eq!(bar[0].kind, QuickActionKind::OpenDebug);
    move_item(&mut bar, 2, 0);
    assert_eq!(bar[0].kind, QuickActionKind::OpenSettings);
    move_item(&mut bar, -1, 0);
    move_item(&mut bar, 0, 99);
    assert_eq!(bar[0].kind, QuickActionKind::OpenSettings);
    set_bar_action_enabled(&mut bar, 1, false);
    assert!(!bar[1].enabled);
    set_bar_action_enabled(&mut bar, 50, false);
    assert_eq!(bar.len(), 7);
}

#[test]
fn macros_save_run_and_draft() {
    let mut lists = SettingsLists::new(true);
    let steps = vec![MacroStep { kind: QuickActionKind::ScanQr, label: "Scan QR".into() }];
    save_macro(&mut lists.macros, &mut lists.next_macro_id, "", "Morning", steps, true);
    assert_eq!(lists.macros[0].id, "macro-0");
    assert_eq!(run_macro(&lists.macros, "macro-0"), (true, "Ran macro: Morning".to_owned()));
    assert_eq!(run_macro(&lists.macros, "macro-9"), (false, "Macro macro-9 not found".to_owned()));
    let draft = load_draft_macro(&lists.macros, "macro-0");
    assert_eq!(draft.name, "Morning");
    assert_eq!(draft.steps.len(), 1);
    let empty = load_draft_macro(&lists.macros, "");
    assert!(empty.steps.is_empty());
    assert!(empty.enabled);
    let mut steps = draft.steps;
    draft_add_step(&mut steps, QuickActionKind::StopCast);
    draft_add_step(&mut steps, QuickActionKind::OpenSettings);
    assert_eq!(steps[1].label, "Stop Cast");
    assert_eq!(steps[2].label, "");
    draft_remove_step(&mut steps, 0);
    assert_eq!(steps[0].kind, QuickActionKind::StopCast);
    save_macro(&mut lists.macros, &mut lists.next_macro_id, "macro-0", "Evening", steps, false);
    assert_eq!(lists.macros[0].name, "Evening");
    assert!(!lists.macros[0].enabled);
    delete_macro(&mut lists.macros, "macro-0");
    assert!(lists.macros.is_empty());
}

#[test]
fn history_and_interfaces() {
    let mut lists = SettingsLists::new(false);
    assert_eq!(lists.history.len(), 3);
    assert_eq!(recast_banner(&lists.history, "h2"), Some("Recasting to Bedroom TV".to_owned()));
    assert_eq!(open_history_detail(&lists.history, "h3").unwrap().duration_s, 1920);
    assert!(open_history_detail(&lists.history, "h9").is_none());
    delete_history_entry(&mut lists.history, "h1");
    assert_eq!(lists.history.len(), 2);
    assert_eq!(lists.history[0].id, "h2");
    let mut ifaces = enumerate_interfaces();
    set_interface_enabled(&mut ifaces, "rmnet0", true);
    assert!(ifaces[1].enabled);
    set_interface_enabled(&mut ifaces, "eth9", false);
    assert!(ifaces[0].enabled);
}

#[test]
fn custom_actions_and_banners() {
    assert_eq!(invoke_action("scan-qr"), Some(ActionRequest::ScanQr));
    assert_eq!(invoke_action("migrated-server"), Some(ActionRequest::StartMigrationServer));
    assert_eq!(invoke_action("test-smoke"), Some(ActionRequest::RunMigrationTest(MigrationTest::Smoke)));
    assert_eq!(invoke_action("unknown"), None);
    assert_eq!(wifi_aware_banner(false), "Wi-Fi Aware disabled.");
    let mut banner = Banner::new();
    let first = banner.set("one".into(), BannerSeverity::Info);
    let _second = banner.set("two".into(), BannerSeverity::Success);
    banner.timer_fired(first);
    assert!(banner.visible, "an older timer leaves a newer banner alone");
    assert_eq!(banner.message, "two");
    let third = banner.set("three".into(), BannerSeverity::Error);
    banner.timer_fired(third);
    assert!(!banner.visible);
}
