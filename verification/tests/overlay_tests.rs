use fcastsender::overlay::{OverlayConfig, OverlayManager, OverlayRect, OverlaySource};

#[test]
fn add_and_retrieve_overlays() {
    let mut manager = OverlayManager::new();
    manager.upsert(OverlayConfig {
        id: "o1".into(),
        slot_id: "slot-1".into(),
        visible: true,
        source: OverlaySource::File("/tmp/logo.png".into()),
        rect: OverlayRect { x: 10, y: 20, width: 100, height: 50 },
        alpha_bits: 0.8f64.to_bits(),
        z_order: 5,
    });
    manager.upsert(OverlayConfig {
        id: "o2".into(),
        slot_id: "slot-1".into(),
        visible: true,
        source: OverlaySource::File("/tmp/banner.png".into()),
        rect: OverlayRect::default(),
        alpha_bits: 1.0f64.to_bits(),
        z_order: 10,
    });
    manager.upsert(OverlayConfig {
        id: "o3".into(),
        slot_id: "slot-2".into(),
        visible: true,
        ..Default::default()
    });

    let slot1 = manager.overlays_for_slot("slot-1");
    assert_eq!(slot1.len(), 2);
    assert_eq!(slot1[0].id, "o1"); // z_order=5 comes first
    assert_eq!(slot1[1].id, "o2"); // z_order=10 comes second

    let slot2 = manager.overlays_for_slot("slot-2");
    assert_eq!(slot2.len(), 1);
}

#[test]
fn invisible_overlays_excluded() {
    let mut manager = OverlayManager::new();
    manager.upsert(OverlayConfig {
        id: "hidden".into(),
        slot_id: "slot-1".into(),
        visible: false,
        ..Default::default()
    });
    assert_eq!(manager.overlays_for_slot("slot-1").len(), 0);
}

#[test]
fn remove_overlay() {
    let mut manager = OverlayManager::new();
    manager.upsert(OverlayConfig {
        id: "remove-me".into(),
        slot_id: "slot-1".into(),
        ..Default::default()
    });
    assert_eq!(manager.all().len(), 1);
    manager.remove("remove-me");
    assert_eq!(manager.all().len(), 0);
}

#[test]
fn upsert_replaces_by_id_and_keeps_insertion_order_for_ties() {
    let mut manager = OverlayManager::new();
    for (id, z) in [("a", 3), ("b", 1), ("c", 3)] {
        manager.upsert(OverlayConfig { id: id.into(), slot_id: "s".into(), z_order: z, ..Default::default() });
    }
    let ids: Vec<String> = manager.overlays_for_slot("s").into_iter().map(|o| o.id).collect();
    assert_eq!(ids, vec!["b", "a", "c"]);
    manager.upsert(OverlayConfig { id: "a".into(), slot_id: "s".into(), z_order: 0, ..Default::default() });
    assert_eq!(manager.all().len(), 3);
    let ids: Vec<String> = manager.overlays_for_slot("s").into_iter().map(|o| o.id).collect();
    assert_eq!(ids, vec!["a", "b", "c"]);
    let fresh = OverlayConfig::default();
    assert_eq!(fresh.id.len(), 36);
    assert_eq!(f64::from_bits(fresh.alpha_bits), 1.0);
    assert_eq!(fresh.z_order, 10);
}
