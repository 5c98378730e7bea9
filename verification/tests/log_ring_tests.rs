use fcastsender::log_ring::{LogEntry, LogLevel, LogRing, LOG_RING_CAP};

fn entry(target: &str, message: &str) -> LogEntry {
    LogEntry {
        level: LogLevel::Info,
        timestamp: "12:00:00.000".into(),
        target: target.into(),
        message: message.into(),
    }
}

#[test]
fn ring_keeps_the_newest_entries() {
    let mut ring = LogRing::new();
    assert!(ring.take_snapshot().is_none());
    for i in 0..(LOG_RING_CAP + 3) {
        assert!(ring.on_event(entry("fcastsender::app", &i.to_string())));
    }
    assert_eq!(ring.len(), LOG_RING_CAP);
    let snap = ring.take_snapshot().unwrap();
    assert_eq!(snap.len(), LOG_RING_CAP);
    assert_eq!(snap[0].message, "3");
    assert_eq!(snap[LOG_RING_CAP - 1].message, (LOG_RING_CAP + 2).to_string());
    assert!(ring.take_snapshot().is_none(), "nothing new after a push");
}

#[test]
fn ring_ignores_its_own_events_and_clears() {
    let mut ring = LogRing::new();
    assert!(!ring.on_event(entry("fcastsender::log_ring::pusher", "x")));
    assert!(ring.take_snapshot().is_none());
    ring.on_event(entry("gst", "y"));
    ring.clear();
    assert_eq!(ring.len(), 0);
    assert_eq!(ring.take_snapshot().unwrap().len(), 0);
}
