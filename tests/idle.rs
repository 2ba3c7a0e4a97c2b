use wakatime_focusd::idle::{session_lookup, IdleState, SessionLookup};

#[test]
fn idle_test_idle_monitor_default_state() {
    let monitor = IdleState::new();
    assert!(!monitor.is_idle());
}

#[test]
fn idle_test_idle_monitor_disable() {
    let mut monitor = IdleState::new();
    monitor.record_poll(true);
    assert!(monitor.is_idle());

    monitor.disable();
    assert!(!monitor.is_idle());
}

#[test]
fn idle_test_idle_hint_atomic() {
    let mut monitor = IdleState::new();
    monitor.record_poll(true);
    assert!(monitor.is_idle());
    monitor.record_poll(false);
    assert!(!monitor.is_idle());
}

#[test]
fn logind_test_idle_monitor_default_state() {
    let monitor = IdleState::new();
    assert!(!monitor.is_idle());
}

#[test]
fn logind_test_idle_monitor_disable() {
    let mut monitor = IdleState::new();
    monitor.record_poll(true);
    assert!(monitor.is_idle());

    monitor.disable();
    assert!(!monitor.is_idle());
}

#[test]
fn logind_test_idle_hint_atomic() {
    let mut monitor = IdleState::new();
    monitor.record_poll(true);
    assert!(monitor.is_idle());
    monitor.record_poll(false);
    assert!(!monitor.is_idle());
}

#[test]
fn record_poll_returns_previous_hint() {
    let mut monitor = IdleState::new();
    assert!(!monitor.record_poll(true));
    assert!(monitor.record_poll(true));
    assert!(monitor.record_poll(false));
}

#[test]
fn session_path_is_remembered() {
    let mut monitor = IdleState::new();
    assert!(monitor.session_path().is_none());
    monitor.set_session("/org/freedesktop/login1/session/_32".to_string());
    assert_eq!(
        monitor.session_path().map(|p| p.as_str()),
        Some("/org/freedesktop/login1/session/_32")
    );
}

#[test]
fn session_lookup_by_id_or_probes() {
    match session_lookup(Some("2".to_string())) {
        SessionLookup::ById(id) => assert_eq!(id, "2"),
        SessionLookup::Probe(_) => panic!("expected a lookup by id"),
    }
    match session_lookup(None) {
        SessionLookup::Probe(paths) => assert_eq!(
            paths,
            vec![
                "/org/freedesktop/login1/session/self".to_string(),
                "/org/freedesktop/login1/session/auto".to_string(),
            ]
        ),
        SessionLookup::ById(_) => panic!("expected probes"),
    }
}
