use wakatime_focusd::backend::FocusEvent;
use wakatime_focusd::domain::{Category, Entity, Heartbeat};
use wakatime_focusd::throttle::{HeartbeatThrottle, ThrottleDecision};

fn test_heartbeat(app_class: &str) -> Heartbeat {
    Heartbeat::new(
        Entity::new(app_class),
        Category::Coding,
        FocusEvent::new(app_class.to_string(), None, None),
    )
}

#[test]
fn test_first_heartbeat_always_sends() {
    let throttle = HeartbeatThrottle::new(120);
    let heartbeat = test_heartbeat("firefox");
    assert_eq!(throttle.should_send(&heartbeat.entity), ThrottleDecision::Send);
}

#[test]
fn test_different_entity_sends() {
    let mut throttle = HeartbeatThrottle::new(120);

    let firefox = test_heartbeat("firefox");
    assert_eq!(throttle.should_send(&firefox.entity), ThrottleDecision::Send);
    throttle.record_sent(firefox);

    let code = test_heartbeat("code");
    assert_eq!(throttle.should_send(&code.entity), ThrottleDecision::Send);
}

#[test]
fn test_same_entity_throttled() {
    let mut throttle = HeartbeatThrottle::new(120);
    let firefox = test_heartbeat("firefox");

    assert_eq!(throttle.should_send(&firefox.entity), ThrottleDecision::Send);
    throttle.record_sent(firefox);

    let another_firefox = test_heartbeat("firefox");
    assert_eq!(
        throttle.should_send(&another_firefox.entity),
        ThrottleDecision::Skip
    );
}

#[test]
fn test_same_entity_after_timeout() {
    let mut throttle = HeartbeatThrottle::new(0);
    let firefox = test_heartbeat("firefox");

    assert_eq!(throttle.should_send(&firefox.entity), ThrottleDecision::Send);
    throttle.record_sent(firefox);

    let another_firefox = test_heartbeat("firefox");
    assert_eq!(
        throttle.should_send(&another_firefox.entity),
        ThrottleDecision::Send
    );
}

#[test]
fn test_entity_change_sequence() {
    let mut throttle = HeartbeatThrottle::new(120);

    let firefox1 = test_heartbeat("firefox");
    assert_eq!(throttle.should_send(&firefox1.entity), ThrottleDecision::Send);
    throttle.record_sent(firefox1);

    let code = test_heartbeat("code");
    assert_eq!(throttle.should_send(&code.entity), ThrottleDecision::Send);
    throttle.record_sent(code);

    let firefox2 = test_heartbeat("firefox");
    assert_eq!(throttle.should_send(&firefox2.entity), ThrottleDecision::Send);
}

#[test]
fn test_last_heartbeat() {
    let mut throttle = HeartbeatThrottle::new(120);
    assert!(throttle.last_heartbeat().is_none());

    let heartbeat = test_heartbeat("firefox");
    throttle.record_sent(heartbeat.clone());

    let last = throttle.last_heartbeat().unwrap();
    assert_eq!(last.entity.as_str(), "firefox");
}

#[test]
fn throttle_resends_after_interval() {
    let mut throttle = HeartbeatThrottle::new(120);
    let firefox = test_heartbeat("firefox");
    assert_eq!(throttle.should_send_at(&firefox.entity, 1_000), ThrottleDecision::Send);
    throttle.record_sent_at(firefox, 1_000);
    let again = Entity::new("firefox");
    assert_eq!(throttle.should_send_at(&again, 1_000), ThrottleDecision::Skip);
    assert_eq!(throttle.should_send_at(&again, 120_999), ThrottleDecision::Skip);
    assert_eq!(throttle.should_send_at(&again, 121_000), ThrottleDecision::Send);
    assert_eq!(throttle.should_send_at(&again, 500_000), ThrottleDecision::Send);
    // A clock reading before the last send counts as no time elapsed.
    assert_eq!(throttle.should_send_at(&again, 10), ThrottleDecision::Skip);
    assert_eq!(
        throttle.should_send_at(&Entity::new("code"), 1_000),
        ThrottleDecision::Send
    );
}

#[test]
fn throttle_zero_interval_always_sends() {
    let mut throttle = HeartbeatThrottle::new(0);
    throttle.record_sent_at(test_heartbeat("firefox"), 5_000);
    assert_eq!(
        throttle.should_send_at(&Entity::new("firefox"), 5_000),
        ThrottleDecision::Send
    );
    assert_eq!(
        throttle.should_send_at(&Entity::new("firefox"), 0),
        ThrottleDecision::Send
    );
}

#[test]
fn throttle_huge_interval_never_resends_same_entity() {
    let mut throttle = HeartbeatThrottle::new(u64::MAX);
    throttle.record_sent_at(test_heartbeat("firefox"), 0);
    assert_eq!(
        throttle.should_send_at(&Entity::new("firefox"), u64::MAX),
        ThrottleDecision::Skip
    );
}

#[test]
fn entity_equality_and_conversion() {
    assert_eq!(Entity::new("code"), Entity::from("code".to_string()));
    assert_ne!(Entity::new("code"), Entity::new("Code"));
}
