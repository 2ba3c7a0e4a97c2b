use wakatime_focusd::config::{Config, TitleStrategy};
use wakatime_focusd::domain::Category;

#[test]
fn test_default_config() {
    let config = Config::default();
    assert_eq!(config.heartbeat_interval_seconds, 120);
    assert_eq!(config.min_entity_resend_seconds, 120);
    assert!(!config.track_titles);
    assert_eq!(config.default_category, Category::Coding);
    assert!(config.category_rules.is_empty());
    assert!(!config.dry_run);
}

#[test]
fn default_config_remaining_fields() {
    let config = Config::default();
    assert_eq!(config.title_strategy, TitleStrategy::Ignore);
    assert_eq!(config.idle_check_interval_seconds, 10);
    assert!(config.app_allowlist.is_none());
    assert!(config.app_denylist.is_none());
    assert!(config.wakatime_cli_path.is_none());
    assert!(config.wakatime_config_path.is_none());
    assert_eq!(TitleStrategy::default(), TitleStrategy::Ignore);
    assert_eq!(Category::default(), Category::Coding);
}

#[test]
fn category_wire_names() {
    assert_eq!(Category::Coding.as_str(), "coding");
    assert_eq!(Category::Browsing.as_str(), "browsing");
    assert_eq!(Category::RunningTests.as_str(), "running tests");
    assert_eq!(Category::WritingTests.as_str(), "writing tests");
    assert_eq!(Category::ManualTesting.as_str(), "manual testing");
    assert_eq!(Category::WritingDocs.as_str(), "writing docs");
    assert_eq!(Category::CodeReviewing.as_str(), "code reviewing");
    assert_eq!(Category::Communicating.as_str(), "communicating");
    assert_eq!(Category::AiCoding.as_str(), "ai coding");
    assert_eq!(Category::Designing.as_str(), "designing");
}
