//! The settings that the pipeline consumes, with their defaults.

use vstd::prelude::*;

use crate::domain::Category;

verus! {

/// What to do with window titles when title tracking is on.
#[derive(Debug, Clone, Copy, PartialEq, Eq, Structural)]
pub enum TitleStrategy {
    /// Leave titles out of the entity.
    Ignore,
    /// Append the title to the class: "Class — Title".
    Append,
}

impl Default for TitleStrategy {
    fn default() -> (r: TitleStrategy)
        ensures
            r == TitleStrategy::Ignore,
    {
        TitleStrategy::Ignore
    }
}

/// A pattern rule that assigns a category.
#[derive(Debug, Clone)]
pub struct CategoryRule {
    /// Regular expression matched against the application class, ignoring case.
    pub pattern: String,
    /// Category assigned when the pattern matches.
    pub category: Category,
}

/// Settings of the pipeline.
#[derive(Debug, Clone)]
pub struct Config {
    /// Interval of the periodic heartbeat tick, in seconds.
    pub heartbeat_interval_seconds: u64,
    /// Minimum seconds before the same entity is sent again.
    pub min_entity_resend_seconds: u64,
    /// Whether window titles take part in the entity.
    pub track_titles: bool,
    /// How titles take part when tracked.
    pub title_strategy: TitleStrategy,
    /// Category of applications that no rule matches.
    pub default_category: Category,
    /// Category rules, tried in order; the first match wins.
    pub category_rules: Vec<CategoryRule>,
    /// If set, only these application classes are tracked.
    pub app_allowlist: Option<Vec<String>>,
    /// Application classes that are never tracked, even if allowed.
    pub app_denylist: Option<Vec<String>>,
    /// Path of the sink executable; searched for when unset.
    pub wakatime_cli_path: Option<String>,
    /// Configuration file handed on to the sink executable.
    pub wakatime_config_path: Option<String>,
    /// Log what would be sent instead of sending it.
    pub dry_run: bool,
    /// Interval between idle-state polls, in seconds.
    pub idle_check_interval_seconds: u64,
}

impl Default for Config {
    fn default() -> (r: Config)
        ensures
            r.heartbeat_interval_seconds == 120,
            r.min_entity_resend_seconds == 120,
            !r.track_titles,
            r.title_strategy == TitleStrategy::Ignore,
            r.default_category == Category::Coding,
            r.category_rules@.len() == 0,
            r.app_allowlist is None,
            r.app_denylist is None,
            r.wakatime_cli_path is None,
            r.wakatime_config_path is None,
            !r.dry_run,
            r.idle_check_interval_seconds == 10,
    {
        Config {
            heartbeat_interval_seconds: 120,
            min_entity_resend_seconds: 120,
            track_titles: false,
            title_strategy: TitleStrategy::Ignore,
            default_category: Category::Coding,
            category_rules: Vec::new(),
            app_allowlist: None,
            app_denylist: None,
            wakatime_cli_path: None,
            wakatime_config_path: None,
            dry_run: false,
            idle_check_interval_seconds: 10,
        }
    }
}

} // verus!
