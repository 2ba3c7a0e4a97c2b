//! The heartbeat sink client: locating the sink executable, the arguments of
//! one heartbeat, and rate limiting of failure logs.

use vstd::prelude::*;

use crate::backend::{copy_opt, opt_view};
use crate::config::Config;
use crate::domain::{category_name, Heartbeat};
use crate::heartbeat::texts;
use crate::text::{ends_with, has_prefix, has_suffix, starts_with};

verus! {

broadcast use vstd::string::group_string_axioms;

/// An entry of the sink's home directory.
#[derive(Debug, Clone)]
pub struct CliCandidate {
    /// File name of the entry.
    pub name: String,
    /// Full path of the entry.
    pub path: String,
    /// Whether the entry is a regular file.
    pub is_file: bool,
}

/// What the file system and the search path say about the sink executable.
#[derive(Debug, Clone)]
pub struct CliSearch {
    /// Whether the configured executable path exists.
    pub configured_exists: bool,
    /// Where a search of `PATH` found the executable, if it did.
    pub on_path: Option<String>,
    /// The executable under its exact name in the sink's home directory, if it exists there.
    pub home_exact: Option<String>,
    /// The entries of the sink's home directory, in directory order.
    pub home_entries: Vec<CliCandidate>,
}

/// Why the sink executable could not be located.
#[derive(Debug, Clone)]
pub enum CliError {
    /// The configured path does not exist.
    ConfiguredMissing(String),
    /// No executable was found.
    NotFound,
}

/// Whether a home-directory entry can be the sink executable: a file whose
/// name starts with the executable's name and is no zip archive.
pub open spec fn is_cli_candidate(c: CliCandidate) -> bool {
    &&& has_prefix(c.name@, "wakatime-cli"@)
    &&& !has_suffix(c.name@, ".zip"@)
    &&& c.is_file
}

/// The path of the first entry that can be the sink executable.
pub open spec fn first_candidate(entries: Seq<CliCandidate>) -> Option<Seq<char>>
    decreases entries.len(),
{
    if entries.len() == 0 {
        None
    } else if is_cli_candidate(entries[0]) {
        Some(entries[0].path@)
    } else {
        first_candidate(entries.drop_first())
    }
}

/// Where the sink executable is when no path is configured: found on
/// `PATH`, else under its exact name in the home directory, else the first
/// candidate entry there.
pub open spec fn fallback_cli(search: CliSearch) -> Option<Seq<char>> {
    match search.on_path {
        Some(p) => Some(p@),
        None => match search.home_exact {
            Some(p) => Some(p@),
            None => first_candidate(search.home_entries@),
        },
    }
}

fn first_cli_candidate(entries: &Vec<CliCandidate>) -> (r: Option<String>)
    ensures
        opt_view(r) == first_candidate(entries@),
{
    let mut i: usize = 0;
    assert(entries@.skip(0) =~= entries@);
    while i < entries.len()
        invariant
            i <= entries.len(),
            first_candidate(entries@) == first_candidate(entries@.skip(i as int)),
        decreases entries.len() - i,
    {
        let c = &entries[i];
        assert(entries@.skip(i as int).drop_first() =~= entries@.skip(i + 1));
        if starts_with(c.name.as_str(), "wakatime-cli") && !ends_with(c.name.as_str(), ".zip")
            && c.is_file {
            return Some(c.path.clone());
        }
        i = i + 1;
    }
    None
}

/// Locates the sink executable: a configured path must exist; without one
/// the search results decide.
pub fn find_wakatime_cli(configured: &Option<String>, search: &CliSearch) -> (r: Result<
    String,
    CliError,
>)
    ensures
        configured is Some && search.configured_exists ==> (r matches Ok(p) && p@
            == configured->0@),
        configured is Some && !search.configured_exists ==> (r matches Err(
            CliError::ConfiguredMissing(p),
        ) && p@ == configured->0@),
        configured is None && fallback_cli(*search) is Some ==> (r matches Ok(p) && p@
            == fallback_cli(*search)->0),
        configured is None && fallback_cli(*search) is None ==> (r matches Err(
            CliError::NotFound,
        )),
{
    if let Some(path) = configured {
        if search.configured_exists {
            return Ok(path.clone());
        }
        return Err(CliError::ConfiguredMissing(path.clone()));
    }
    if let Some(path) = &search.on_path {
        return Ok(path.clone());
    }
    if let Some(path) = &search.home_exact {
        return Ok(path.clone());
    }
    match first_cli_candidate(&search.home_entries) {
        Some(path) => Ok(path),
        None => Err(CliError::NotFound),
    }
}

/// The arguments that send one heartbeat to the sink executable.
pub open spec fn sink_args(
    entity: Seq<char>,
    category: Seq<char>,
    plugin: Seq<char>,
    config_path: Option<Seq<char>>,
) -> Seq<Seq<char>> {
    seq![
        "--entity-type"@,
        "app"@,
        "--entity"@,
        entity,
        "--plugin"@,
        plugin,
        "--category"@,
        category,
    ] + match config_path {
        Some(p) => seq!["--config"@, p],
        None => Seq::empty(),
    }
}

/// The heartbeat sink client.
#[derive(Debug)]
pub struct WakaTimeClient {
    cli_path: String,
    config_path: Option<String>,
    dry_run: bool,
}

impl WakaTimeClient {
    /// Path of the sink executable.
    pub closed spec fn cli(&self) -> Seq<char> {
        self.cli_path@
    }

    /// Configuration file handed on to the sink.
    pub closed spec fn config_file(&self) -> Option<Seq<char>> {
        opt_view(self.config_path)
    }

    /// Whether sends are only logged.
    pub closed spec fn is_dry_run(&self) -> bool {
        self.dry_run
    }

    /// A client for `config`, with the executable located from `search`.
    pub fn from_config(config: &Config, search: &CliSearch) -> (r: Result<Self, CliError>)
        ensures
            config.wakatime_cli_path is Some && search.configured_exists ==> (r matches Ok(c)
                && c.cli() == config.wakatime_cli_path->0@),
            config.wakatime_cli_path is Some && !search.configured_exists ==> (r matches Err(
                CliError::ConfiguredMissing(p),
            ) && p@ == config.wakatime_cli_path->0@),
            config.wakatime_cli_path is None && fallback_cli(*search) is Some ==> (r matches Ok(c)
                && c.cli() == fallback_cli(*search)->0),
            config.wakatime_cli_path is None && fallback_cli(*search) is None ==> (r matches Err(
                CliError::NotFound,
            )),
            r matches Ok(c) ==> c.config_file() == opt_view(config.wakatime_config_path)
                && c.is_dry_run() == config.dry_run,
    {
        let cli_path = match find_wakatime_cli(&config.wakatime_cli_path, search) {
            Ok(p) => p,
            Err(e) => {
                return Err(e);
            },
        };
        Ok(
            WakaTimeClient {
                cli_path,
                config_path: copy_opt(&config.wakatime_config_path),
                dry_run: config.dry_run,
            },
        )
    }

    /// Path of the sink executable.
    pub fn cli_path(&self) -> (r: &str)
        ensures
            r@ == self.cli(),
    {
        self.cli_path.as_str()
    }

    /// Whether sends are only logged.
    pub fn dry_run(&self) -> (r: bool)
        ensures
            r == self.is_dry_run(),
    {
        self.dry_run
    }

    /// The arguments that send `heartbeat`, naming the sender as `plugin`.
    pub fn heartbeat_args(&self, heartbeat: &Heartbeat, plugin: &str) -> (r: Vec<String>)
        ensures
            texts(r@) == sink_args(
                heartbeat.entity@,
                category_name(heartbeat.category),
                plugin@,
                self.config_file(),
            ),
    {
        let mut args: Vec<String> = Vec::new();
        args.push("--entity-type".to_owned());
        args.push("app".to_owned());
        args.push("--entity".to_owned());
        args.push(heartbeat.entity.as_str().to_owned());
        args.push("--plugin".to_owned());
        args.push(plugin.to_owned());
        args.push("--category".to_owned());
        args.push(heartbeat.category.as_str().to_owned());
        if let Some(path) = &self.config_path {
            args.push("--config".to_owned());
            args.push(path.clone());
        }
        assert(texts(args@) =~= sink_args(
            heartbeat.entity@,
            category_name(heartbeat.category),
            plugin@,
            self.config_file(),
        ));
        args
    }
}

/// Failures logged in full before rate limiting starts.
pub const ERROR_LOG_BURST: u64 = 5;

/// After the first failures, one failure in this many is logged.
pub const ERROR_LOG_RATE_LIMIT: u64 = 10;

/// How to log one failed send.
#[derive(Debug, Clone, Copy, PartialEq, Eq, Structural)]
pub struct FailureLog {
    /// Log this failure.
    pub log: bool,
    /// Say that failure logs are rate-limited from now on.
    pub announce_limit: bool,
}

/// Counts failed sends to rate-limit their logs.
#[derive(Debug)]
pub struct SinkFailures {
    count: u64,
}

impl View for SinkFailures {
    type V = u64;

    closed spec fn view(&self) -> u64 {
        self.count
    }
}

impl SinkFailures {
    /// No failures yet.
    pub fn new() -> (r: SinkFailures)
        ensures
            r@ == 0,
    {
        SinkFailures { count: 0 }
    }

    /// Records one failure: the first ones are logged, after them one in
    /// `ERROR_LOG_RATE_LIMIT`, and the first one held back announces the limit.
    pub fn record(&mut self) -> (r: FailureLog)
        ensures
            r.log == (old(self)@ < ERROR_LOG_BURST || old(self)@ % ERROR_LOG_RATE_LIMIT == 0),
            r.announce_limit == (old(self)@ == ERROR_LOG_BURST),
            final(self)@ == if old(self)@ < u64::MAX {
                (old(self)@ + 1) as u64
            } else {
                u64::MAX
            },
    {
        let n = self.count;
        self.count = n.saturating_add(1);
        FailureLog {
            log: n < ERROR_LOG_BURST || n % ERROR_LOG_RATE_LIMIT == 0,
            announce_limit: n == ERROR_LOG_BURST,
        }
    }
}

} // verus!
