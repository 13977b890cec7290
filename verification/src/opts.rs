//! The options that the command line hands to the application, already
//! parsed.

use crate::config::ConfigPath;
use vstd::prelude::*;

verus! {

/// The shape in which log lines are written.
#[derive(Clone, Copy, Debug, PartialEq, Eq, Structural)]
pub enum LogFormat {
    Text,
    Json,
}

/// How changes of the configuration files are looked for.
#[derive(Clone, Copy, Debug, PartialEq, Eq, Structural)]
pub enum WatchConfigMethod {
    /// Whatever the platform recommends.
    Recommended,
    /// Looking again at fixed intervals.
    Poll,
}

/// The settings of the configuration watcher.
#[derive(Clone, Copy, Debug, PartialEq, Eq, Structural)]
pub enum WatcherConfig {
    RecommendedWatcher,
    /// Poll, with this many seconds between two looks.
    PollWatcher(u64),
}

/// The options of the application itself.
#[derive(Clone, Debug, PartialEq, Eq)]
pub struct RootOpts {
    /// Where the configuration is read from.
    pub config_paths: Vec<ConfigPath>,
    /// The health policy given on the command line, if any.
    pub require_healthy: Option<bool>,
    /// The number of worker threads asked for, if any.
    pub threads: Option<usize>,
    pub log_format: LogFormat,
    /// The number of seconds within which repeated internal log lines are
    /// suppressed.
    pub internal_log_rate_limit: u64,
    /// The number of seconds that a graceful shutdown may take.
    pub graceful_shutdown_limit_secs: u64,
    /// Lifts the limit on a graceful shutdown.
    pub no_graceful_shutdown_limit: bool,
    /// Whether the configuration files are watched for changes.
    pub watch_config: bool,
    pub watch_config_method: WatchConfigMethod,
    pub watch_config_poll_interval_seconds: u64,
    /// Whether a configuration without components is accepted.
    pub allow_empty_config: bool,
}

/// Everything the command line said.
#[derive(Clone, Debug, PartialEq, Eq)]
pub struct Opts {
    pub root: RootOpts,
    /// The sub command to run in place of the pipeline, if one was named.
    pub sub_command: Option<String>,
    /// The log level that the verbosity flags amount to.
    pub log_level: String,
    /// Whether log lines are coloured.
    pub color: bool,
}

/// The watcher settings that go with `method` and `interval`.
pub open spec fn watcher_config_of(method: WatchConfigMethod, interval: u64) -> WatcherConfig {
    match method {
        WatchConfigMethod::Recommended => WatcherConfig::RecommendedWatcher,
        WatchConfigMethod::Poll => WatcherConfig::PollWatcher(interval),
    }
}

/// Turns the watch options of the command line into the settings of the
/// watcher; the poll interval, in seconds, matters only for polling.
pub fn watcher_config(method: WatchConfigMethod, interval: u64) -> (config: WatcherConfig)
    ensures
        config == watcher_config_of(method, interval),
{
    match method {
        WatchConfigMethod::Recommended => WatcherConfig::RecommendedWatcher,
        WatchConfigMethod::Poll => WatcherConfig::PollWatcher(interval),
    }
}

impl RootOpts {
    /// The limit on a graceful shutdown that the options ask for, in
    /// seconds: none where the limit is lifted.
    pub open spec fn graceful_shutdown_of(self) -> Option<u64> {
        if self.no_graceful_shutdown_limit {
            None
        } else {
            Some(self.graceful_shutdown_limit_secs)
        }
    }

    /// The watcher settings that the options ask for: none where the
    /// configuration is not watched.
    pub open spec fn watcher_of(self) -> Option<WatcherConfig> {
        if self.watch_config {
            Some(watcher_config_of(self.watch_config_method, self.watch_config_poll_interval_seconds))
        } else {
            None
        }
    }

    /// The limit on a graceful shutdown that the options ask for.
    pub fn graceful_shutdown_duration(&self) -> (limit: Option<u64>)
        ensures
            limit == self.graceful_shutdown_of(),
    {
        if self.no_graceful_shutdown_limit {
            None
        } else {
            Some(self.graceful_shutdown_limit_secs)
        }
    }

    /// The watcher settings that the options ask for.
    pub fn watcher_conf(&self) -> (conf: Option<WatcherConfig>)
        ensures
            conf == self.watcher_of(),
    {
        if self.watch_config {
            Some(watcher_config(self.watch_config_method, self.watch_config_poll_interval_seconds))
        } else {
            None
        }
    }
}

} // verus!
