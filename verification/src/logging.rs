//! How the log verbosity is chosen.
//!
//! Two environment variables can set it: a primary one, and an older alias
//! that is still honoured but deprecated. Reading the environment is the
//! caller's part; what was found there comes in as plain values.

use crate::opts::LogFormat;
use vstd::prelude::*;
use vstd::string::*;

verus! {

/// The name of the environment variable that sets the log levels.
pub const LOG_VARIABLE: &'static str = "VECTOR_LOG";

/// The name of the deprecated environment variable that sets the log levels.
pub const DEPRECATED_LOG_VARIABLE: &'static str = "LOG";

/// The log levels in effect, and whether the deprecated variable set them.
#[derive(Clone, Debug, PartialEq, Eq)]
pub struct LogLevels {
    pub levels: String,
    /// Set where the levels come from the deprecated variable, which calls
    /// for a warning.
    pub deprecated: bool,
}

/// What the logging subsystem is initialised with.
#[derive(Clone, Debug, PartialEq, Eq)]
pub struct LoggingSetup {
    pub color: bool,
    /// Whether log lines are written as JSON.
    pub json: bool,
    pub levels: String,
    pub rate: u64,
    /// Whether a warning about the deprecated variable is due.
    pub deprecated: bool,
}

/// The log levels in effect: those of the primary variable where it is set,
/// else those of the deprecated one where that is set, else the default.
pub open spec fn log_levels_of(
    default: Seq<char>,
    primary: Option<Seq<char>>,
    deprecated: Option<Seq<char>>,
) -> Seq<char> {
    match primary {
        Some(levels) => levels,
        None => match deprecated {
            Some(levels) => levels,
            None => default,
        },
    }
}

/// Whether the levels in effect come from the deprecated variable.
pub open spec fn uses_deprecated(primary: Option<Seq<char>>, deprecated: Option<Seq<char>>) -> bool {
    primary is None && deprecated is Some
}

/// Chooses the log levels. `primary` and `deprecated` are the values of the
/// two environment variables, `None` where one is not set.
pub fn get_log_levels(default: &str, primary: Option<String>, deprecated: Option<String>) -> (chosen:
    LogLevels)
    ensures
        chosen.levels@ == log_levels_of(default@, primary.deep_view(), deprecated.deep_view()),
        chosen.deprecated == uses_deprecated(primary.deep_view(), deprecated.deep_view()),
{
    match primary {
        Some(levels) => LogLevels { levels, deprecated: false },
        None => match deprecated {
            Some(levels) => LogLevels { levels, deprecated: true },
            None => LogLevels { levels: String::from_str(default), deprecated: false },
        },
    }
}

/// Decides what the logging subsystem is initialised with: the levels as
/// `get_log_levels` chooses them, JSON lines exactly for the JSON format,
/// and colour and rate as given.
pub fn init_logging(
    color: bool,
    format: LogFormat,
    log_level: &str,
    rate: u64,
    primary: Option<String>,
    deprecated: Option<String>,
) -> (setup: LoggingSetup)
    ensures
        setup.color == color,
        setup.json == (format == LogFormat::Json),
        setup.levels@ == log_levels_of(log_level@, primary.deep_view(), deprecated.deep_view()),
        setup.rate == rate,
        setup.deprecated == uses_deprecated(primary.deep_view(), deprecated.deep_view()),
{
    let chosen = get_log_levels(log_level, primary, deprecated);
    let json = match format {
        LogFormat::Text => false,
        LogFormat::Json => true,
    };
    LoggingSetup { color, json, levels: chosen.levels, rate, deprecated: chosen.deprecated }
}

} // verus!
