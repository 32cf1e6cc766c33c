//! Log levels: the level named on the command line and the filter it sets.

use vstd::prelude::*;
use crate::text::str_eq;

verus! {

/// The log levels that can be named; `Quiet` is the level of `none`.
#[derive(Clone, Copy, Debug, PartialEq, Eq, Structural)]
pub enum LogLevel {
    Quiet,
    Info,
    Warnings,
    Error,
    Deprecated,
    Events,
    XError,
    Subtle,
    Debug,
}

/// The filter that a log level sets on the logger.
#[derive(Clone, Copy, Debug, PartialEq, Eq, Structural)]
pub enum LogFilter {
    Off,
    Error,
    Warn,
    Info,
    Debug,
    Trace,
}

/// The text in lower case, as Unicode defines it.
pub uninterp spec fn lowercase(s: Seq<char>) -> Seq<char>;

/// The text in lower case.
///
/// Trusted: calls `str::to_lowercase` from std, whose result depends on the
/// text alone and is named `lowercase`.
#[verifier::external_body]
fn to_lowercase(s: &str) -> (r: String)
    ensures
        r@ == lowercase(s@),
{
    s.to_lowercase()
}

/// The level a lower-case name stands for; unknown names stand for info.
pub open spec fn level_named(name: Seq<char>) -> LogLevel {
    if name == "none"@ {
        LogLevel::Quiet
    } else if name == "info"@ {
        LogLevel::Info
    } else if name == "warnings"@ {
        LogLevel::Warnings
    } else if name == "errors"@ {
        LogLevel::Error
    } else if name == "deprecated"@ {
        LogLevel::Deprecated
    } else if name == "events"@ {
        LogLevel::Events
    } else if name == "xerror"@ {
        LogLevel::XError
    } else if name == "subtle"@ {
        LogLevel::Subtle
    } else if name == "debug"@ {
        LogLevel::Debug
    } else {
        LogLevel::Info
    }
}

/// The filter of a level: none is off, info, warnings, errors and debug
/// their own filter, and every other level traces.
pub open spec fn filter_of(level: LogLevel) -> LogFilter {
    match level {
        LogLevel::Quiet => LogFilter::Off,
        LogLevel::Info => LogFilter::Info,
        LogLevel::Warnings => LogFilter::Warn,
        LogLevel::Error => LogFilter::Error,
        LogLevel::Debug => LogFilter::Debug,
        _ => LogFilter::Trace,
    }
}

impl LogLevel {
    /// The level of a name that is already in lower case (see
    /// `level_named`).
    pub fn from_lowercase(name: &str) -> (r: LogLevel)
        ensures
            r == level_named(name@),
    {
        if str_eq(name, "none") {
            LogLevel::Quiet
        } else if str_eq(name, "info") {
            LogLevel::Info
        } else if str_eq(name, "warnings") {
            LogLevel::Warnings
        } else if str_eq(name, "errors") {
            LogLevel::Error
        } else if str_eq(name, "deprecated") {
            LogLevel::Deprecated
        } else if str_eq(name, "events") {
            LogLevel::Events
        } else if str_eq(name, "xerror") {
            LogLevel::XError
        } else if str_eq(name, "subtle") {
            LogLevel::Subtle
        } else if str_eq(name, "debug") {
            LogLevel::Debug
        } else {
            LogLevel::Info
        }
    }

    /// The level a name stands for, in any case: `none`, `info`,
    /// `warnings`, `errors`, `deprecated`, `events`, `xerror`, `subtle` or
    /// `debug`; any other name stands for info.
    pub fn from(level: &String) -> (r: LogLevel)
        ensures
            r == level_named(lowercase(level@)),
    {
        let lower = to_lowercase(level.as_str());
        LogLevel::from_lowercase(lower.as_str())
    }

    /// The filter this level sets (see `filter_of`).
    pub fn filter(self) -> (r: LogFilter)
        ensures
            r == filter_of(self),
    {
        match self {
            LogLevel::Quiet => LogFilter::Off,
            LogLevel::Info => LogFilter::Info,
            LogLevel::Warnings => LogFilter::Warn,
            LogLevel::Error => LogFilter::Error,
            LogLevel::Debug => LogFilter::Debug,
            _ => LogFilter::Trace,
        }
    }
}

/// The filter the logger starts with: the named level's, or debug's when
/// debugging is on.
pub fn log_filter(level: &String, debug: bool) -> (r: LogFilter)
    ensures
        r == (if debug {
            LogFilter::Debug
        } else {
            filter_of(level_named(lowercase(level@)))
        }),
{
    let mut l = LogLevel::from(level);
    if debug {
        l = LogLevel::Debug;
    }
    l.filter()
}

} // verus!
