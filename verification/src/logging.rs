use vstd::prelude::*;

verus! {

/// How much the daemon logs: messages of this level and the more severe ones.
#[derive(Debug, Clone, Copy, PartialEq, Eq, Structural)]
pub enum LogLevel {
    Error,
    Warn,
    Info,
    Debug,
    Trace,
}

/// The level at which the daemon's own module logs for a verbosity: `Info`,
/// `Debug` or `Trace`. Verbosity 0 and below is `Info`, 1 is `Debug`, and 2
/// and above is `Trace`.
pub open spec fn spec_verbosity_level(verbosity: int) -> LogLevel {
    if verbosity <= 0 {
        LogLevel::Info
    } else if verbosity == 1 {
        LogLevel::Debug
    } else {
        LogLevel::Trace
    }
}

/// The level at which the daemon's own module logs for a verbosity: `Info`
/// up to 0, `Debug` for 1, `Trace` from 2.
pub fn verbosity_level(verbosity: i8) -> (level: LogLevel)
    ensures
        level == spec_verbosity_level(verbosity as int),
{
    if verbosity <= 0 {
        LogLevel::Info
    } else if verbosity == 1 {
        LogLevel::Debug
    } else {
        LogLevel::Trace
    }
}

/// The colour of a log line's prefix, where it has one.
#[derive(Debug, Clone, Copy, PartialEq, Eq, Structural)]
pub enum PrefixColor {
    Yellow,
    Red,
}

/// The prefix that a log line of this level starts with.
pub fn level_prefix(level: LogLevel) -> (prefix: &'static str)
    ensures
        prefix@ == (match level {
            LogLevel::Trace => "TRACE: "@,
            LogLevel::Debug => "DEBUG: "@,
            LogLevel::Info => "INFO:  "@,
            LogLevel::Warn => "WARN:  "@,
            LogLevel::Error => "ERROR: "@,
        }),
{
    match level {
        LogLevel::Trace => "TRACE: ",
        LogLevel::Debug => "DEBUG: ",
        LogLevel::Info => "INFO:  ",
        LogLevel::Warn => "WARN:  ",
        LogLevel::Error => "ERROR: ",
    }
}

/// The colour of the prefix of a log line of this level: warnings are
/// yellow, errors red, the rest plain. Every prefix is bold.
pub fn prefix_color(level: LogLevel) -> (color: Option<PrefixColor>)
    ensures
        color == (match level {
            LogLevel::Warn => Some(PrefixColor::Yellow),
            LogLevel::Error => Some(PrefixColor::Red),
            _ => None,
        }),
{
    match level {
        LogLevel::Warn => Some(PrefixColor::Yellow),
        LogLevel::Error => Some(PrefixColor::Red),
        _ => None,
    }
}

} // verus!
