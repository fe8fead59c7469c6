//! The logging capability: a configured minimum severity and the decision
//! which messages pass it. Writing the messages out is left to the host.

use vstd::prelude::*;

verus! {

/// A message severity, or `Off` to silence all output.
#[derive(Clone, Copy, Debug, PartialEq, Eq, Structural)]
pub enum LogLevel {
    Off,
    Error,
    Warn,
    Info,
}

/// The rank of a severity: higher ranks are chattier.
pub open spec fn level_rank(level: LogLevel) -> int {
    match level {
        LogLevel::Off => 0,
        LogLevel::Error => 1,
        LogLevel::Warn => 2,
        LogLevel::Info => 3,
    }
}

/// The severity denoted by a configuration number; an unknown number means
/// the chattiest setting.
pub open spec fn level_of_number(num: u32) -> LogLevel {
    if num == 0 {
        LogLevel::Off
    } else if num == 1 {
        LogLevel::Error
    } else if num == 2 {
        LogLevel::Warn
    } else {
        LogLevel::Info
    }
}

impl From<u32> for LogLevel {
    fn from(num: u32) -> (r: Self) {
        match num {
            0 => LogLevel::Off,
            1 => LogLevel::Error,
            2 => LogLevel::Warn,
            3 => LogLevel::Info,
            _ => LogLevel::Info,
        }
    }
}

impl vstd::std_specs::convert::FromSpecImpl<u32> for LogLevel {
    open spec fn obeys_from_spec() -> bool {
        true
    }

    open spec fn from_spec(num: u32) -> Self {
        level_of_number(num)
    }
}

/// The logging capability, constructed once and passed where needed.
pub struct Logger {
    log_level: LogLevel,
}

impl Logger {
    /// The configured minimum severity.
    pub closed spec fn spec_level(&self) -> LogLevel {
        self.log_level
    }

    pub fn new(log_level: LogLevel) -> (r: Self)
        ensures
            r.spec_level() == log_level,
    {
        Self { log_level }
    }

    /// Whether a message of severity `level` is to be written: exactly when
    /// the configured level is at least as chatty.
    pub fn should_log(&self, level: LogLevel) -> (r: bool)
        ensures
            r == (level_rank(level) <= level_rank(self.spec_level())),
    {
        let configured = level_rank_number(self.log_level);
        let asked = level_rank_number(level);
        asked <= configured
    }
}

/// The rank of a severity, as a machine integer.
fn level_rank_number(level: LogLevel) -> (r: u32)
    ensures
        r as int == level_rank(level),
{
    match level {
        LogLevel::Off => 0,
        LogLevel::Error => 1,
        LogLevel::Warn => 2,
        LogLevel::Info => 3,
    }
}

} // verus!
