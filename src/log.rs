//! Log levels and the shape of a log line.

use vstd::prelude::*;

verus! {

/// How serious a log message is, from least to most.
#[derive(Clone, Copy, Debug, PartialEq, Eq, Structural, PartialOrd, Ord, Hash)]
pub enum LogLevel {
    Debug,
    Info,
    Warn,
    Error,
}

/// The position of a level in the order of seriousness.
pub open spec fn rank(l: LogLevel) -> nat {
    match l {
        LogLevel::Debug => 0,
        LogLevel::Info => 1,
        LogLevel::Warn => 2,
        LogLevel::Error => 3,
    }
}

/// The name a log line shows for a level.
pub open spec fn level_name(l: LogLevel) -> Seq<char> {
    match l {
        LogLevel::Debug => "DEBUG"@,
        LogLevel::Info => "INFO"@,
        LogLevel::Warn => "WARN"@,
        LogLevel::Error => "ERROR"@,
    }
}

impl LogLevel {
    pub fn as_str(&self) -> (r: &'static str)
        ensures
            r@ == level_name(*self),
    {
        match self {
            LogLevel::Debug => "DEBUG",
            LogLevel::Info => "INFO",
            LogLevel::Warn => "WARN",
            LogLevel::Error => "ERROR",
        }
    }

    /// Whether a message of this level is written when only `threshold`
    /// and more serious ones are.
    pub fn enabled(&self, threshold: LogLevel) -> (r: bool)
        ensures
            r == (rank(*self) >= rank(threshold)),
    {
        self.rank_of() >= threshold.rank_of()
    }

    fn rank_of(&self) -> (r: u8)
        ensures
            r as nat == rank(*self),
    {
        match self {
            LogLevel::Debug => 0,
            LogLevel::Info => 1,
            LogLevel::Warn => 2,
            LogLevel::Error => 3,
        }
    }

    /// The log line for `message` at this level.
    pub fn line(&self, message: &str) -> (r: String)
        ensures
            r@ == "[RestGap] ["@ + level_name(*self) + "] "@ + message@,
    {
        let mut s = String::from_str("[RestGap] [");
        s.append(self.as_str());
        s.append("] ");
        s.append(message);
        s
    }
}

} // verus!
