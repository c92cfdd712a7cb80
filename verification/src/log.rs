//! Log levels: how a level is named in the settings and on each line, and which messages a
//! log at a given level echoes.
use crate::text::str_eq;
use vstd::prelude::*;
use vstd::string::StringExecFns;

verus! {

/// The severity of a log message, from the least severe.
#[derive(Debug, Clone, Copy, PartialEq, Eq, Structural)]
pub enum LogLevel {
    Debug,
    Info,
    Warn,
    Test,
    Error,
}

/// The rank of a level: `Debug` is 1 and `Error` is 5.
pub open spec fn level_rank(l: LogLevel) -> nat {
    match l {
        LogLevel::Debug => 1,
        LogLevel::Info => 2,
        LogLevel::Warn => 3,
        LogLevel::Test => 4,
        LogLevel::Error => 5,
    }
}

/// The level a setting word names; unknown words select `Info`.
pub open spec fn level_of_name(s: Seq<char>) -> LogLevel {
    if s == "info"@ {
        LogLevel::Info
    } else if s == "debug"@ {
        LogLevel::Debug
    } else if s == "warn"@ {
        LogLevel::Warn
    } else if s == "test"@ {
        LogLevel::Test
    } else if s == "error"@ {
        LogLevel::Error
    } else {
        LogLevel::Info
    }
}

/// The five-column tag of a level on a log line.
pub open spec fn level_tag(l: LogLevel) -> Seq<char> {
    match l {
        LogLevel::Debug => "DEBUG"@,
        LogLevel::Info => "INFO "@,
        LogLevel::Warn => "WARN "@,
        LogLevel::Test => "TEST "@,
        LogLevel::Error => "ERROR"@,
    }
}

/// The level a setting word names (`info`, `debug`, `warn`, `test`, `error`; `Info` otherwise).
pub fn set_log_level(log_level: &str) -> (l: LogLevel)
    ensures
        l == level_of_name(log_level@),
{
    if str_eq(log_level, "info") {
        LogLevel::Info
    } else if str_eq(log_level, "debug") {
        LogLevel::Debug
    } else if str_eq(log_level, "warn") {
        LogLevel::Warn
    } else if str_eq(log_level, "test") {
        LogLevel::Test
    } else if str_eq(log_level, "error") {
        LogLevel::Error
    } else {
        LogLevel::Info
    }
}

impl LogLevel {
    /// The rank of the level: `Debug` is 1 and `Error` is 5.
    pub fn rank(&self) -> (r: u8)
        ensures
            r == level_rank(*self),
    {
        match self {
            LogLevel::Debug => 1,
            LogLevel::Info => 2,
            LogLevel::Warn => 3,
            LogLevel::Test => 4,
            LogLevel::Error => 5,
        }
    }

    /// The tag of the level on a log line.
    pub fn to_string(&self) -> (s: String)
        ensures
            s@ == level_tag(*self),
    {
        match self {
            LogLevel::Debug => String::from_str("DEBUG"),
            LogLevel::Info => String::from_str("INFO "),
            LogLevel::Warn => String::from_str("WARN "),
            LogLevel::Test => String::from_str("TEST "),
            LogLevel::Error => String::from_str("ERROR"),
        }
    }

    /// Is a message of level `msg` below the log's level `self`, so that it is written to the
    /// log file only and not echoed?
    pub fn is_quieter_than_log(&self, msg: LogLevel) -> (b: bool)
        ensures
            b == (level_rank(*self) > level_rank(msg)),
    {
        self.rank() > msg.rank()
    }
}

/// The level configured for the log: the settings' word, or `info` where none is given.
pub fn configured_log_level(level: &Option<String>) -> (l: LogLevel)
    ensures
        l == (match level {
            Some(s) => level_of_name(s@),
            None => LogLevel::Info,
        }),
{
    match level {
        Some(s) => set_log_level(s.as_str()),
        None => {
            proof {
                reveal_strlit("info");
            }
            set_log_level("info")
        },
    }
}

} // verus!
