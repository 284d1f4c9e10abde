//! How much the tunnel reports.

use vstd::prelude::*;

verus! {

/// The levels of diagnostic output, from the most verbose to the least.
#[derive(Clone, Copy, Debug, PartialEq, Eq, Structural)]
pub enum LogLevel {
    Trace,
    Debug,
    Info,
    Warn,
    Error,
}

/// The level that a name selects. A level is selected by its name in capital
/// letters; any other text selects `Info`.
pub open spec fn level_named(name: Seq<char>) -> LogLevel {
    if name == "TRACE"@ {
        LogLevel::Trace
    } else if name == "DEBUG"@ {
        LogLevel::Debug
    } else if name == "WARN"@ {
        LogLevel::Warn
    } else if name == "ERROR"@ {
        LogLevel::Error
    } else {
        LogLevel::Info
    }
}

/// The level for a setting that may be absent: `Info` where it is.
pub open spec fn level_of_setting(setting: Option<Seq<char>>) -> LogLevel {
    match setting {
        Some(name) => level_named(name),
        None => LogLevel::Info,
    }
}

impl LogLevel {
    /// The level that the verbosity setting selects, `setting` being the
    /// value of that setting where it is set.
    pub fn from_setting(setting: Option<&str>) -> (level: LogLevel)
        ensures
            level == level_of_setting(
                match setting {
                    Some(name) => Some(name@),
                    None => None,
                },
            ),
    {
        match setting {
            None => LogLevel::Info,
            Some(name) => {
                let name = name.to_owned();
                if name == "TRACE".to_owned() {
                    LogLevel::Trace
                } else if name == "DEBUG".to_owned() {
                    LogLevel::Debug
                } else if name == "WARN".to_owned() {
                    LogLevel::Warn
                } else if name == "ERROR".to_owned() {
                    LogLevel::Error
                } else {
                    LogLevel::Info
                }
            },
        }
    }
}

} // verus!
