//! Log lines of the command-line tools.
use vstd::prelude::*;
use vstd::string::StringExecFns;

verus! {

/// How serious a logged event is.
#[derive(Clone, Copy, Debug, PartialEq, Eq, Structural)]
pub enum LogLevel {
    Success,
    Information,
    Warning,
    Error,
}

/// The tag that a log line shows for a level.
pub open spec fn level_label(level: LogLevel) -> Seq<char> {
    match level {
        LogLevel::Success => "SUCCESS"@,
        LogLevel::Information => "INFO"@,
        LogLevel::Warning => "WARNING"@,
        LogLevel::Error => "ERROR"@,
    }
}

impl LogLevel {
    pub fn label(&self) -> (r: &'static str)
        ensures
            r@ == level_label(*self),
    {
        match self {
            LogLevel::Success => "SUCCESS",
            LogLevel::Information => "INFO",
            LogLevel::Warning => "WARNING",
            LogLevel::Error => "ERROR",
        }
    }

    /// Warnings and errors go to standard error, the rest to standard output.
    pub fn to_stderr(&self) -> (r: bool)
        ensures
            r == (*self == LogLevel::Warning || *self == LogLevel::Error),
    {
        match self {
            LogLevel::Warning | LogLevel::Error => true,
            _ => false,
        }
    }
}

/// The name of the server program, as log lines show it.
pub fn get_binary() -> (r: &'static str)
    ensures
        r@ == "./lucid"@,
{
    "./lucid"
}

/// A log line: `<time> [<LABEL>] <program>: <message>`.
pub fn log_line(level: LogLevel, time: &str, message: &str) -> (r: String)
    ensures
        r@ == time@ + " ["@ + level_label(level) + "] "@ + "./lucid"@ + ": "@ + message@,
{
    time.to_owned().concat(" [").concat(level.label()).concat("] ").concat(get_binary()).concat(
        ": ",
    ).concat(message)
}

} // verus!
