//! The process-wide log: which records pass, and how a record is written.
//!
//! The threshold is fixed when the logger is made and never changes.

use vstd::prelude::*;
use vstd::string::StringExecFns;

verus! {

/// How grave a record is, gravest first.
#[derive(Clone, Copy, Debug, PartialEq, Eq, Structural)]
pub enum Level {
    Error,
    Warn,
    Info,
    Debug,
    Trace,
}

/// The least grave level that still passes, or `Off` for none.
#[derive(Clone, Copy, Debug, PartialEq, Eq, Structural)]
pub enum LevelFilter {
    Off,
    Error,
    Warn,
    Info,
    Debug,
    Trace,
}

/// What every record of this process is marked with.
pub open spec fn prefix() -> Seq<char> {
    "RS"@
}

impl Level {
    /// The place of the level in the order of gravity: 1 for `Error`, up
    /// to 5 for `Trace`.
    pub open spec fn rank(self) -> nat {
        match self {
            Level::Error => 1,
            Level::Warn => 2,
            Level::Info => 3,
            Level::Debug => 4,
            Level::Trace => 5,
        }
    }

    /// The name of the level as it stands in a record.
    pub open spec fn name(self) -> Seq<char> {
        match self {
            Level::Error => "ERROR"@,
            Level::Warn => "WARN"@,
            Level::Info => "INFO"@,
            Level::Debug => "DEBUG"@,
            Level::Trace => "TRACE"@,
        }
    }

    fn rank_of(self) -> (rank: u8)
        ensures
            rank == self.rank(),
    {
        match self {
            Level::Error => 1,
            Level::Warn => 2,
            Level::Info => 3,
            Level::Debug => 4,
            Level::Trace => 5,
        }
    }

    /// The name of the level, in capitals.
    pub fn as_str(self) -> (name: &'static str)
        ensures
            name@ == self.name(),
    {
        match self {
            Level::Error => "ERROR",
            Level::Warn => "WARN",
            Level::Info => "INFO",
            Level::Debug => "DEBUG",
            Level::Trace => "TRACE",
        }
    }
}

impl LevelFilter {
    /// The rank of the least grave level that passes; 0 for `Off`.
    pub open spec fn rank(self) -> nat {
        match self {
            LevelFilter::Off => 0,
            LevelFilter::Error => 1,
            LevelFilter::Warn => 2,
            LevelFilter::Info => 3,
            LevelFilter::Debug => 4,
            LevelFilter::Trace => 5,
        }
    }

    fn rank_of(self) -> (rank: u8)
        ensures
            rank == self.rank(),
    {
        match self {
            LevelFilter::Off => 0,
            LevelFilter::Error => 1,
            LevelFilter::Warn => 2,
            LevelFilter::Info => 3,
            LevelFilter::Debug => 4,
            LevelFilter::Trace => 5,
        }
    }
}

/// A record as it is written: `<LEVEL> <prefix> - <message>`.
pub open spec fn record_text(level: Level, prefix: Seq<char>, message: Seq<char>) -> Seq<char> {
    level.name() + " "@ + prefix + " - "@ + message
}

/// Writes a record as one line of text, without the line end.
pub fn format_record(level: Level, prefix: &str, message: &str) -> (line: String)
    ensures
        line@ == record_text(level, prefix@, message@),
{
    let mut line = level.as_str().to_owned();
    line.append(" ");
    line.append(prefix);
    line.append(" - ");
    line.append(message);
    line
}

/// The log of the process.
#[derive(Clone, Copy, Debug)]
pub struct Logger {
    max_level: LevelFilter,
}

impl Logger {
    /// The threshold of the logger.
    pub closed spec fn threshold(&self) -> LevelFilter {
        self.max_level
    }

    /// A record of level `level` passes.
    pub open spec fn passes(&self, level: Level) -> bool {
        level.rank() <= self.threshold().rank()
    }

    /// Makes the logger of a process: records down to `Debug` pass where
    /// debugging was asked for at startup, down to `Info` where not.
    pub fn new(log_debug: bool) -> (logger: Logger)
        ensures
            logger.threshold() == if log_debug {
                LevelFilter::Debug
            } else {
                LevelFilter::Info
            },
    {
        Logger {
            max_level: if log_debug {
                LevelFilter::Debug
            } else {
                LevelFilter::Info
            },
        }
    }

    /// The threshold that the logger was made with.
    pub fn max_level(&self) -> (max: LevelFilter)
        ensures
            max == self.threshold(),
    {
        self.max_level
    }

    /// Says whether a record of level `level` passes the threshold.
    pub fn enabled(&self, level: Level) -> (enabled: bool)
        ensures
            enabled == self.passes(level),
    {
        level.rank_of() <= self.max_level.rank_of()
    }

    /// The line to write for a record, or `None` where the record does not
    /// pass the threshold.
    pub fn log(&self, level: Level, message: &str) -> (line: Option<String>)
        ensures
            self.passes(level) <==> line is Some,
            line matches Some(text) ==> text@ == record_text(level, prefix(), message@),
    {
        if self.enabled(level) {
            Some(format_record(level, "RS", message))
        } else {
            None
        }
    }

    /// Nothing is buffered, so there is nothing to flush.
    pub fn flush(&self) {
    }
}

} // verus!
