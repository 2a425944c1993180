//! Log levels, the threshold below which messages are dropped, and the
//! header of a log line.
//!
//! The sink is not part of this library. [`log`] decides whether a message
//! goes out at all and with what time stamp, label and colour; writing the
//! line is left to the caller.

use vstd::prelude::*;

verus! {

/// Severity of a message, from the least to the most severe.
#[allow(clippy::upper_case_acronyms)]
#[derive(Debug, Copy, Clone, PartialEq, Eq, PartialOrd, Ord, Structural)]
pub enum LogLevel {
    /// Detail for debugging.
    DEBUG,
    /// Normal operation.
    INFO,
    /// Something unexpected that the kernel can live with.
    WARN,
    /// A failure.
    ERROR,
    /// A failure after which the kernel stops.
    FATAL,
}

impl LogLevel {
    /// Rank of the level: 0 for DEBUG up to 4 for FATAL.
    pub open spec fn rank(self) -> u8 {
        match self {
            LogLevel::DEBUG => 0,
            LogLevel::INFO => 1,
            LogLevel::WARN => 2,
            LogLevel::ERROR => 3,
            LogLevel::FATAL => 4,
        }
    }

    /// The level of rank `rank`. A rank that names no level gives INFO.
    pub open spec fn of_rank(rank: u8) -> LogLevel {
        if rank == 0 {
            LogLevel::DEBUG
        } else if rank == 2 {
            LogLevel::WARN
        } else if rank == 3 {
            LogLevel::ERROR
        } else if rank == 4 {
            LogLevel::FATAL
        } else {
            LogLevel::INFO
        }
    }

    /// The label of the level, five characters wide.
    pub open spec fn label(self) -> Seq<char> {
        match self {
            LogLevel::DEBUG => "DEBUG"@,
            LogLevel::INFO => " INFO"@,
            LogLevel::WARN => " WARN"@,
            LogLevel::ERROR => "ERROR"@,
            LogLevel::FATAL => "FATAL"@,
        }
    }

    /// The ANSI escape sequence that sets the colour of the level.
    pub open spec fn color(self) -> Seq<char> {
        match self {
            LogLevel::DEBUG => "\x1b[36m"@,
            LogLevel::INFO => "\x1b[32m"@,
            LogLevel::WARN => "\x1b[33m"@,
            LogLevel::ERROR => "\x1b[31m"@,
            LogLevel::FATAL => "\x1b[35m"@,
        }
    }

    /// Rank of the level: 0 for DEBUG up to 4 for FATAL.
    pub fn as_u8(&self) -> (r: u8)
        ensures
            r == self.rank(),
            r <= 4,
    {
        match self {
            LogLevel::DEBUG => 0,
            LogLevel::INFO => 1,
            LogLevel::WARN => 2,
            LogLevel::ERROR => 3,
            LogLevel::FATAL => 4,
        }
    }

    /// The level of rank `rank`; INFO where `rank` names no level.
    pub fn from_u8(rank: u8) -> (r: Self)
        ensures
            r == Self::of_rank(rank),
            rank <= 4 ==> r.rank() == rank,
    {
        match rank {
            0 => LogLevel::DEBUG,
            1 => LogLevel::INFO,
            2 => LogLevel::WARN,
            3 => LogLevel::ERROR,
            4 => LogLevel::FATAL,
            _ => LogLevel::INFO,
        }
    }

    /// The label of the level: cyan DEBUG, green INFO, and so on.
    pub fn as_str(&self) -> (r: &'static str)
        ensures
            r@ == self.label(),
    {
        match self {
            LogLevel::DEBUG => "DEBUG",
            LogLevel::INFO => " INFO",
            LogLevel::WARN => " WARN",
            LogLevel::ERROR => "ERROR",
            LogLevel::FATAL => "FATAL",
        }
    }

    /// The ANSI escape sequence that sets the colour of the level.
    pub fn color_code(&self) -> (r: &'static str)
        ensures
            r@ == self.color(),
    {
        match self {
            LogLevel::DEBUG => "\x1b[36m",
            LogLevel::INFO => "\x1b[32m",
            LogLevel::WARN => "\x1b[33m",
            LogLevel::ERROR => "\x1b[31m",
            LogLevel::FATAL => "\x1b[35m",
        }
    }
}

/// The threshold of the log: messages below it are dropped.
#[derive(Debug, Clone, Copy, PartialEq, Eq)]
pub struct Logger {
    level: u8,
}

impl Logger {
    /// The threshold.
    pub closed spec fn threshold(self) -> LogLevel {
        LogLevel::of_rank(self.level)
    }

    /// A log that lets every message through.
    pub fn new() -> (r: Self)
        ensures
            r.threshold() == LogLevel::DEBUG,
    {
        Self { level: 0 }
    }
}

/// The header of a log line: time of the message as seconds and milliseconds
/// of uptime, and its level.
#[derive(Debug, Clone, Copy, PartialEq, Eq)]
pub struct LogRecord {
    /// Whole seconds of uptime.
    pub seconds: u64,
    /// Milliseconds beyond the whole seconds: below 1000.
    pub millis: u64,
    /// Level of the message.
    pub level: LogLevel,
}

/// Makes `level` the threshold.
pub fn set_log_level(logger: &mut Logger, level: LogLevel)
    ensures
        final(logger).threshold() == level,
{
    logger.level = level.as_u8();
}

/// The threshold.
pub fn get_log_level(logger: &Logger) -> (r: LogLevel)
    ensures
        r == logger.threshold(),
{
    LogLevel::from_u8(logger.level)
}

/// Decides about a message of level `level` at `uptime_ms` milliseconds of
/// uptime: a message below the threshold is dropped, any other goes out under
/// the header returned.
pub fn log(logger: &Logger, level: LogLevel, uptime_ms: u64) -> (r: Option<LogRecord>)
    ensures
        r is Some <==> level.rank() >= logger.threshold().rank(),
        r is Some ==> r.unwrap() == (LogRecord {
            seconds: uptime_ms / 1000,
            millis: uptime_ms % 1000,
            level,
        }),
{
    if level.as_u8() < get_log_level(logger).as_u8() {
        return None;
    }
    Some(LogRecord { seconds: uptime_ms / 1000, millis: uptime_ms % 1000, level })
}

} // verus!
