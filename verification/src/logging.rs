//! The program's logger: which records pass its level, and the line it
//! prints for a record.

use crate::text::{centered, push_centered};
use vstd::prelude::*;
use vstd::string::*;

verus! {

/// The severity of a log record, most severe first.
#[derive(PartialEq, Eq, Structural, Clone, Copy, Debug)]
pub enum Level {
    Error,
    Warn,
    Info,
    Debug,
    Trace,
}

/// The most verbose severity that passes a filter; `Off` lets nothing pass.
#[derive(PartialEq, Eq, Structural, Clone, Copy, Debug)]
pub enum LevelFilter {
    Off,
    Error,
    Warn,
    Info,
    Debug,
    Trace,
}

/// The rank of a severity: one for errors up to five for traces.
pub open spec fn level_rank(level: Level) -> nat {
    match level {
        Level::Error => 1,
        Level::Warn => 2,
        Level::Info => 3,
        Level::Debug => 4,
        Level::Trace => 5,
    }
}

/// The rank of a filter: zero for `Off`, else the rank of its severity.
pub open spec fn filter_rank(filter: LevelFilter) -> nat {
    match filter {
        LevelFilter::Off => 0,
        LevelFilter::Error => 1,
        LevelFilter::Warn => 2,
        LevelFilter::Info => 3,
        LevelFilter::Debug => 4,
        LevelFilter::Trace => 5,
    }
}

/// The name under which a severity is shown.
pub open spec fn level_name(level: Level) -> Seq<char> {
    match level {
        Level::Error => "ERROR"@,
        Level::Warn => "WARN"@,
        Level::Info => "INFO"@,
        Level::Debug => "DEBUG"@,
        Level::Trace => "TRACE"@,
    }
}

/// The name of a filter: that of its severity, `OFF` for `Off`.
pub open spec fn filter_name(filter: LevelFilter) -> Seq<char> {
    match filter {
        LevelFilter::Off => "OFF"@,
        LevelFilter::Error => "ERROR"@,
        LevelFilter::Warn => "WARN"@,
        LevelFilter::Info => "INFO"@,
        LevelFilter::Debug => "DEBUG"@,
        LevelFilter::Trace => "TRACE"@,
    }
}

/// The severities are strictly ordered, from the most severe to the most
/// verbose: error, warning, information, debugging, tracing. So no two
/// severities share a rank, and a logger of one severity prints none of the
/// more verbose ones: one for debugging drops traces.
pub proof fn lemma_severity_order(a: Level, b: Level)
    ensures
        level_rank(Level::Error) < level_rank(Level::Warn),
        level_rank(Level::Warn) < level_rank(Level::Info),
        level_rank(Level::Info) < level_rank(Level::Debug),
        level_rank(Level::Debug) < level_rank(Level::Trace),
        level_rank(a) == level_rank(b) ==> a == b,
        level_rank(Level::Error) == 1,
        level_rank(Level::Trace) == 5,
{
}

impl Level {
    /// The filter that lets exactly this severity and the more severe ones
    /// pass.
    pub fn to_level_filter(&self) -> (filter: LevelFilter)
        ensures
            filter_rank(filter) == level_rank(*self),
            filter_name(filter) == level_name(*self),
            filter !is Off,
    {
        match self {
            Level::Error => LevelFilter::Error,
            Level::Warn => LevelFilter::Warn,
            Level::Info => LevelFilter::Info,
            Level::Debug => LevelFilter::Debug,
            Level::Trace => LevelFilter::Trace,
        }
    }

    /// The name under which the severity is shown.
    pub fn as_str(&self) -> (name: &'static str)
        ensures
            name@ == level_name(*self),
    {
        proof {
            reveal_strlit("ERROR");
            reveal_strlit("WARN");
            reveal_strlit("INFO");
            reveal_strlit("DEBUG");
            reveal_strlit("TRACE");
        }
        match self {
            Level::Error => "ERROR",
            Level::Warn => "WARN",
            Level::Info => "INFO",
            Level::Debug => "DEBUG",
            Level::Trace => "TRACE",
        }
    }
}

/// The rank of a severity.
fn rank(level: Level) -> (r: u8)
    ensures
        r == level_rank(level),
{
    match level {
        Level::Error => 1,
        Level::Warn => 2,
        Level::Info => 3,
        Level::Debug => 4,
        Level::Trace => 5,
    }
}

/// `<timestamp> [<level centred in 7>] [<thread centred in 15>] <message>`.
pub open spec fn log_line(
    timestamp: Seq<char>,
    level: Level,
    thread_name: Seq<char>,
    message: Seq<char>,
) -> Seq<char> {
    timestamp + " ["@ + centered(level_name(level), 7) + "] ["@ + centered(thread_name, 15) + "] "@
        + message
}

/// A record passes a logger exactly when its severity passes the filter the
/// logger announces, so announcing that filter to the logging front end
/// drops nothing the logger would print.
pub proof fn lemma_filter_agrees_with_enabled(logger: Logger, level: Level)
    requires
        filter_rank(logger.spec_level_filter()) == level_rank(logger.spec_level()),
    ensures
        (level_rank(level) <= level_rank(logger.spec_level())) == (level_rank(level)
            <= filter_rank(logger.spec_level_filter())),
{
}

/// Every severity name fits the seven-character field, so the severity
/// field of a log line is always exactly seven characters wide.
pub proof fn lemma_level_field_width(level: Level)
    ensures
        centered(level_name(level), 7).len() == 7,
{
    reveal_strlit("ERROR");
    reveal_strlit("WARN");
    reveal_strlit("INFO");
    reveal_strlit("DEBUG");
    reveal_strlit("TRACE");
    crate::text::lemma_centered_len(level_name(level), 7);
}

/// A logger that prints the records of its severity and the more severe
/// ones.
pub struct Logger {
    level: Level,
    level_filter: LevelFilter,
}

impl Logger {
    /// The severity the logger was made with.
    pub closed spec fn spec_level(self) -> Level {
        self.level
    }

    /// The filter the logger announces.
    pub closed spec fn spec_level_filter(self) -> LevelFilter {
        self.level_filter
    }

    /// A logger for `level` and the more severe severities.
    pub fn new(level: Level) -> (logger: Self)
        ensures
            logger.spec_level() == level,
            filter_rank(logger.spec_level_filter()) == level_rank(level),
            filter_name(logger.spec_level_filter()) == level_name(level),
    {
        Logger { level, level_filter: level.to_level_filter() }
    }

    /// The filter matching the logger's severity.
    pub fn get_level_filter(&self) -> (filter: LevelFilter)
        ensures
            filter == self.spec_level_filter(),
    {
        self.level_filter
    }

    /// Whether a record of severity `level` is printed.
    pub fn enabled(&self, level: Level) -> (enabled: bool)
        ensures
            enabled == (level_rank(level) <= level_rank(self.spec_level())),
    {
        rank(level) <= rank(self.level)
    }

    /// The line printed for a record of severity `level` with text
    /// `message`, logged at `timestamp` on the thread named `thread_name`
    /// (`-` for a thread without a name); `None` where the record does not
    /// pass the logger's severity.
    pub fn format_record(
        &self,
        timestamp: &str,
        level: Level,
        thread_name: Option<&str>,
        message: &str,
    ) -> (line: Option<String>)
        ensures
            line is Some <==> level_rank(level) <= level_rank(self.spec_level()),
            line matches Some(l) ==> l@ == log_line(
                timestamp@,
                level,
                match thread_name {
                    Some(name) => name@,
                    None => "-"@,
                },
                message@,
            ),
    {
        if !self.enabled(level) {
            return None;
        }
        let thread = match thread_name {
            Some(name) => name,
            None => "-",
        };
        let mut line = String::from_str(timestamp);
        line.append(" [");
        push_centered(&mut line, level.as_str(), 7);
        line.append("] [");
        push_centered(&mut line, thread, 15);
        line.append("] ");
        line.append(message);
        proof {
            reveal_strlit(" [");
            reveal_strlit("] [");
            reveal_strlit("] ");
            reveal_strlit("-");
        }
        assert(line@ =~= log_line(timestamp@, level, thread@, message@));
        Some(line)
    }
}

} // verus!
