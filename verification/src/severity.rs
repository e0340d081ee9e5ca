//! Source log levels, backend severities, and the total mapping between them.
use vstd::prelude::*;

verus! {

/// The source logging level: six discrete severities, `Critical` the most
/// severe, `Trace` the least.
#[derive(Clone, Copy, Debug, PartialEq, Eq, Structural)]
pub enum Level {
    Critical,
    Error,
    Warning,
    Info,
    Debug,
    Trace,
}

/// The backend's severity: an ordinal (see [`Severity::number`]) paired at
/// emission time with the source level's text (see [`Level::as_str`]).
#[derive(Clone, Copy, Debug, PartialEq, Eq, Structural)]
pub enum Severity {
    Trace,
    Debug,
    Info,
    Warn,
    Error,
    Fatal,
}

/// Rank of a source level: higher means more severe.
pub open spec fn level_rank(l: Level) -> nat {
    match l {
        Level::Trace => 0,
        Level::Debug => 1,
        Level::Info => 2,
        Level::Warning => 3,
        Level::Error => 4,
        Level::Critical => 5,
    }
}

/// The backend ordinal of a severity, as the backend's log data model
/// assigns it (each named severity heads a block of four ordinals).
pub open spec fn severity_number_spec(s: Severity) -> u8 {
    match s {
        Severity::Trace => 1,
        Severity::Debug => 5,
        Severity::Info => 9,
        Severity::Warn => 13,
        Severity::Error => 17,
        Severity::Fatal => 21,
    }
}

/// The total mapping from source level to backend severity.
pub open spec fn level_to_severity_spec(l: Level) -> Severity {
    match l {
        Level::Critical => Severity::Fatal,
        Level::Error => Severity::Error,
        Level::Warning => Severity::Warn,
        Level::Info => Severity::Info,
        Level::Debug => Severity::Debug,
        Level::Trace => Severity::Trace,
    }
}

/// Map a source level to the backend severity.
pub fn level_to_severity(level: Level) -> (s: Severity)
    ensures
        s == level_to_severity_spec(level),
{
    match level {
        Level::Critical => Severity::Fatal,
        Level::Error => Severity::Error,
        Level::Warning => Severity::Warn,
        Level::Info => Severity::Info,
        Level::Debug => Severity::Debug,
        Level::Trace => Severity::Trace,
    }
}

impl Severity {
    /// The backend ordinal of this severity.
    pub fn number(self) -> (n: u8)
        ensures
            n == severity_number_spec(self),
    {
        match self {
            Severity::Trace => 1,
            Severity::Debug => 5,
            Severity::Info => 9,
            Severity::Warn => 13,
            Severity::Error => 17,
            Severity::Fatal => 21,
        }
    }
}

/// The text of a source level, used as the record's severity text.
pub open spec fn level_text_spec(l: Level) -> Seq<char> {
    match l {
        Level::Critical => "CRITICAL"@,
        Level::Error => "ERROR"@,
        Level::Warning => "WARNING"@,
        Level::Info => "INFO"@,
        Level::Debug => "DEBUG"@,
        Level::Trace => "TRACE"@,
    }
}

impl Level {
    /// The short text of this level.
    pub fn as_str(self) -> (s: &'static str)
        ensures
            s@ == level_text_spec(self),
    {
        match self {
            Level::Critical => "CRITICAL",
            Level::Error => "ERROR",
            Level::Warning => "WARNING",
            Level::Info => "INFO",
            Level::Debug => "DEBUG",
            Level::Trace => "TRACE",
        }
    }
}

/// The level-to-severity mapping is total (a spec function of the level
/// alone, hence deterministic), injective, and order-preserving: a more
/// severe source level never maps to a smaller backend ordinal.
pub proof fn lemma_severity_mapping_monotone_injective()
    ensures
        forall|l1: Level, l2: Level|
            level_rank(l1) <= level_rank(l2) ==> severity_number_spec(level_to_severity_spec(l1))
                <= severity_number_spec(level_to_severity_spec(l2)),
        forall|l1: Level, l2: Level|
            l1 != l2 ==> level_to_severity_spec(l1) != level_to_severity_spec(l2),
{
}

} // verus!
