//! Severity levels, totally ordered from `Trace` up to `Error`.

use vstd::prelude::*;

verus! {

/// Severity of an event: `Trace < Debug < Info < Warn < Error`.
#[derive(Clone, Copy, Debug, PartialEq, Eq, Structural)]
pub enum Level {
    Trace,
    Debug,
    Info,
    Warn,
    Error,
}

impl Level {
    /// Position of the level in the total order, `Trace` lowest.
    pub open spec fn rank(self) -> int {
        match self {
            Level::Trace => 0,
            Level::Debug => 1,
            Level::Info => 2,
            Level::Warn => 3,
            Level::Error => 4,
        }
    }

    /// The one-letter console marker for the level.
    pub open spec fn spec_letter(self) -> Seq<char> {
        match self {
            Level::Trace => "T"@,
            Level::Debug => "D"@,
            Level::Info => "I"@,
            Level::Warn => "W"@,
            Level::Error => "E"@,
        }
    }

    /// The upper-case name of the level.
    pub open spec fn spec_name(self) -> Seq<char> {
        match self {
            Level::Trace => "TRACE"@,
            Level::Debug => "DEBUG"@,
            Level::Info => "INFO"@,
            Level::Warn => "WARN"@,
            Level::Error => "ERROR"@,
        }
    }

    /// The numeric severity used by OTLP log records.
    pub open spec fn spec_severity_number(self) -> int {
        match self {
            Level::Trace => 1,
            Level::Debug => 5,
            Level::Info => 9,
            Level::Warn => 13,
            Level::Error => 17,
        }
    }

    pub fn letter(self) -> (r: &'static str)
        ensures
            r@ == self.spec_letter(),
    {
        match self {
            Level::Trace => "T",
            Level::Debug => "D",
            Level::Info => "I",
            Level::Warn => "W",
            Level::Error => "E",
        }
    }

    pub fn name(self) -> (r: &'static str)
        ensures
            r@ == self.spec_name(),
    {
        match self {
            Level::Trace => "TRACE",
            Level::Debug => "DEBUG",
            Level::Info => "INFO",
            Level::Warn => "WARN",
            Level::Error => "ERROR",
        }
    }

    pub fn severity_number(self) -> (r: u32)
        ensures
            r == self.spec_severity_number(),
    {
        match self {
            Level::Trace => 1,
            Level::Debug => 5,
            Level::Info => 9,
            Level::Warn => 13,
            Level::Error => 17,
        }
    }

    /// Whether `self` is at most `other` in the severity order.
    pub fn le(self, other: Level) -> (r: bool)
        ensures
            r <==> self.rank() <= other.rank(),
    {
        let a = match self {
            Level::Trace => 0u8,
            Level::Debug => 1,
            Level::Info => 2,
            Level::Warn => 3,
            Level::Error => 4,
        };
        let b = match other {
            Level::Trace => 0u8,
            Level::Debug => 1,
            Level::Info => 2,
            Level::Warn => 3,
            Level::Error => 4,
        };
        a <= b
    }
}

} // verus!
