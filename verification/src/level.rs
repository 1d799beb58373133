//! Severity levels and their stable integer codes.

use vstd::prelude::*;

verus! {

/// Severity of a log event. `Error` is the most severe and the lowest in
/// the order; `Trace` is the most verbose and the highest.
#[derive(Clone, Copy, Debug, PartialEq, Eq, Structural)]
pub enum LogLevel {
    Error,
    Warn,
    Info,
    Debug,
    Trace,
}

/// The smallest code that stands for a level.
pub const MIN_LEVEL_CODE: u32 = 1;

/// The largest code that stands for a level.
pub const MAX_LEVEL_CODE: u32 = 5;

impl LogLevel {
    /// The place of a level in the order `Error < Warn < Info < Debug < Trace`,
    /// which is also the integer that stands for it on the boundary:
    /// 1 for `Error` up to 5 for `Trace`.
    pub open spec fn rank(self) -> int {
        match self {
            LogLevel::Error => 1,
            LogLevel::Warn => 2,
            LogLevel::Info => 3,
            LogLevel::Debug => 4,
            LogLevel::Trace => 5,
        }
    }

    /// The level that a code stands for, if any.
    pub open spec fn of_rank(code: int) -> Option<LogLevel> {
        if code == 1 {
            Some(LogLevel::Error)
        } else if code == 2 {
            Some(LogLevel::Warn)
        } else if code == 3 {
            Some(LogLevel::Info)
        } else if code == 4 {
            Some(LogLevel::Debug)
        } else if code == 5 {
            Some(LogLevel::Trace)
        } else {
            None
        }
    }

    /// The fixed-width integer that stands for this level on the boundary.
    pub fn code(self) -> (c: u32)
        ensures
            c == self.rank(),
            MIN_LEVEL_CODE <= c <= MAX_LEVEL_CODE,
    {
        match self {
            LogLevel::Error => 1,
            LogLevel::Warn => 2,
            LogLevel::Info => 3,
            LogLevel::Debug => 4,
            LogLevel::Trace => 5,
        }
    }

    /// Reads a level back from its code. Codes outside 1..=5 stand for no
    /// level.
    pub fn from_code(code: u32) -> (level: Option<LogLevel>)
        ensures
            level == LogLevel::of_rank(code as int),
            level is Some <==> MIN_LEVEL_CODE <= code <= MAX_LEVEL_CODE,
    {
        if code == 1 {
            Some(LogLevel::Error)
        } else if code == 2 {
            Some(LogLevel::Warn)
        } else if code == 3 {
            Some(LogLevel::Info)
        } else if code == 4 {
            Some(LogLevel::Debug)
        } else if code == 5 {
            Some(LogLevel::Trace)
        } else {
            None
        }
    }

    /// Whether an event of this level passes a threshold: it does when it is
    /// at least as severe as the threshold.
    pub fn passes(self, threshold: LogLevel) -> (yes: bool)
        ensures
            yes == (self.rank() <= threshold.rank()),
    {
        self.code() <= threshold.code()
    }
}

/// Every level is read back from its own code.
pub proof fn lemma_code_round_trip(level: LogLevel)
    ensures
        LogLevel::of_rank(level.rank()) == Some(level),
{
}

/// Two levels with the same code are the same level, and a code that
/// stands for a level is that level's code.
pub proof fn lemma_code_is_injective(a: LogLevel, b: LogLevel, code: int)
    ensures
        a.rank() == b.rank() ==> a == b,
        LogLevel::of_rank(code) == Some(a) ==> a.rank() == code,
{
}

} // verus!
