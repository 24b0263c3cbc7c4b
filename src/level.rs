//! Severity levels and their numeric wire encoding.
use vstd::prelude::*;

verus! {

/// Number of severity levels; ranks run from 0 to `LEVEL_COUNT - 1`.
pub const LEVEL_COUNT: u8 = 5;

/// Severity of a log event, most severe first.
#[derive(Clone, Copy, Debug, PartialEq, Eq, Structural)]
pub enum LogLevel {
    Error,
    Warn,
    Info,
    Debug,
    Trace,
}

/// The rank of a level: 0 for `Error` up to 4 for `Trace`.
pub open spec fn rank_of(l: LogLevel) -> nat {
    match l {
        LogLevel::Error => 0,
        LogLevel::Warn => 1,
        LogLevel::Info => 2,
        LogLevel::Debug => 3,
        LogLevel::Trace => 4,
    }
}

/// The level of a given rank, if the rank is one of the five.
pub open spec fn level_of_rank(r: nat) -> Option<LogLevel> {
    if r == 0 {
        Some(LogLevel::Error)
    } else if r == 1 {
        Some(LogLevel::Warn)
    } else if r == 2 {
        Some(LogLevel::Info)
    } else if r == 3 {
        Some(LogLevel::Debug)
    } else if r == 4 {
        Some(LogLevel::Trace)
    } else {
        None
    }
}

impl LogLevel {
    /// The wire encoding of the level: its rank.
    pub fn rank(&self) -> (r: u8)
        ensures
            r as nat == rank_of(*self),
            r < LEVEL_COUNT,
    {
        match self {
            LogLevel::Error => 0,
            LogLevel::Warn => 1,
            LogLevel::Info => 2,
            LogLevel::Debug => 3,
            LogLevel::Trace => 4,
        }
    }

    /// Decodes a rank; `None` for a rank outside `0..LEVEL_COUNT`.
    pub fn from_rank(r: u8) -> (l: Option<LogLevel>)
        ensures
            l == level_of_rank(r as nat),
            l is Some <==> r < LEVEL_COUNT,
    {
        match r {
            0 => Some(LogLevel::Error),
            1 => Some(LogLevel::Warn),
            2 => Some(LogLevel::Info),
            3 => Some(LogLevel::Debug),
            4 => Some(LogLevel::Trace),
            _ => None,
        }
    }
}

impl LogLevel {
    /// Decodes the number that the `log` facade gives its levels, from 1
    /// for `Error` to 5 for `Trace`; `None` for any other number.
    pub fn from_facade_number(n: usize) -> (l: Option<LogLevel>)
        ensures
            1 <= n <= 5 ==> l == level_of_rank((n - 1) as nat),
            l is Some <==> 1 <= n <= 5,
    {
        if 1 <= n && n <= 5 {
            LogLevel::from_rank((n - 1) as u8)
        } else {
            None
        }
    }
}

/// Decoding the rank of a level gives the level back.
pub proof fn lemma_rank_round_trip(l: LogLevel)
    ensures
        rank_of(l) < LEVEL_COUNT,
        level_of_rank(rank_of(l)) == Some(l),
{
}

/// Every rank below `LEVEL_COUNT` decodes to the one level that has it, so
/// ranks and levels are in one-to-one correspondence.
pub proof fn lemma_rank_bijection(r: nat, a: LogLevel, b: LogLevel)
    ensures
        r < LEVEL_COUNT ==> level_of_rank(r) is Some && rank_of(level_of_rank(r)->0) == r,
        rank_of(a) == rank_of(b) ==> a == b,
{
}

/// Ranks keep the order of severity: a more severe level has a smaller rank.
pub proof fn lemma_rank_order()
    ensures
        rank_of(LogLevel::Error) < rank_of(LogLevel::Warn),
        rank_of(LogLevel::Warn) < rank_of(LogLevel::Info),
        rank_of(LogLevel::Info) < rank_of(LogLevel::Debug),
        rank_of(LogLevel::Debug) < rank_of(LogLevel::Trace),
{
}

} // verus!
