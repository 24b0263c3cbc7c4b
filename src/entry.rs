//! One log event as it is handed to a sink.
use vstd::prelude::*;

use crate::level::LogLevel;

verus! {

/// A log event: when it happened, what it says, how severe it is and which
/// part of the program it comes from.
#[derive(Clone, Debug, PartialEq)]
pub struct LogEntry {
    /// Milliseconds since the relay's start reference.
    pub time_millis: i64,
    pub msg: String,
    pub log_level: LogLevel,
    pub lbl: String,
}

} // verus!
