//! The relay: at most one active sink and a write-once start reference.
use vstd::prelude::*;

use crate::entry::LogEntry;
use crate::level::LogLevel;
use crate::start::{new_start_cell, start_cell_get, start_cell_set, start_cell_value};
use once_cell::sync::OnceCell;

verus! {

/// Receives the events that a relay forwards.
pub trait LogSink {
    /// Whether `entry` was handed to this sink. A sink states this in its
    /// own terms; one that keeps the default promises nothing about what it
    /// was handed. For a sink of unknown type, as in `log`, Verus knows only
    /// what `send` ensures.
    open spec fn received(&self, entry: LogEntry) -> bool {
        true
    }

    /// Takes one event.
    fn send(&self, entry: LogEntry)
        ensures
            self.received(entry),
    ;
}

/// Milliseconds from `start` to `now` as carried in an event: zero when
/// `now` is not after `start`, and at most `i64::MAX`.
pub open spec fn elapsed_since(start: u64, now: u64) -> i64 {
    if now <= start {
        0
    } else if now - start > i64::MAX {
        i64::MAX
    } else {
        (now - start) as i64
    }
}

/// What a relay holds: the active sink, if any, and the clock reading (in
/// milliseconds) taken when the first sink was registered.
pub struct RelayState<S> {
    pub sink: Option<S>,
    pub start: Option<u64>,
}

impl<S> RelayState<S> {
    /// The state of a relay to which no sink was ever handed.
    pub open spec fn fresh() -> RelayState<S> {
        RelayState { sink: None, start: None }
    }

    /// A start reference is present wherever a sink is.
    pub open spec fn well_formed(self) -> bool {
        self.sink is Some ==> self.start is Some
    }

    /// The state after registering `sink` at clock reading `now`: the sink
    /// replaces any earlier one, the start reference is set only if unset.
    pub open spec fn initialized(self, sink: S, now: u64) -> RelayState<S> {
        RelayState {
            sink: Some(sink),
            start: match self.start {
                Some(s) => Some(s),
                None => Some(now),
            },
        }
    }

    /// The elapsed time stamped on an event emitted at clock reading `now`.
    pub open spec fn elapsed_at(self, now: u64) -> i64 {
        elapsed_since(self.start.unwrap(), now)
    }

    /// Whether `e` is the event that an emission of (`level`, `label`,
    /// `msg`) at clock reading `now` produces in this state.
    pub open spec fn is_event(self, e: LogEntry, level: LogLevel, label: Seq<char>, msg: Seq<char>, now: u64) -> bool {
        &&& e.log_level == level
        &&& e.lbl@ == label
        &&& e.msg@ == msg
        &&& e.time_millis == self.elapsed_at(now)
    }
}

/// A relay that was never given a sink holds no sink and is well formed.
/// Emitting takes the relay by shared reference and so leaves this state as
/// it is, however often it is done.
pub proof fn lemma_silent_before_initialize<S>(r: RelayState<S>)
    requires
        r == RelayState::<S>::fresh(),
    ensures
        r.sink is None,
        r.well_formed(),
{
}

/// After registering `a` and then `b`, the active sink is `b` and a start
/// reference is set: every later emission produces an event, and it goes to
/// `b` alone.
pub proof fn lemma_latest_sink_receives<S>(r: RelayState<S>, a: S, b: S, t1: u64, t2: u64)
    ensures
        r.initialized(a, t1).initialized(b, t2).sink == Some(b),
        r.initialized(a, t1).initialized(b, t2).start is Some,
        r.initialized(a, t1).initialized(b, t2).well_formed(),
{
}

/// A second registration keeps the start reference of the first, so events
/// stamped after it carry the same elapsed times as they would have without
/// it; on a fresh relay that reference is the first registration's reading.
pub proof fn lemma_start_kept<S>(r: RelayState<S>, a: S, b: S, t1: u64, t2: u64, now: u64)
    ensures
        r.initialized(a, t1).initialized(b, t2).start == r.initialized(a, t1).start,
        r.initialized(a, t1).initialized(b, t2).elapsed_at(now) == r.initialized(a, t1).elapsed_at(now),
        r == RelayState::<S>::fresh() ==> r.initialized(a, t1).start == Some(t1),
        r == RelayState::<S>::fresh() ==> r.initialized(a, t1).initialized(b, t2).elapsed_at(now) == elapsed_since(t1, now),
{
}

/// For a fixed start reference, events emitted at later clock readings carry
/// elapsed times that are never smaller, and never negative.
pub proof fn lemma_elapsed_monotone<S>(r: RelayState<S>, t1: u64, t2: u64)
    requires
        r.start is Some,
        t1 <= t2,
    ensures
        0 <= r.elapsed_at(t1) <= r.elapsed_at(t2),
{
}

/// The registry that forwards events to its active sink.
pub struct Relay<S> {
    sink: Option<S>,
    start: OnceCell<u64>,
}

impl<S> View for Relay<S> {
    type V = RelayState<S>;

    closed spec fn view(&self) -> RelayState<S> {
        RelayState { sink: self.sink, start: start_cell_value(self.start) }
    }
}

impl<S> Relay<S> {
    /// A relay with no sink and no start reference.
    pub fn new() -> (r: Relay<S>)
        ensures
            r@ == RelayState::<S>::fresh(),
    {
        Relay { sink: None, start: new_start_cell() }
    }

    /// Makes `sink` the active sink, dropping the previous one; the start
    /// reference becomes `now_millis` unless it was already set.
    pub fn initialize(&mut self, sink: S, now_millis: u64)
        ensures
            final(self)@ == old(self)@.initialized(sink, now_millis),
    {
        let _ = start_cell_set(&mut self.start, now_millis);
        self.sink = Some(sink);
    }

    /// The active sink, if one was registered.
    pub fn active_sink(&self) -> (r: Option<&S>)
        ensures
            r is Some <==> self@.sink is Some,
            r is Some ==> *r->0 == self@.sink->0,
    {
        self.sink.as_ref()
    }

    /// The start reference, if a sink was ever registered.
    pub fn start_millis(&self) -> (r: Option<u64>)
        ensures
            r == self@.start,
    {
        start_cell_get(&self.start)
    }

    /// The event that an emission at clock reading `now_millis` hands to the
    /// active sink, or `None` when there is no sink to receive it. (A relay
    /// that holds a sink always holds a start reference: `new` and
    /// `initialize` keep its state well formed.)
    pub fn event_for(&self, level: LogLevel, label: &str, msg: &str, now_millis: u64) -> (r: Option<LogEntry>)
        ensures
            r is Some <==> self@.sink is Some && self@.start is Some,
            r is Some ==> self@.is_event(r->0, level, label@, msg@, now_millis),
    {
        match start_cell_get(&self.start) {
            Some(start) if self.sink.is_some() => Some(LogEntry {
                time_millis: elapsed_millis(start, now_millis),
                msg: msg.to_string(),
                log_level: level,
                lbl: label.to_string(),
            }),
            _ => None,
        }
    }
}

/// Milliseconds from `start` to `now`, saturating at zero and at `i64::MAX`.
pub fn elapsed_millis(start: u64, now: u64) -> (r: i64)
    ensures
        r == elapsed_since(start, now),
{
    if now <= start {
        0
    } else if now - start > i64::MAX as u64 {
        i64::MAX
    } else {
        (now - start) as i64
    }
}

/// Emits an event of `level`, `label` and `msg` at clock reading
/// `now_millis`: the active sink receives the event that
/// `Relay::event_for` describes; with no active sink nothing happens.
pub fn log<S: LogSink>(relay: &Relay<S>, level: LogLevel, label: &str, msg: &str, now_millis: u64)
    ensures
        relay@.sink is Some && relay@.start is Some ==> exists|e: LogEntry|
            relay@.is_event(e, level, label@, msg@, now_millis) && #[trigger] relay@.sink->0.received(e),
{
    if let Some(sink) = relay.active_sink() {
        if let Some(entry) = relay.event_for(level, label, msg, now_millis) {
            sink.send(entry);
        }
    }
}

} // verus!
