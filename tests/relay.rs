use std::cell::RefCell;
use std::rc::Rc;

use dart_log_relay::relay::elapsed_millis;
use dart_log_relay::{log, LogEntry, LogLevel, LogSink, Relay};

#[derive(Clone, Default)]
struct Recorder {
    events: Rc<RefCell<Vec<LogEntry>>>,
}

impl Recorder {
    fn received(&self) -> Vec<LogEntry> {
        self.events.borrow().clone()
    }
}

impl LogSink for Recorder {
    fn send(&self, entry: LogEntry) {
        self.events.borrow_mut().push(entry);
    }
}

#[test]
fn emit_without_initialize_is_silent() {
    let bystander = Recorder::default();
    let relay: Relay<Recorder> = Relay::new();
    log(&relay, LogLevel::Info, "x", "y", 10);
    log(&relay, LogLevel::Error, "a", "b", 20);
    assert!(relay.event_for(LogLevel::Info, "x", "y", 10).is_none());
    assert!(relay.active_sink().is_none());
    assert_eq!(relay.start_millis(), None);
    assert!(bystander.received().is_empty());
}

#[test]
fn single_event_after_initialize() {
    let sink = Recorder::default();
    let mut relay = Relay::new();
    relay.initialize(sink.clone(), 1_000);
    log(&relay, LogLevel::Info, "net", "connected", 1_050);
    let got = sink.received();
    assert_eq!(got.len(), 1);
    assert_eq!(got[0].log_level, LogLevel::Info);
    assert_eq!(got[0].log_level.rank(), 2);
    assert_eq!(got[0].lbl, "net");
    assert_eq!(got[0].msg, "connected");
    assert_eq!(got[0].time_millis, 50);
}

#[test]
fn reinitialize_routes_to_latest_sink() {
    let a = Recorder::default();
    let b = Recorder::default();
    let mut relay = Relay::new();
    relay.initialize(a.clone(), 0);
    log(&relay, LogLevel::Warn, "lbl", "to a", 5);
    relay.initialize(b.clone(), 10);
    log(&relay, LogLevel::Debug, "lbl", "to b", 15);
    log(&relay, LogLevel::Trace, "lbl", "to b again", 20);
    assert_eq!(a.received().len(), 1);
    assert_eq!(a.received()[0].msg, "to a");
    let got_b = b.received();
    assert_eq!(got_b.len(), 2);
    assert_eq!(got_b[0].msg, "to b");
    assert_eq!(got_b[1].msg, "to b again");
}

#[test]
fn reinitialize_keeps_start_reference() {
    let a = Recorder::default();
    let b = Recorder::default();
    let mut relay = Relay::new();
    relay.initialize(a, 100);
    assert_eq!(relay.start_millis(), Some(100));
    relay.initialize(b.clone(), 500);
    assert_eq!(relay.start_millis(), Some(100));
    log(&relay, LogLevel::Info, "t", "m", 700);
    assert_eq!(b.received()[0].time_millis, 600);
}

#[test]
fn elapsed_times_do_not_decrease() {
    let sink = Recorder::default();
    let mut relay = Relay::new();
    relay.initialize(sink.clone(), 40);
    for now in [40u64, 41, 41, 90, 1_000, 1_000, 250_000] {
        log(&relay, LogLevel::Debug, "tick", "", now);
    }
    let times: Vec<i64> = sink.received().iter().map(|e| e.time_millis).collect();
    assert_eq!(times, vec![0, 1, 1, 50, 960, 960, 249_960]);
    assert!(times.windows(2).all(|w| w[0] <= w[1]));
}

#[test]
fn many_emits_all_delivered() {
    let sink = Recorder::default();
    let mut relay = Relay::new();
    relay.initialize(sink.clone(), 0);
    for i in 0..100u64 {
        log(&relay, LogLevel::Info, "count", "one", i);
    }
    assert_eq!(sink.received().len(), 100);
}

#[test]
fn empty_label_and_message_are_carried() {
    let sink = Recorder::default();
    let mut relay = Relay::new();
    relay.initialize(sink.clone(), 7);
    let e = relay.event_for(LogLevel::Error, "", "", 9).unwrap();
    assert_eq!(e.lbl, "");
    assert_eq!(e.msg, "");
    assert_eq!(e.time_millis, 2);
    assert_eq!(e.log_level, LogLevel::Error);
}

#[test]
fn elapsed_saturates() {
    assert_eq!(elapsed_millis(100, 40), 0);
    assert_eq!(elapsed_millis(100, 100), 0);
    assert_eq!(elapsed_millis(100, 175), 75);
    assert_eq!(elapsed_millis(0, u64::MAX), i64::MAX);
    assert_eq!(elapsed_millis(0, i64::MAX as u64), i64::MAX);
}

#[test]
fn clock_reading_before_start_stamps_zero() {
    let sink = Recorder::default();
    let mut relay = Relay::new();
    relay.initialize(sink.clone(), 300);
    log(&relay, LogLevel::Warn, "early", "m", 200);
    assert_eq!(sink.received()[0].time_millis, 0);
}
