use std::sync::Arc;
use std::sync::Mutex;

use avlog::adapter::emission_filter;
use avlog::adapter::trim_message;
use avlog::bridge::CallbackBridge;
use avlog::callback::LogCallback;
use avlog::level::FilterLevel;
use avlog::Level;

struct Counter {
    count: Arc<Mutex<usize>>,
}

impl Counter {
    fn new() -> (Counter, Arc<Mutex<usize>>) {
        let count = Arc::new(Mutex::new(0));
        (Counter { count: count.clone() }, count)
    }
}

impl LogCallback<(), ()> for Counter {
    fn log(&self, _context: (), _level: Level, _fmt: &str, _args: ()) {
        *self.count.lock().unwrap() += 1;
    }
}

#[test]
fn bridge_starts_with_native_default() {
    let bridge: CallbackBridge<Counter> = CallbackBridge::new();
    assert!(!bridge.dispatch((), 32, "nobody", ()));
}

#[test]
fn bridge_register_dispatch_clear() {
    let bridge = CallbackBridge::new();
    let (counter, count) = Counter::new();
    let _owner = bridge.register(counter);
    assert!(bridge.dispatch((), 16, "one", ()));
    assert!(bridge.dispatch((), 24, "two", ()));
    assert_eq!(*count.lock().unwrap(), 2);

    bridge.clear();
    assert!(!bridge.dispatch((), 16, "three", ()));
    assert_eq!(*count.lock().unwrap(), 2);
}

#[test]
fn bridge_replacement_is_total() {
    let bridge = CallbackBridge::new();
    let (first, count_first) = Counter::new();
    let (second, count_second) = Counter::new();
    let _a = bridge.register(first);
    let _b = bridge.register(second);
    assert!(bridge.dispatch((), 32, "event", ()));
    assert_eq!(*count_first.lock().unwrap(), 0);
    assert_eq!(*count_second.lock().unwrap(), 1);
}

#[test]
fn bridge_clear_is_idempotent() {
    let bridge: CallbackBridge<Counter> = CallbackBridge::new();
    bridge.clear();
    bridge.clear();
    assert!(!bridge.dispatch((), 32, "still nobody", ()));
}

#[test]
fn adapter_emits_at_the_coarsened_rank() {
    assert_eq!(emission_filter(16, None), Some(FilterLevel::Error));
    assert_eq!(emission_filter(24, None), Some(FilterLevel::Warn));
    assert_eq!(emission_filter(32, None), Some(FilterLevel::Info));
    assert_eq!(emission_filter(40, None), Some(FilterLevel::Debug));
    assert_eq!(emission_filter(56, None), Some(FilterLevel::Trace));
}

#[test]
fn adapter_drops_quiet_events() {
    assert_eq!(emission_filter(-8, None), None);
    assert_eq!(emission_filter(-8, Some(Level::Trace)), None);
}

#[test]
fn adapter_respects_the_native_threshold() {
    // An informational event is less urgent than a warning threshold.
    assert_eq!(emission_filter(32, Some(Level::Warning)), None);
    // An event at the threshold itself is kept.
    assert_eq!(emission_filter(24, Some(Level::Warning)), Some(FilterLevel::Warn));
    // A more urgent event is kept.
    assert_eq!(emission_filter(8, Some(Level::Warning)), Some(FilterLevel::Error));
    // Without a readable threshold nothing is dropped.
    assert_eq!(emission_filter(56, None), Some(FilterLevel::Trace));
}

#[test]
fn trim_removes_trailing_whitespace_only() {
    assert_eq!(trim_message("  disk full \n"), "  disk full");
    assert_eq!(trim_message("\t\r\nmessage"), "\t\r\nmessage");
    assert_eq!(trim_message(" a"), " a");
    assert_eq!(trim_message("message\u{b}\u{c}"), "message");
    assert_eq!(trim_message("message\u{a0}\u{2028}"), "message");
    assert_eq!(trim_message("already clean"), "already clean");
    assert_eq!(trim_message("inner  spaces kept\n"), "inner  spaces kept");
}

#[test]
fn trim_of_blank_input_is_empty() {
    assert_eq!(trim_message(""), "");
    assert_eq!(trim_message(" \t\r\n"), "");
}

#[test]
fn adapter_treats_undefined_levels_as_informational() {
    assert_eq!(emission_filter(999, None), Some(FilterLevel::Info));
    assert_eq!(emission_filter(i32::MIN, None), Some(FilterLevel::Info));
    assert_eq!(emission_filter(999, Some(Level::Error)), None);
}
