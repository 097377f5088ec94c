use std::sync::{Arc, Mutex};

use log_once::__MessagesSet;

struct MemoryLogger {
    lines: Arc<Mutex<Vec<String>>>,
}

impl log::Log for MemoryLogger {
    fn enabled(&self, _: &log::Metadata) -> bool {
        true
    }
    fn log(&self, record: &log::Record) {
        let mut lines = self.lines.lock().expect("Mutex has been poisoned");
        lines.push(format!("{}", record.args()));
    }
    fn flush(&self) {}
}

#[test]
fn filtered_records_are_still_recorded_as_seen() {
    let lines = Arc::new(Mutex::new(Vec::new()));
    let logger = MemoryLogger { lines: Arc::clone(&lines) };
    log::set_boxed_logger(Box::new(logger)).expect("Could not set the logger");

    let messages = __MessagesSet::new();

    // The facade filters warn records out; the fingerprint is recorded anyway.
    log::set_max_level(log::LevelFilter::Error);
    assert!(!messages.warn_once("filter", "transient glitch"));
    assert!(lines.lock().expect("Mutex has been poisoned").is_empty());

    // Raising the filter afterwards does not bring the record back: its
    // fingerprint was seen while the level was disabled.
    log::set_max_level(log::LevelFilter::Trace);
    assert!(!messages.warn_once("filter", "transient glitch"));
    assert!(lines.lock().expect("Mutex has been poisoned").is_empty());

    // A record the filter lets through still goes out exactly once.
    assert!(messages.error_once("filter", "hard failure"));
    assert!(!messages.error_once("filter", "hard failure"));
    assert_eq!(
        lines.lock().expect("Mutex has been poisoned").clone(),
        vec![String::from("hard failure")]
    );
}
