use std::sync::{Arc, Mutex};

use log_once::__MessagesSet;

struct MemoryLogger {
    lines: Arc<Mutex<Vec<String>>>,
}

impl log::Log for MemoryLogger {
    fn enabled(&self, _: &log::Metadata) -> bool {
        true
    }
    fn log(&self, record: &log::Record) {
        let mut lines = self.lines.lock().expect("Mutex has been poisoned");
        lines.push(format!("{}", record.args()));
    }
    fn flush(&self) {}
}

#[test]
fn at_most_once_per_fingerprint() {
    let lines = Arc::new(Mutex::new(Vec::new()));
    let logger = MemoryLogger { lines: Arc::clone(&lines) };
    log::set_boxed_logger(Box::new(logger)).expect("Could not set the logger");
    log::set_max_level(log::LevelFilter::Trace);

    let messages = __MessagesSet::new();
    let mut forwarded = 0_i32;
    for _ in 0..7 {
        if messages.warn_once("yak_events", "no razor found") {
            forwarded += 1;
        }
    }
    assert_eq!(forwarded, 1);
    assert_eq!(
        lines.lock().expect("Mutex has been poisoned").clone(),
        vec![String::from("no razor found")]
    );
}
