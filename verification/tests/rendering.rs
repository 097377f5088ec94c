use std::sync::{Arc, Mutex};

use log_once::__MessagesSet;

struct MemoryLogger {
    lines: Arc<Mutex<Vec<String>>>,
}

impl log::Log for MemoryLogger {
    fn enabled(&self, _: &log::Metadata) -> bool {
        true
    }
    fn log(&self, record: &log::Record) {
        let mut lines = self.lines.lock().expect("Mutex has been poisoned");
        lines.push(format!("{}", record.args()));
    }
    fn flush(&self) {}
}

#[test]
fn arguments_are_rendered_on_every_call() {
    let lines = Arc::new(Mutex::new(Vec::new()));
    let logger = MemoryLogger { lines: Arc::clone(&lines) };
    log::set_boxed_logger(Box::new(logger)).expect("Could not set the logger");
    log::set_max_level(log::LevelFilter::Trace);

    let counter = std::cell::Cell::new(0_i32);
    let render = || {
        counter.set(counter.get() + 1);
        // The rendered text does not depend on the counter, so every call
        // after the first is a duplicate and is suppressed.
        String::from("rendered")
    };

    let messages = __MessagesSet::new();
    for _ in 0..3 {
        let message = render();
        messages.debug_once("rendering", &message);
    }

    // Rendering ran once per call; the facade saw the record once.
    assert_eq!(counter.get(), 3);
    assert_eq!(
        lines.lock().expect("Mutex has been poisoned").clone(),
        vec![String::from("rendered")]
    );
}
