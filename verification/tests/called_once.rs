use log_once::__MessagesSet;

struct SimpleLogger;

impl log::Log for SimpleLogger {
    fn enabled(&self, _: &log::Metadata) -> bool {
        true
    }
    fn log(&self, record: &log::Record) {
        println!("{}", record.args());
    }
    fn flush(&self) {}
}

#[test]
fn called_once() {
    log::set_boxed_logger(Box::new(SimpleLogger)).expect("Could not set the logger");
    log::set_max_level(log::LevelFilter::Trace);

    let counter = std::cell::Cell::new(0_i32);
    let function = || {
        counter.set(counter.get() + 1);
        counter.get()
    };

    let messages = __MessagesSet::new();
    let message = format!("Counter is: {}", function());
    messages.info_once("called_once", &message);
    assert_eq!(counter.get(), 1);
}
