//! The narrow interface to the logging facade.
//!
//! The facade renders nothing and stores nothing here: it receives fully
//! rendered records and dispatches them to whatever sink the process has
//! installed. Which records its level filter lets through, and what the sink
//! does with them, is global mutable state of the facade; nothing is promised
//! of either.

use vstd::prelude::*;

use crate::level::Level;

verus! {

/// The facade's records carry their message as a `core::fmt::Arguments`
/// value, opaque here; it is built by std's `write!` and only carried
/// through.
#[verifier::external_type_specification]
#[verifier::external_body]
pub struct ExArguments<'a>(core::fmt::Arguments<'a>);

/// Destination of one record: the facade's installed sink, with the record's
/// severity and target fixed. Its `write_fmt` method is what std's `write!`
/// hands the rendered message to.
struct RecordSink<'a> {
    level: Level,
    target: &'a str,
}

impl<'a> RecordSink<'a> {
    /// Relies on `log::logger`, `log::Record::builder` and `log::Log::log`:
    /// builds the record carrying `args` under this sink's severity and
    /// target and hands it to the installed sink. The sink's behaviour is
    /// the facade's own; nothing is promised of the call.
    #[verifier::external_body]
    fn write_fmt(&mut self, args: core::fmt::Arguments<'_>) {
        let lvl = match self.level {
            Level::Error => log::Level::Error,
            Level::Warn => log::Level::Warn,
            Level::Info => log::Level::Info,
            Level::Debug => log::Level::Debug,
            Level::Trace => log::Level::Trace,
        };
        let record = log::Record::builder().level(lvl).target(self.target).args(args).build();
        log::logger().log(&record);
    }
}

/// Relies on std's `write!` to build the `core::fmt::Arguments` value that
/// carries `message`, the one form the facade accepts; the record goes out
/// through [`RecordSink::write_fmt`]. Nothing is promised of the call.
#[verifier::external_body]
pub(crate) fn forward(level: &Level, target: &str, message: &str) {
    let mut sink = RecordSink { level: *level, target };
    write!(sink, "{}", message);
}

/// Relies on `log::max_level` and `log::STATIC_MAX_LEVEL`: whether the
/// facade's level filter currently lets records of severity `level` through,
/// the same gate the facade's own logging macros apply before dispatching.
/// The filter can be changed by any thread at any time, so nothing is
/// promised of the result.
#[verifier::external_body]
pub(crate) fn enabled(level: &Level) -> bool {
    let lvl = match level {
        Level::Error => log::Level::Error,
        Level::Warn => log::Level::Warn,
        Level::Info => log::Level::Info,
        Level::Debug => log::Level::Debug,
        Level::Trace => log::Level::Trace,
    };
    lvl <= log::STATIC_MAX_LEVEL && lvl <= log::max_level()
}

/// Hands one record to the facade with no deduplication: the direct path.
/// Only the facade's own level filter stands between the caller and the
/// sink. Returns whether the record was handed over.
pub fn log_always(level: Level, target: &str, message: &str) -> (forwarded: bool) {
    if enabled(&level) {
        forward(&level, target, message);
        true
    } else {
        false
    }
}

} // verus!
