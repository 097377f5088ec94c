//! Deduplicating layer over a logging facade.
//!
//! Every record is identified by a fingerprint: the triple of its target,
//! its severity level, and its fully rendered message text. A registry of
//! fingerprints already forwarded is kept behind a verified reader-writer
//! lock; a record whose fingerprint has been seen before is suppressed,
//! every other record is forwarded to the facade exactly once.

pub mod facade;
pub mod fingerprint;
pub mod laws;
pub mod level;
pub mod registry;
pub mod seen;

pub use facade::log_always;
pub use fingerprint::Fingerprint;
pub use level::Level;
pub use registry::__MessagesSet;
pub use seen::SeenSet;
