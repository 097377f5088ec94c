//! The process-wide registry of fingerprints already forwarded.
//!
//! One registry is shared by every call site that wants deduplication
//! against the same history. The seen-set lives behind a verified
//! reader-writer lock; the lock's invariant keeps it well formed, and its
//! critical section covers exactly the check-and-insert step, so a slow sink
//! never holds up unrelated fingerprint checks. The lock cannot be poisoned:
//! it is released only by the verified code below, which does not panic.

use vstd::prelude::*;
use vstd::rwlock::{RwLock, RwLockPredicate, WriteHandle};

use crate::facade;
use crate::fingerprint::Fingerprint;
use crate::level::Level;
use crate::seen::SeenSet;

verus! {

/// The lock invariant of a registry: the guarded seen-set is well formed.
pub struct SeenSetInv;

impl RwLockPredicate<SeenSet> for SeenSetInv {
    open spec fn inv(self, v: SeenSet) -> bool {
        v.wf()
    }
}

/// A shared set of the fingerprints already forwarded to the facade.
///
/// Concurrent callers serialize on the lock for the duplicate check, so for
/// each fingerprint exactly one caller ever finds it new and forwards it.
///
/// A registry is an explicit value, so its scope is the caller's choice: one
/// registry handed to every call site deduplicates across the whole process,
/// while a registry of its own per call site tracks each site separately.
/// The registry grows for as long as it lives; nothing is ever evicted.
pub struct __MessagesSet {
    inner: RwLock<SeenSet, SeenSetInv>,
}

impl __MessagesSet {
    /// The lock guards exactly the well-formed seen-sets.
    pub closed spec fn wf(&self) -> bool {
        forall|v: SeenSet| #[trigger] self.inner.inv(v) == v.wf()
    }

    /// A fresh registry: its seen-set is empty, nothing has been forwarded.
    pub fn new() -> (s: __MessagesSet)
        ensures
            s.wf(),
    {
        __MessagesSet { inner: RwLock::new(SeenSet::new(), Ghost(SeenSetInv)) }
    }

    /// Acquires exclusive access to the seen-set. The caller gives the set
    /// back with [`WriteHandle::release_write`], which demands that it is
    /// still well formed.
    pub fn lock(&self) -> (ret: (SeenSet, WriteHandle<'_, SeenSet, SeenSetInv>))
        requires
            self.wf(),
        ensures
            ret.0.wf(),
            forall|v: SeenSet| #[trigger] ret.1.rwlock().inv(v) == v.wf(),
    {
        self.inner.acquire_write()
    }

    /// Logs a record once: forwards it to the facade exactly when no record
    /// with the same target, level and rendered message text has passed
    /// through this registry before, and the facade's level filter lets it
    /// through. The message is already rendered: whatever produced it ran
    /// before the duplicate check, whether or not the record is suppressed.
    /// Returns whether the record was handed to the facade.
    pub fn log_once(&self, level: Level, target: &str, message: &str) -> (forwarded: bool)
        requires
            self.wf(),
    {
        let fp = Fingerprint::new(target, level, message);
        let (mut seen, handle) = self.lock();
        let fresh = seen.check_and_insert(fp);
        handle.release_write(seen);
        if fresh && facade::enabled(&level) {
            facade::forward(&level, target, message);
            true
        } else {
            false
        }
    }

    /// Logs a record once at the error level; see [`Self::log_once`].
    pub fn error_once(&self, target: &str, message: &str) -> (forwarded: bool)
        requires
            self.wf(),
    {
        self.log_once(Level::Error, target, message)
    }

    /// Logs a record once at the warn level; see [`Self::log_once`].
    pub fn warn_once(&self, target: &str, message: &str) -> (forwarded: bool)
        requires
            self.wf(),
    {
        self.log_once(Level::Warn, target, message)
    }

    /// Logs a record once at the info level; see [`Self::log_once`].
    pub fn info_once(&self, target: &str, message: &str) -> (forwarded: bool)
        requires
            self.wf(),
    {
        self.log_once(Level::Info, target, message)
    }

    /// Logs a record once at the debug level; see [`Self::log_once`].
    pub fn debug_once(&self, target: &str, message: &str) -> (forwarded: bool)
        requires
            self.wf(),
    {
        self.log_once(Level::Debug, target, message)
    }

    /// Logs a record once at the trace level; see [`Self::log_once`].
    pub fn trace_once(&self, target: &str, message: &str) -> (forwarded: bool)
        requires
            self.wf(),
    {
        self.log_once(Level::Trace, target, message)
    }
}

} // verus!
