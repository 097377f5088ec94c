//! The identity under which log records are deduplicated.

use vstd::prelude::*;

use crate::level::Level;

verus! {

/// Spec-level identity of a log record: its target, its severity level, and
/// its fully rendered message text. Keeping the three components apart makes
/// the key collision-free: records differing in any component never collide.
pub type RecordId = (Seq<char>, Level, Seq<char>);

/// Identity of one log record, used as the key of the seen-set.
///
/// Two records are duplicates exactly when their targets, their levels and
/// their rendered message texts are equal, character for character; no
/// normalization is applied.
pub struct Fingerprint {
    target: String,
    level: Level,
    message: String,
}

impl View for Fingerprint {
    type V = RecordId;

    closed spec fn view(&self) -> RecordId {
        (self.target@, self.level, self.message@)
    }
}

impl Fingerprint {
    /// Builds the fingerprint of a record from its three components.
    pub fn new(target: &str, level: Level, message: &str) -> (fp: Fingerprint)
        ensures
            fp@ == (target@, level, message@),
    {
        Fingerprint {
            target: String::from_str(target),
            level,
            message: String::from_str(message),
        }
    }

    /// Whether `self` and `other` identify the same record.
    pub fn matches(&self, other: &Fingerprint) -> (r: bool)
        ensures
            r == (self@ == other@),
    {
        self.target == other.target && self.level == other.level && self.message == other.message
    }
}

} // verus!
