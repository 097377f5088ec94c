//! The closed set of severity levels shared with the logging facade.

use vstd::prelude::*;

verus! {

/// Severity of a log record, from most to least severe.
#[derive(Clone, Copy, Debug, PartialEq, Eq, Structural)]
pub enum Level {
    Error,
    Warn,
    Info,
    Debug,
    Trace,
}

impl Level {
    /// Rank of the level: `Error` is most severe and ranks lowest.
    pub open spec fn rank(self) -> int {
        match self {
            Level::Error => 0,
            Level::Warn => 1,
            Level::Info => 2,
            Level::Debug => 3,
            Level::Trace => 4,
        }
    }

    /// Whether `self` is at least as severe as `other`.
    pub fn at_least(&self, other: &Level) -> (r: bool)
        ensures
            r == (self.rank() <= other.rank()),
    {
        let s = self.rank_index();
        let o = other.rank_index();
        s <= o
    }

    /// Executable counterpart of [`Level::rank`].
    fn rank_index(&self) -> (r: u8)
        ensures
            r as int == self.rank(),
    {
        match self {
            Level::Error => 0,
            Level::Warn => 1,
            Level::Info => 2,
            Level::Debug => 3,
            Level::Trace => 4,
        }
    }
}

} // verus!
