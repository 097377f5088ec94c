//! The set of fingerprints already forwarded, and its mathematical model.

use vstd::prelude::*;

use crate::fingerprint::{Fingerprint, RecordId};

verus! {

/// One deduplication step: a call with fingerprint `fp` leaves a seen-set
/// `seen` unchanged when `fp` was already recorded, and appends it otherwise.
pub open spec fn record_call(seen: Seq<RecordId>, fp: RecordId) -> Seq<RecordId> {
    if seen.contains(fp) {
        seen
    } else {
        seen.push(fp)
    }
}

/// The fingerprints a fresh emitter forwards for the call sequence `calls`:
/// each distinct fingerprint once, in the order of its first occurrence.
pub open spec fn first_occurrences(calls: Seq<RecordId>) -> Seq<RecordId>
    decreases calls.len(),
{
    if calls.len() == 0 {
        Seq::empty()
    } else {
        record_call(first_occurrences(calls.drop_last()), calls.last())
    }
}

/// How many entries of `s` equal `fp`.
pub open spec fn occurrence_count(s: Seq<RecordId>, fp: RecordId) -> nat
    decreases s.len(),
{
    if s.len() == 0 {
        0
    } else {
        occurrence_count(s.drop_last(), fp) + (if s.last() == fp {
            1nat
        } else {
            0nat
        })
    }
}

/// The fingerprints already forwarded, in the order they were first seen.
///
/// Its view is the sequence of recorded fingerprints; a well-formed set
/// holds each fingerprint at most once.
pub struct SeenSet {
    entries: Vec<Fingerprint>,
}

impl View for SeenSet {
    type V = Seq<RecordId>;

    closed spec fn view(&self) -> Seq<RecordId> {
        self.entries@.map_values(|fp: Fingerprint| fp@)
    }
}

impl SeenSet {
    /// No fingerprint is recorded twice.
    pub open spec fn wf(&self) -> bool {
        self@.no_duplicates()
    }

    /// An empty seen-set: nothing has been forwarded yet.
    pub fn new() -> (s: SeenSet)
        ensures
            s@ == Seq::<RecordId>::empty(),
            s.wf(),
    {
        let s = SeenSet { entries: Vec::new() };
        proof {
            assert(s@ =~= Seq::<RecordId>::empty());
        }
        s
    }

    /// Whether `fp` has been recorded.
    pub fn contains(&self, fp: &Fingerprint) -> (r: bool)
        ensures
            r == self@.contains(fp@),
    {
        let n = self.entries.len();
        for i in 0..n
            invariant
                n == self.entries.len(),
                forall|j: int| 0 <= j < i ==> self@[j] != fp@,
        {
            if self.entries[i].matches(fp) {
                assert(self@[i as int] == fp@);
                return true;
            }
            assert(self@[i as int] == self.entries@[i as int]@);
        }
        assert(!self@.contains(fp@)) by {
            assert(forall|j: int| 0 <= j < self@.len() ==> self@[j] != fp@);
        }
        false
    }

    /// Records `fp` if it is new. Returns whether it was new: `true` means
    /// the caller sees this fingerprint for the first time and owes the
    /// facade its one emission.
    pub fn check_and_insert(&mut self, fp: Fingerprint) -> (fresh: bool)
        requires
            old(self).wf(),
        ensures
            fresh == !old(self)@.contains(fp@),
            final(self)@ == record_call(old(self)@, fp@),
            final(self).wf(),
    {
        if self.contains(&fp) {
            false
        } else {
            let ghost prior = self@;
            let ghost id = fp@;
            self.entries.push(fp);
            proof {
                assert(self@ =~= prior.push(id));
                assert(self@.no_duplicates()) by {
                    assert(forall|j: int| 0 <= j < prior.len() ==> prior[j] != id);
                }
            }
            true
        }
    }
}

} // verus!
