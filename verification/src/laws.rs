//! What the deduplicating emitter guarantees, proved over its model.
//!
//! [`first_occurrences`] is what an emitter started on an empty seen-set
//! forwards for a given call sequence: [`SeenSet::check_and_insert`] pins
//! each step to [`record_call`], of which [`first_occurrences`] is the fold.

use vstd::prelude::*;

use crate::fingerprint::RecordId;
use crate::level::Level;
use crate::seen::{first_occurrences, occurrence_count, record_call};

verus! {

/// A fingerprint occurs in a call sequence exactly when it occurs in the
/// sequence shortened by its last call or is that last call.
proof fn lemma_contains_split(s: Seq<RecordId>, fp: RecordId)
    requires
        s.len() > 0,
    ensures
        s.contains(fp) <==> (s.drop_last().contains(fp) || s.last() == fp),
{
    if s.drop_last().contains(fp) {
        let i = choose|i: int| 0 <= i < s.drop_last().len() && s.drop_last()[i] == fp;
        assert(s[i] == fp);
    }
    if s.contains(fp) {
        let i = choose|i: int| 0 <= i < s.len() && s[i] == fp;
        if i < s.len() - 1 {
            assert(s.drop_last()[i] == fp);
        }
    }
}

/// Appending one entry raises its own count by one and no other count.
proof fn lemma_count_push(s: Seq<RecordId>, x: RecordId, fp: RecordId)
    ensures
        occurrence_count(s.push(x), fp) == occurrence_count(s, fp) + (if x == fp {
            1nat
        } else {
            0nat
        }),
{
    assert(s.push(x).drop_last() =~= s);
    assert(s.push(x).last() == x);
}

/// A fingerprint is absent from a sequence exactly when its count is zero.
proof fn lemma_count_zero_iff_absent(s: Seq<RecordId>, fp: RecordId)
    ensures
        (occurrence_count(s, fp) == 0) <==> !s.contains(fp),
    decreases s.len(),
{
    if s.len() > 0 {
        lemma_count_zero_iff_absent(s.drop_last(), fp);
        lemma_contains_split(s, fp);
    }
}

/// One more call extends the emitter's output by exactly one
/// [`record_call`] step — the step [`crate::seen::SeenSet::check_and_insert`]
/// performs. Starting from the empty seen-set, the output for any call
/// sequence is therefore [`first_occurrences`] of it.
pub proof fn lemma_first_occurrences_step(calls: Seq<RecordId>, fp: RecordId)
    ensures
        first_occurrences(calls.push(fp)) == record_call(first_occurrences(calls), fp),
{
    assert(calls.push(fp).drop_last() =~= calls);
    assert(calls.push(fp).last() == fp);
}

/// The emitter forwards a fingerprint exactly when some call issued it.
pub proof fn lemma_forwarded_iff_issued(calls: Seq<RecordId>, fp: RecordId)
    ensures
        first_occurrences(calls).contains(fp) <==> calls.contains(fp),
    decreases calls.len(),
{
    if calls.len() > 0 {
        let pre = calls.drop_last();
        let last = calls.last();
        lemma_forwarded_iff_issued(pre, fp);
        lemma_forwarded_iff_issued(pre, last);
        lemma_contains_split(calls, fp);
        if !first_occurrences(pre).contains(last) {
            lemma_contains_split(first_occurrences(pre).push(last), fp);
            assert(first_occurrences(pre).push(last).drop_last() =~= first_occurrences(pre));
        }
    }
}

/// At most once per fingerprint — and never zero times: however often a
/// fingerprint is issued, the emitter forwards it exactly once; one never
/// issued is never forwarded.
pub proof fn lemma_forwarded_exactly_once(calls: Seq<RecordId>, fp: RecordId)
    ensures
        calls.contains(fp) ==> occurrence_count(first_occurrences(calls), fp) == 1,
        !calls.contains(fp) ==> occurrence_count(first_occurrences(calls), fp) == 0,
    decreases calls.len(),
{
    lemma_count_zero_iff_absent(first_occurrences(calls), fp);
    if calls.len() > 0 {
        let pre = calls.drop_last();
        let last = calls.last();
        lemma_forwarded_exactly_once(pre, fp);
        lemma_forwarded_iff_issued(pre, last);
        lemma_contains_split(calls, fp);
        if !first_occurrences(pre).contains(last) {
            lemma_count_push(first_occurrences(pre), last, fp);
        } else {
            if fp == last {
                lemma_forwarded_iff_issued(pre, fp);
            }
        }
    }
}

/// The emitter never forwards the same fingerprint twice: its output has no
/// duplicates.
pub proof fn lemma_forwarded_no_duplicates(calls: Seq<RecordId>)
    ensures
        first_occurrences(calls).no_duplicates(),
    decreases calls.len(),
{
    if calls.len() > 0 {
        let pre = calls.drop_last();
        let last = calls.last();
        lemma_forwarded_no_duplicates(pre);
        if !first_occurrences(pre).contains(last) {
            let out = first_occurrences(pre).push(last);
            assert forall|i: int, j: int|
                0 <= i < out.len() && 0 <= j < out.len() && i != j implies out[i] != out[j] by {
                if i < out.len() - 1 && j < out.len() - 1 {
                    assert(first_occurrences(pre)[i] != first_occurrences(pre)[j]);
                }
            }
        }
    }
}

/// Distinctness preserved: two calls with the same target and level but
/// different rendered messages are both forwarded, each its own fingerprint.
pub proof fn lemma_distinct_messages_both_forwarded(
    calls: Seq<RecordId>,
    target: Seq<char>,
    level: Level,
    m1: Seq<char>,
    m2: Seq<char>,
)
    requires
        m1 != m2,
        calls.contains((target, level, m1)),
        calls.contains((target, level, m2)),
    ensures
        first_occurrences(calls).contains((target, level, m1)),
        first_occurrences(calls).contains((target, level, m2)),
{
    lemma_forwarded_iff_issued(calls, (target, level, m1));
    lemma_forwarded_iff_issued(calls, (target, level, m2));
}

/// Interleaving alternation: issuing fingerprint `a`, then `b`, then `a`
/// again, then `b` again forwards `a` once and `b` once, in the order of
/// first occurrence.
pub proof fn lemma_alternation(a: RecordId, b: RecordId)
    requires
        a != b,
    ensures
        first_occurrences(seq![a, b, a, b]) == seq![a, b],
{
    reveal_with_fuel(first_occurrences, 5);
    let s4 = seq![a, b, a, b];
    let s3 = seq![a, b, a];
    let s2 = seq![a, b];
    let s1 = seq![a];
    let s0 = Seq::<RecordId>::empty();
    assert(s4.drop_last() =~= s3);
    assert(s3.drop_last() =~= s2);
    assert(s2.drop_last() =~= s1);
    assert(s1.drop_last() =~= s0);
    assert(!s0.contains(a));
    assert(first_occurrences(s1) =~= s1);
    assert(!s1.contains(b)) by {
        assert(forall|i: int| 0 <= i < s1.len() ==> s1[i] == a);
    }
    assert(first_occurrences(s2) =~= s2) by {
        assert(s1.push(b) =~= s2);
    }
    assert(s2.contains(a)) by {
        assert(s2[0] == a);
    }
    assert(first_occurrences(s3) == first_occurrences(s2));
    assert(s2.contains(b)) by {
        assert(s2[1] == b);
    }
    assert(first_occurrences(s4) == first_occurrences(s2));
}

} // verus!
