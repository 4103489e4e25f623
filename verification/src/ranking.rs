//! Answers of the engine and the conditions under which one is passed on.

use vstd::prelude::*;

verus! {

/// Bit pattern of positive infinity: every pattern up to it is a
/// non-negative number, and among those the order of the patterns is the
/// order of the numbers.
pub const MAX_DISTANCE_BITS: u32 = 0x7f80_0000;

/// One neighbour found by a query: the document it belongs to and its cosine
/// distance to the query, as a single-precision bit pattern.
#[derive(Clone, Copy, Debug, PartialEq, Eq)]
pub struct Candidate {
    pub id: usize,
    pub distance: u32,
}

/// Why an answer of the engine is not passed on.
#[derive(Clone, Copy, Debug, PartialEq, Eq)]
pub enum EngineFault {
    /// More candidates than were asked for, or than the index holds.
    TooManyCandidates,
    /// A distance that is negative or not a number.
    InvalidDistance,
    /// A candidate that is closer than one listed before it.
    OutOfOrder,
}

/// The pattern stands for a non-negative distance.
pub open spec fn is_distance(bits: u32) -> bool {
    bits <= MAX_DISTANCE_BITS
}

/// Every candidate carries a non-negative distance.
pub open spec fn all_distances(s: Seq<Candidate>) -> bool {
    forall|i: int| 0 <= i < s.len() ==> is_distance(#[trigger] s[i].distance)
}

/// The candidates are listed by non-decreasing distance.
pub open spec fn is_ranked(s: Seq<Candidate>) -> bool {
    forall|i: int, j: int| 0 <= i <= j < s.len() ==> s[i].distance <= s[j].distance
}

/// The largest number of candidates a query for `k` neighbours may return
/// from an index of `size` elements.
pub open spec fn answer_limit(k: nat, size: nat) -> nat {
    if k <= size { k } else { size }
}

/// What becomes of the engine's answer `raw` to a query for `k` neighbours
/// on an index of `size` elements.
pub open spec fn accepted(raw: Seq<Candidate>, k: nat, size: nat) -> Result<Seq<Candidate>, EngineFault> {
    if raw.len() > answer_limit(k, size) {
        Err(EngineFault::TooManyCandidates)
    } else if !all_distances(raw) {
        Err(EngineFault::InvalidDistance)
    } else if !is_ranked(raw) {
        Err(EngineFault::OutOfOrder)
    } else {
        Ok(raw)
    }
}

/// The view of an answer, with the candidates as a sequence.
pub open spec fn answer_view(r: Result<Vec<Candidate>, EngineFault>) -> Result<Seq<Candidate>, EngineFault> {
    match r {
        Ok(v) => Ok(v@),
        Err(e) => Err(e),
    }
}

/// Each candidate is at least as far as the one before it.
pub open spec fn is_stepwise_ranked(s: Seq<Candidate>) -> bool {
    forall|i: int| 0 < i < s.len() ==> s[i - 1].distance <= #[trigger] s[i].distance
}

/// A sequence whose neighbours are in order is in order throughout.
pub proof fn lemma_stepwise_is_ranked(s: Seq<Candidate>)
    requires
        is_stepwise_ranked(s),
    ensures
        is_ranked(s),
{
    assert forall|i: int, j: int| 0 <= i <= j < s.len() implies s[i].distance <= s[j].distance by {
        lemma_stepwise_between(s, i, j);
    }
}

proof fn lemma_stepwise_between(s: Seq<Candidate>, i: int, j: int)
    requires
        is_stepwise_ranked(s),
        0 <= i <= j < s.len(),
    ensures
        s[i].distance <= s[j].distance,
    decreases j - i,
{
    if i < j {
        lemma_stepwise_between(s, i, j - 1);
        assert(s[j - 1].distance <= s[j].distance);
    }
}

/// Passes on the engine's answer to a query for `k` neighbours on an index
/// of `size` elements if it is one the engine may give: at most `k` and at
/// most `size` candidates, each with a non-negative distance, the nearest
/// first. Any other answer is reported as a fault of the engine, never cut
/// or reordered.
pub fn accept_candidates(raw: Vec<Candidate>, k: usize, size: usize) -> (r: Result<Vec<Candidate>, EngineFault>)
    ensures
        answer_view(r) == accepted(raw@, k as nat, size as nat),
{
    let limit: usize = if k <= size { k } else { size };
    if raw.len() > limit {
        return Err(EngineFault::TooManyCandidates);
    }
    let n: usize = raw.len();
    let mut i: usize = 0;
    while i < n
        invariant
            n == raw.len(),
            i <= n,
            raw@.len() <= answer_limit(k as nat, size as nat),
            forall|j: int| 0 <= j < i ==> is_distance(#[trigger] raw@[j].distance),
        decreases n - i,
    {
        if raw[i].distance > MAX_DISTANCE_BITS {
            assert(!is_distance(raw@[i as int].distance));
            return Err(EngineFault::InvalidDistance);
        }
        i = i + 1;
    }
    assert(all_distances(raw@));
    let mut j: usize = 1;
    while j < n
        invariant
            n == raw.len(),
            1 <= j,
            raw@.len() <= answer_limit(k as nat, size as nat),
            all_distances(raw@),
            forall|i: int| 0 < i < j && i < n ==> raw@[i - 1].distance <= #[trigger] raw@[i].distance,
        decreases n - j,
    {
        if raw[j - 1].distance > raw[j].distance {
            assert(!(raw@[j - 1].distance <= raw@[j as int].distance));
            return Err(EngineFault::OutOfOrder);
        }
        j = j + 1;
    }
    proof {
        lemma_stepwise_is_ranked(raw@);
    }
    Ok(raw)
}

/// An answer that is passed on is the engine's own, lists its candidates by
/// non-decreasing distance, and holds no more of them than were asked for
/// nor than the index holds.
pub proof fn lemma_accepted_answer_is_ranked_and_bounded(raw: Seq<Candidate>, k: nat, size: nat)
    ensures
        accepted(raw, k, size) matches Ok(s) ==> s == raw && is_ranked(s) && all_distances(s)
            && s.len() <= k && s.len() <= size,
{
}

/// An empty answer is always passed on: an index with too few elements, or
/// none, gives a shorter answer and no error.
pub proof fn lemma_empty_answer_is_accepted(k: nat, size: nat)
    ensures
        accepted(Seq::<Candidate>::empty(), k, size) == Ok::<Seq<Candidate>, EngineFault>(Seq::<Candidate>::empty()),
{
}

/// From an empty index nothing but the empty answer is passed on.
pub proof fn lemma_empty_index_answers_nothing(raw: Seq<Candidate>, k: nat)
    ensures
        accepted(raw, k, 0) matches Ok(s) ==> s.len() == 0,
{
}

} // verus!
