//! The order that the progress events of one operation keep.
//!
//! Exports and imports report different stages, but both promise the same
//! things of the events of one run: the stages only move forward, the
//! percentage only grows (an interruption may fall back), and the event that
//! closes the run is the last one. This module states those promises once, over
//! the little that they read of an event.

use vstd::prelude::*;

verus! {

/// What the order of a run reads of one progress event.
pub struct Mark {
    /// The position of the event's stage in the run's order of stages.
    pub rank: nat,
    /// The percentage that the event reports, in hundredths.
    pub percent: nat,
    /// Whether the event closes the run (complete, cancelled or failed).
    pub closing: bool,
    /// Whether the event reports a cancellation or a failure.
    pub interrupted: bool,
}

/// The events of a run are orderly when no stage is left for an earlier one,
/// no event reports less than an earlier event did unless it reports an
/// interruption, no event reports more than all of the work, and nothing
/// follows the event that closes the run.
pub open spec fn orderly(t: Seq<Mark>) -> bool {
    &&& forall|i: int, j: int| 0 <= i < j < t.len() ==> t[i].rank <= t[j].rank
    &&& forall|i: int, j: int|
        0 <= i < j < t.len() && !t[j].interrupted ==> t[i].percent <= t[j].percent
    &&& forall|i: int| 0 <= i < t.len() ==> (#[trigger] t[i]).percent <= 10_000
    &&& forall|i: int| 0 <= i < t.len() && (#[trigger] t[i]).closing ==> i == t.len() - 1
    &&& forall|i: int| 0 <= i < t.len() && (#[trigger] t[i]).interrupted ==> t[i].closing
}

/// An orderly run that is still open and has come no further than `rank` and
/// `percent`.
pub open spec fn reaches(t: Seq<Mark>, rank: nat, percent: nat) -> bool {
    &&& orderly(t)
    &&& forall|i: int|
        0 <= i < t.len() ==> !(#[trigger] t[i]).closing && t[i].rank <= rank && t[i].percent
            <= percent
}

/// An orderly run that its last event has closed.
pub open spec fn closed(t: Seq<Mark>) -> bool {
    &&& orderly(t)
    &&& t.len() > 0
    &&& t.last().closing
}

/// Events that may follow a run which has come as far as `rank` and `percent`.
pub open spec fn continues(step: Seq<Mark>, rank: nat, percent: nat) -> bool {
    &&& orderly(step)
    &&& forall|i: int|
        0 <= i < step.len() ==> (#[trigger] step[i]).rank >= rank && (!step[i].interrupted
            ==> step[i].percent >= percent)
}

/// How many events of a run close it.
pub open spec fn closing_count(t: Seq<Mark>) -> nat
    decreases t.len(),
{
    if t.len() == 0 {
        0
    } else {
        closing_count(t.drop_last()) + if t.last().closing {
            1nat
        } else {
            0nat
        }
    }
}

/// Appending events that continue an open run keeps the run orderly.
pub proof fn lemma_append_orderly(t: Seq<Mark>, step: Seq<Mark>, rank: nat, percent: nat)
    requires
        reaches(t, rank, percent),
        continues(step, rank, percent),
    ensures
        orderly(t + step),
{
    let u = t + step;
    assert forall|i: int, j: int| 0 <= i < j < u.len() implies u[i].rank <= u[j].rank by {
        if j >= t.len() {
            assert(u[j] == step[j - t.len()]);
            if i >= t.len() {
                assert(u[i] == step[i - t.len()]);
            } else {
                assert(u[i] == t[i]);
            }
        } else {
            assert(u[i] == t[i] && u[j] == t[j]);
        }
    }
    assert forall|i: int, j: int| 0 <= i < j < u.len() && !u[j].interrupted implies u[i].percent
        <= u[j].percent by {
        if j >= t.len() {
            assert(u[j] == step[j - t.len()]);
            if i >= t.len() {
                assert(u[i] == step[i - t.len()]);
            } else {
                assert(u[i] == t[i]);
            }
        } else {
            assert(u[i] == t[i] && u[j] == t[j]);
        }
    }
    assert forall|i: int| 0 <= i < u.len() implies (#[trigger] u[i]).percent <= 10_000 by {
        if i >= t.len() {
            assert(u[i] == step[i - t.len()]);
        } else {
            assert(u[i] == t[i]);
        }
    }
    assert forall|i: int| 0 <= i < u.len() && (#[trigger] u[i]).closing implies i == u.len() - 1 by {
        if i >= t.len() {
            assert(u[i] == step[i - t.len()]);
        } else {
            assert(u[i] == t[i]);
        }
    }
    assert forall|i: int| 0 <= i < u.len() && (#[trigger] u[i]).interrupted implies u[i].closing by {
        if i >= t.len() {
            assert(u[i] == step[i - t.len()]);
        } else {
            assert(u[i] == t[i]);
        }
    }
}

/// Appending events that continue an open run, none of which closes it, leaves
/// the run open at the level that bounds them.
pub proof fn lemma_append_open(
    t: Seq<Mark>,
    step: Seq<Mark>,
    rank: nat,
    percent: nat,
    next_rank: nat,
    next_percent: nat,
)
    requires
        reaches(t, rank, percent),
        continues(step, rank, percent),
        rank <= next_rank,
        percent <= next_percent,
        forall|i: int|
            0 <= i < step.len() ==> !(#[trigger] step[i]).closing && step[i].rank <= next_rank
                && step[i].percent <= next_percent,
    ensures
        reaches(t + step, next_rank, next_percent),
{
    lemma_append_orderly(t, step, rank, percent);
    let u = t + step;
    assert forall|i: int| 0 <= i < u.len() implies !(#[trigger] u[i]).closing && u[i].rank
        <= next_rank && u[i].percent <= next_percent by {
        if i >= t.len() {
            assert(u[i] == step[i - t.len()]);
        } else {
            assert(u[i] == t[i]);
        }
    }
}

/// Appending events that continue an open run and end in a closing event
/// closes the run.
pub proof fn lemma_append_closing(t: Seq<Mark>, step: Seq<Mark>, rank: nat, percent: nat)
    requires
        reaches(t, rank, percent),
        continues(step, rank, percent),
        step.len() > 0,
        step.last().closing,
    ensures
        closed(t + step),
{
    lemma_append_orderly(t, step, rank, percent);
    assert((t + step).last() == step.last());
}

/// A run without a closing event counts none.
pub proof fn lemma_none_closing(t: Seq<Mark>)
    requires
        forall|i: int| 0 <= i < t.len() ==> !(#[trigger] t[i]).closing,
    ensures
        closing_count(t) == 0,
    decreases t.len(),
{
    if t.len() > 0 {
        let head = t.drop_last();
        assert forall|i: int| 0 <= i < head.len() implies !(#[trigger] head[i]).closing by {
            assert(head[i] == t[i]);
        }
        lemma_none_closing(head);
        assert(!t[t.len() - 1].closing);
    }
}

/// What is left of an orderly run without its last event is orderly.
pub proof fn lemma_orderly_prefix(t: Seq<Mark>)
    requires
        orderly(t),
        t.len() > 0,
    ensures
        orderly(t.drop_last()),
        forall|i: int| 0 <= i < t.len() - 1 ==> !(#[trigger] t.drop_last()[i]).closing,
{
    let head = t.drop_last();
    assert forall|i: int| 0 <= i < head.len() implies !(#[trigger] head[i]).closing by {
        assert(head[i] == t[i]);
        if t[i].closing {
            assert(i == t.len() - 1);
        }
    }
    assert forall|i: int, j: int| 0 <= i < j < head.len() implies head[i].rank <= head[j].rank by {
        assert(head[i] == t[i] && head[j] == t[j]);
    }
    assert forall|i: int, j: int|
        0 <= i < j < head.len() && !head[j].interrupted implies head[i].percent
        <= head[j].percent by {
        assert(head[i] == t[i] && head[j] == t[j]);
    }
    assert forall|i: int| 0 <= i < head.len() implies (#[trigger] head[i]).percent <= 10_000 by {
        assert(head[i] == t[i]);
    }
    assert forall|i: int|
        0 <= i < head.len() && (#[trigger] head[i]).interrupted implies head[i].closing by {
        assert(head[i] == t[i]);
    }
}

/// A closed run holds exactly one closing event: its last.
pub proof fn lemma_closed_has_one(t: Seq<Mark>)
    requires
        closed(t),
    ensures
        closing_count(t) == 1,
        t.last().closing,
{
    lemma_orderly_prefix(t);
    lemma_none_closing(t.drop_last());
}

} // verus!
