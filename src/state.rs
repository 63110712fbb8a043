//! The borrow word as a state machine: its encoding, its transitions, and the
//! laws that every run of transitions obeys.
use vstd::prelude::*;

verus! {

/// Largest shared-borrow count; a shared acquire observed at this count fails.
pub const SHARED_LIMIT: usize = isize::MAX as usize;

/// The word's value while one exclusive borrow is live.
pub const EXCLUSIVE: usize = usize::MAX;

/// One attempted change of the borrow word.
#[derive(Clone, Copy, Debug, PartialEq, Eq, Structural)]
pub enum Transition {
    AcquireShared,
    AcquireExclusive,
    ReleaseShared,
    ReleaseExclusive,
}

/// The values that the borrow word may hold: free, a shared count, or exclusive.
pub open spec fn is_encoded(v: usize) -> bool {
    v <= SHARED_LIMIT || v == EXCLUSIVE
}

/// Number of live shared borrows that the word records.
pub open spec fn shared_count(v: usize) -> nat {
    if v <= SHARED_LIMIT {
        v as nat
    } else {
        0
    }
}

pub open spec fn is_exclusive(v: usize) -> bool {
    v == EXCLUSIVE
}

/// The word after `op` is applied to `v`, or `None` where `op` is refused on `v`.
pub open spec fn next_state(op: Transition, v: usize) -> Option<usize> {
    match op {
        Transition::AcquireShared => if v < SHARED_LIMIT {
            Some((v + 1) as usize)
        } else {
            None
        },
        Transition::AcquireExclusive => if v == 0 {
            Some(EXCLUSIVE)
        } else {
            None
        },
        Transition::ReleaseShared => if 1 <= v && v <= SHARED_LIMIT {
            Some((v - 1) as usize)
        } else {
            None
        },
        Transition::ReleaseExclusive => if v == EXCLUSIVE {
            Some(0)
        } else {
            None
        },
    }
}

/// The word after `op` is attempted on `v`: a refused attempt leaves it unchanged.
pub open spec fn after(op: Transition, v: usize) -> usize {
    match next_state(op, v) {
        Some(w) => w,
        None => v,
    }
}

/// The word after the attempts `ops`, in order, starting from a free word.
pub open spec fn run(ops: Seq<Transition>) -> usize
    decreases ops.len(),
{
    if ops.len() == 0 {
        0
    } else {
        after(ops.last(), run(ops.drop_last()))
    }
}

/// Number of shared acquires among `ops`.
pub open spec fn acquires(ops: Seq<Transition>) -> nat
    decreases ops.len(),
{
    if ops.len() == 0 {
        0
    } else {
        acquires(ops.drop_last()) + if ops.last() == Transition::AcquireShared {
            1nat
        } else {
            0nat
        }
    }
}

/// Number of shared releases among `ops`.
pub open spec fn releases(ops: Seq<Transition>) -> nat
    decreases ops.len(),
{
    if ops.len() == 0 {
        0
    } else {
        releases(ops.drop_last()) + if ops.last() == Transition::ReleaseShared {
            1nat
        } else {
            0nat
        }
    }
}

/// Computes the transition of `op` on the observed word `v`.
pub fn next_word(op: Transition, v: usize) -> (r: Option<usize>)
    ensures
        r == next_state(op, v),
{
    match op {
        Transition::AcquireShared => if v < SHARED_LIMIT {
            Some(v + 1)
        } else {
            None
        },
        Transition::AcquireExclusive => if v == 0 {
            Some(EXCLUSIVE)
        } else {
            None
        },
        Transition::ReleaseShared => if 1 <= v && v <= SHARED_LIMIT {
            Some(v - 1)
        } else {
            None
        },
        Transition::ReleaseExclusive => if v == EXCLUSIVE {
            Some(0)
        } else {
            None
        },
    }
}

/// Every transition that the word may take keeps it within its encoding.
pub proof fn lemma_transition_keeps_encoding(op: Transition, v: usize)
    requires
        is_encoded(v),
    ensures
        is_encoded(after(op, v)),
{
}

/// Mutual exclusion: whatever attempts are made, in whatever order, the word
/// never records a shared borrow and the exclusive borrow at once, and never
/// leaves its encoding.
pub proof fn lemma_run_keeps_exclusion(ops: Seq<Transition>)
    ensures
        is_encoded(run(ops)),
        !(shared_count(run(ops)) >= 1 && is_exclusive(run(ops))),
    decreases ops.len(),
{
    if ops.len() > 0 {
        lemma_run_keeps_exclusion(ops.drop_last());
        lemma_transition_keeps_encoding(ops.last(), run(ops.drop_last()));
    }
}

/// Count accuracy: where the attempts are shared acquires and releases, each
/// release following the acquire it gives back, and at most `SHARED_LIMIT`
/// borrows live at once, the word holds the number of acquires less the number
/// of releases.
pub proof fn lemma_shared_count_accuracy(ops: Seq<Transition>)
    requires
        forall|i: int|
            0 <= i < ops.len() ==> (#[trigger] ops[i] == Transition::AcquireShared || ops[i]
                == Transition::ReleaseShared),
        forall|i: int|
            0 <= i <= ops.len() ==> releases(#[trigger] ops.subrange(0, i)) <= acquires(
                ops.subrange(0, i),
            ) <= releases(ops.subrange(0, i)) + SHARED_LIMIT,
    ensures
        run(ops) == acquires(ops) - releases(ops),
    decreases ops.len(),
{
    if ops.len() > 0 {
        let n = ops.len() as int;
        let p = ops.drop_last();
        assert forall|i: int|
            0 <= i <= p.len() implies releases(#[trigger] p.subrange(0, i)) <= acquires(
            p.subrange(0, i),
        ) <= releases(p.subrange(0, i)) + SHARED_LIMIT by {
            assert(p.subrange(0, i) =~= ops.subrange(0, i));
        }
        assert forall|i: int| 0 <= i < p.len() implies (#[trigger] p[i]
            == Transition::AcquireShared || p[i] == Transition::ReleaseShared) by {
            assert(p[i] == ops[i]);
        }
        lemma_shared_count_accuracy(p);
        assert(ops.subrange(0, n) =~= ops);
        assert(p.subrange(0, n - 1) =~= p);
        assert(ops[n - 1] == Transition::AcquireShared || ops[n - 1] == Transition::ReleaseShared);
    }
}

/// Release once: giving back a borrow undoes exactly the acquire that took it.
pub proof fn lemma_release_undoes_acquire(v: usize)
    ensures
        v < SHARED_LIMIT ==> after(Transition::ReleaseShared, after(Transition::AcquireShared, v))
            == v,
        1 <= v <= SHARED_LIMIT ==> after(Transition::ReleaseShared, v) == v - 1,
        after(Transition::ReleaseExclusive, after(Transition::AcquireExclusive, 0)) == 0,
{
}

/// Overflow boundary: at `SHARED_LIMIT` a further shared borrow is refused and
/// the word stays as it was.
pub proof fn lemma_overflow_boundary()
    ensures
        next_state(Transition::AcquireShared, SHARED_LIMIT) is None,
        after(Transition::AcquireShared, SHARED_LIMIT) == SHARED_LIMIT,
{
}

} // verus!
