//! Atomic operations on a borrow word. Each one changes the word only through
//! [`next_word`], in a single atomic read-modify-write.
use std::sync::atomic::{AtomicUsize, Ordering};
use vstd::prelude::*;

use crate::state::{next_state, next_word, Transition, SHARED_LIMIT, EXCLUSIVE};

verus! {

/// Relies on AtomicUsize::fetch_update: it loads the word with the `fetch`
/// ordering and tries to replace each value `v` it reads by `next_word(op, v)`;
/// where a compare-and-swap fails (another thread changed the word, or the weak
/// swap failed spuriously) it reads again. It returns `Ok(v)` once it replaced
/// `v`, and `Err(v)` where `next_word(op, v)` is `None`, leaving the word as it
/// is. A load ordering of `Release` or `AcqRel` panics, so it is not admitted.
#[verifier::external_body]
fn update_word(word: &AtomicUsize, op: Transition, set: Ordering, fetch: Ordering) -> (r: Result<usize, usize>)
    requires
        fetch == Ordering::Acquire || fetch == Ordering::Relaxed || fetch == Ordering::SeqCst,
    ensures
        match r {
            Ok(v) => next_state(op, v) is Some,
            Err(v) => next_state(op, v) is None,
        },
    opens_invariants none
    no_unwind
{
    word.fetch_update(set, fetch, |v| next_word(op, v))
}

/// Takes one shared borrow of `word`.
///
/// Returns `Ok(v)` where the word held the shared count `v < SHARED_LIMIT` and
/// now holds `v + 1`; returns `Err(v)` where it held `v >= SHARED_LIMIT` (at the
/// limit, or borrowed exclusively) and was left unchanged.
pub fn acquire_shared(word: &AtomicUsize) -> (r: Result<usize, usize>)
    ensures
        match r {
            Ok(v) => v < SHARED_LIMIT,
            Err(v) => v >= SHARED_LIMIT,
        },
{
    update_word(word, Transition::AcquireShared, Ordering::AcqRel, Ordering::Acquire)
}

/// Takes the exclusive borrow of `word`.
///
/// Returns `Ok(0)` where the word was free and now holds `EXCLUSIVE`; returns
/// `Err(v)` with `v != 0` where some borrow was live, leaving the word unchanged.
pub fn acquire_exclusive(word: &AtomicUsize) -> (r: Result<usize, usize>)
    ensures
        match r {
            Ok(v) => v == 0,
            Err(v) => v != 0,
        },
{
    update_word(word, Transition::AcquireExclusive, Ordering::AcqRel, Ordering::Acquire)
}

/// Gives back one shared borrow of `word`.
///
/// Returns `Ok(v)` where the word held the shared count `v >= 1` and now holds
/// `v - 1`; `Err(v)` where it held no shared borrow and was left unchanged.
pub fn release_shared(word: &AtomicUsize) -> (r: Result<usize, usize>)
    ensures
        match r {
            Ok(v) => 1 <= v && v <= SHARED_LIMIT,
            Err(v) => v == 0 || v > SHARED_LIMIT,
        },
    opens_invariants none
    no_unwind
{
    update_word(word, Transition::ReleaseShared, Ordering::Release, Ordering::Relaxed)
}

/// Gives back the exclusive borrow of `word`.
///
/// Returns `Ok(EXCLUSIVE)` where the word was exclusively borrowed and is now
/// free; `Err(v)` where it was not, leaving the word unchanged.
pub fn release_exclusive(word: &AtomicUsize) -> (r: Result<usize, usize>)
    ensures
        match r {
            Ok(v) => v == EXCLUSIVE,
            Err(v) => v != EXCLUSIVE,
        },
    opens_invariants none
    no_unwind
{
    update_word(word, Transition::ReleaseExclusive, Ordering::Release, Ordering::Relaxed)
}

/// One shared borrow counted in a borrow word; dropping it gives the borrow back.
pub struct SharedBorrow<'a> {
    flag: &'a AtomicUsize,
}

impl<'a> SharedBorrow<'a> {
    pub closed spec fn word(&self) -> &'a AtomicUsize {
        self.flag
    }

    /// Takes charge of one shared borrow of `flag` that the caller has counted
    /// already.
    pub fn adopt(flag: &'a AtomicUsize) -> (r: Self)
        ensures
            r.word() == flag,
    {
        SharedBorrow { flag }
    }

    pub fn flag(&self) -> (r: &'a AtomicUsize)
        ensures
            r == self.word(),
    {
        self.flag
    }

    /// Counts one more shared borrow of the same word, as `acquire_shared` does;
    /// on refusal returns the word that was observed.
    pub fn try_clone(&self) -> (r: Result<Self, usize>)
        ensures
            match r {
                Ok(c) => c.word() == self.word(),
                Err(v) => v >= SHARED_LIMIT,
            },
    {
        match acquire_shared(self.flag) {
            Ok(_) => Ok(SharedBorrow { flag: self.flag }),
            Err(v) => Err(v),
        }
    }
}

impl<'a> SharedBorrow<'a> {
    /// Gives this one shared borrow back to its word.
    fn release(&self) -> (r: Result<usize, usize>)
        ensures
            match r {
                Ok(v) => next_state(Transition::ReleaseShared, v) == Some((v - 1) as usize),
                Err(v) => next_state(Transition::ReleaseShared, v) is None,
            },
        opens_invariants none
        no_unwind
    {
        release_shared(self.flag)
    }
}

impl<'a> Drop for SharedBorrow<'a> {
    fn drop(&mut self)
        opens_invariants none
        no_unwind
    {
        let _ = self.release();
    }
}

/// The exclusive borrow of a borrow word; dropping it frees the word.
pub struct ExclusiveBorrow<'a> {
    flag: &'a AtomicUsize,
}

impl<'a> ExclusiveBorrow<'a> {
    pub closed spec fn word(&self) -> &'a AtomicUsize {
        self.flag
    }

    /// Takes charge of the exclusive borrow of `flag` that the caller has
    /// taken already.
    pub fn adopt(flag: &'a AtomicUsize) -> (r: Self)
        ensures
            r.word() == flag,
    {
        ExclusiveBorrow { flag }
    }

    pub fn flag(&self) -> (r: &'a AtomicUsize)
        ensures
            r == self.word(),
    {
        self.flag
    }
}

impl<'a> ExclusiveBorrow<'a> {
    /// Frees the word that this exclusive borrow holds.
    fn release(&self) -> (r: Result<usize, usize>)
        ensures
            match r {
                Ok(v) => next_state(Transition::ReleaseExclusive, v) == Some(0usize),
                Err(v) => next_state(Transition::ReleaseExclusive, v) is None,
            },
        opens_invariants none
        no_unwind
    {
        release_exclusive(self.flag)
    }
}

impl<'a> Drop for ExclusiveBorrow<'a> {
    fn drop(&mut self)
        opens_invariants none
        no_unwind
    {
        let _ = self.release();
    }
}

} // verus!
