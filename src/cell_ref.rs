use std::sync::atomic::AtomicUsize;
use vstd::prelude::*;

use crate::borrow_fail::BorrowFail;
use crate::flag::{acquire_shared, SharedBorrow};
use crate::ref_overflow::RefOverflow;

verus! {

/// A live shared borrow of a value, counted once in its borrow word.
///
/// Dropping it gives the borrow back (its `SharedBorrow` does). Read the value through `Deref`.
pub struct CellRef<'a, T: ?Sized + 'a> {
    borrow: SharedBorrow<'a>,
    value: &'a T,
}

impl<'a, T: ?Sized> CellRef<'a, T> {
    /// The value that this borrow reads.
    pub closed spec fn target(&self) -> &'a T {
        self.value
    }

    /// The borrow word in which this borrow is counted.
    pub closed spec fn word(&self) -> &'a AtomicUsize {
        self.borrow.word()
    }

    /// Wraps one shared borrow of `flag` that the caller has taken already; the
    /// new guard gives it back when dropped.
    pub fn new(flag: &'a AtomicUsize, value: &'a T) -> (r: Self)
        ensures
            r.word() == flag,
            r.target() == value,
    {
        CellRef { borrow: SharedBorrow::adopt(flag), value }
    }

    /// Takes a shared borrow of `flag` and, once it is counted, reaches the
    /// value through `value`.
    ///
    /// Fails with `BorrowConflictImm`, leaving the word unchanged and `value`
    /// uncalled, where the word was observed exclusively borrowed or at
    /// `SHARED_LIMIT`.
    pub fn acquire<F: FnOnce() -> &'a T>(flag: &'a AtomicUsize, value: F) -> (r: Result<Self, BorrowFail>)
        requires
            value.requires(()),
        ensures
            match r {
                Ok(c) => c.word() == flag && value.ensures((), c.target()),
                Err(e) => e == BorrowFail::BorrowConflictImm,
            },
    {
        match acquire_shared(flag) {
            Ok(_) => Ok(CellRef { borrow: SharedBorrow::adopt(flag), value: value() }),
            Err(_) => Err(BorrowFail::BorrowConflictImm),
        }
    }

    /// The borrow word in which this borrow is counted.
    pub fn flag(&self) -> (r: &'a AtomicUsize)
        ensures
            r == self.word(),
    {
        self.borrow.flag()
    }

    /// Returns a second guard on the same value, counted as one more shared borrow.
    ///
    /// Fails with `RefOverflow`, leaving the word unchanged, where the shared
    /// count was observed at `SHARED_LIMIT` or above.
    pub fn try_clone(&self) -> (r: Result<Self, RefOverflow>)
        ensures
            r matches Ok(c) ==> c.word() == self.word() && c.target() == self.target(),
    {
        match self.borrow.try_clone() {
            Ok(borrow) => Ok(CellRef { borrow, value: self.value }),
            Err(_) => Err(RefOverflow),
        }
    }

    /// Makes a guard on a part of the borrowed value, keeping the same borrow.
    ///
    /// The borrow word is not touched: the borrow moves into the new guard, and
    /// is given back once, when that guard is dropped.
    pub fn map<U: ?Sized, F: FnOnce(&T) -> &U>(self, f: F) -> (r: CellRef<'a, U>)
        requires
            f.requires((self.target(),)),
        ensures
            f.ensures((self.target(),), r.target()),
            r.word() == self.word(),
    {
        let CellRef { borrow, value } = self;
        CellRef { borrow, value: f(value) }
    }
}

impl<'a, T: ?Sized> std::ops::Deref for CellRef<'a, T> {
    type Target = T;

    fn deref(&self) -> (r: &T)
        ensures
            r == self.target(),
    {
        self.value
    }
}

} // verus!
