use std::sync::atomic::AtomicUsize;
use vstd::prelude::*;

use crate::borrow_fail::BorrowFail;
use crate::flag::{acquire_exclusive, ExclusiveBorrow};

verus! {

/// A live exclusive borrow of a value, held as the `EXCLUSIVE` mark of its
/// borrow word.
///
/// Dropping it frees the word (its `ExclusiveBorrow` does). Read and write the
/// value through `Deref` and `DerefMut`.
pub struct CellRefMut<'a, T: ?Sized + 'a> {
    borrow: ExclusiveBorrow<'a>,
    value: &'a mut T,
}

impl<'a, T: ?Sized> CellRefMut<'a, T> {
    /// The value that this borrow reads and writes.
    pub closed spec fn target(&self) -> &T {
        &*self.value
    }

    /// The reference through which this borrow reads and writes.
    pub closed spec fn reference(&self) -> &'a mut T {
        self.value
    }

    /// The borrow word that this borrow holds.
    pub closed spec fn word(&self) -> &'a AtomicUsize {
        self.borrow.word()
    }

    /// Wraps the exclusive borrow of `flag` that the caller has taken already;
    /// the new guard frees the word when dropped.
    pub fn new(flag: &'a AtomicUsize, value: &'a mut T) -> (r: Self)
        ensures
            r.word() == flag,
            r.target() == &*old(value),
    {
        CellRefMut { borrow: ExclusiveBorrow::adopt(flag), value }
    }

    /// Takes the exclusive borrow of `flag` and, once it is held, reaches the
    /// value through `value`.
    ///
    /// Fails with `BorrowConflictMut`, leaving the word unchanged and `value`
    /// uncalled, where the word was observed borrowed in any way.
    pub fn acquire<F: FnOnce() -> &'a mut T>(flag: &'a AtomicUsize, value: F) -> (r: Result<Self, BorrowFail>)
        requires
            value.requires(()),
        ensures
            match r {
                Ok(c) => c.word() == flag && value.ensures((), c.reference()),
                Err(e) => e == BorrowFail::BorrowConflictMut,
            },
    {
        match acquire_exclusive(flag) {
            Ok(_) => Ok(CellRefMut { borrow: ExclusiveBorrow::adopt(flag), value: value() }),
            Err(_) => Err(BorrowFail::BorrowConflictMut),
        }
    }

    /// The borrow word that this borrow holds.
    pub fn flag(&self) -> (r: &'a AtomicUsize)
        ensures
            r == self.word(),
    {
        self.borrow.flag()
    }

    /// Makes a guard on a part of the borrowed value, keeping the same borrow.
    ///
    /// The borrow word is not touched: the borrow moves into the new guard, and
    /// the word is freed once, when that guard is dropped.
    pub fn map<U: ?Sized, F: FnOnce(&mut T) -> &mut U>(self, f: F) -> (r: CellRefMut<'a, U>)
        requires
            forall|v: &mut T| &*v == self.target() ==> #[trigger] f.requires((v,)),
        ensures
            r.word() == self.word(),
    {
        let CellRefMut { borrow, value } = self;
        CellRefMut { borrow, value: f(value) }
    }
}

impl<'a, T: ?Sized> std::ops::Deref for CellRefMut<'a, T> {
    type Target = T;

    fn deref(&self) -> (r: &T)
        ensures
            r == self.target(),
    {
        &*self.value
    }
}

impl<'a, T: ?Sized> std::ops::DerefMut for CellRefMut<'a, T> {
    fn deref_mut(&mut self) -> (r: &mut T)
    {
        &mut *self.value
    }
}

} // verus!
