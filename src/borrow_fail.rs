use vstd::prelude::*;

verus! {

/// Why a fallible borrow was refused.
///
/// An exclusive request reports `BorrowConflictMut` whatever kind of borrow
/// stood in its way: the exclusive acquire is a single compare-and-swap that
/// sees only that the word was not free.
#[derive(Clone, Copy, Debug, PartialEq, Eq, Structural)]
pub enum BorrowFail {
    /// A shared borrow was requested while an exclusive borrow was live.
    BorrowConflictImm,
    /// An exclusive borrow was requested while some borrow was live.
    BorrowConflictMut,
}

impl BorrowFail {
    /// How the refused borrow was requested: `immutably` for a shared request,
    /// `mutably` for an exclusive one.
    pub fn requested(&self) -> (r: &'static str)
        ensures
            *self == BorrowFail::BorrowConflictImm ==> r@ == "immutably"@,
            *self == BorrowFail::BorrowConflictMut ==> r@ == "mutably"@,
    {
        match self {
            BorrowFail::BorrowConflictImm => "immutably",
            BorrowFail::BorrowConflictMut => "mutably",
        }
    }

    /// What stood in the way, as a suffix to "already borrowed": ` mutably` for
    /// a shared request, which only an exclusive borrow blocks; nothing for an
    /// exclusive request, which any borrow blocks.
    pub fn existing(&self) -> (r: &'static str)
        ensures
            *self == BorrowFail::BorrowConflictImm ==> r@ == " mutably"@,
            *self == BorrowFail::BorrowConflictMut ==> r@ == ""@,
    {
        match self {
            BorrowFail::BorrowConflictImm => " mutably",
            BorrowFail::BorrowConflictMut => "",
        }
    }
}

} // verus!
