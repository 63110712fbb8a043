//! Runtime-checked borrow cells that can be shared between threads.
//!
//! The borrow state of a cell is one atomic word: `0` when free, `1..=SHARED_LIMIT`
//! for that many shared borrows, and `EXCLUSIVE` for one exclusive borrow. Every
//! change of the word goes through [`state::next_word`], whose laws are proved in
//! [`state`].

mod borrow_fail;
mod cell_ref;
mod cell_ref_mut;
mod flag;
mod handle;
mod ref_overflow;
pub mod state;

pub use crate::borrow_fail::BorrowFail;
pub use crate::cell_ref::CellRef;
pub use crate::cell_ref_mut::CellRefMut;
pub use crate::flag::{
    acquire_exclusive, acquire_shared, release_exclusive, release_shared, ExclusiveBorrow, SharedBorrow,
};
pub use crate::handle::{Ref, RefMut};
pub use crate::ref_overflow::RefOverflow;
pub use crate::state::{Transition, EXCLUSIVE, SHARED_LIMIT};
