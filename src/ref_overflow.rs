use vstd::prelude::*;

verus! {

/// Error when a shared borrow is cloned while the shared count is at
/// `SHARED_LIMIT` (that is `isize::MAX`).
#[derive(Clone, Copy, Debug, PartialEq, Eq, Structural)]
pub struct RefOverflow;

impl RefOverflow {
    /// The text that describes this error.
    pub fn message(&self) -> (r: &'static str)
        ensures
            r@ == "Ref count exceeded `isize::MAX` (9223372036854775807)."@,
    {
        "Ref count exceeded `isize::MAX` (9223372036854775807)."
    }
}

} // verus!
