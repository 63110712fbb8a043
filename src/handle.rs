use vstd::prelude::*;

use crate::cell_ref::CellRef;
use crate::cell_ref_mut::CellRefMut;
use crate::ref_overflow::RefOverflow;

verus! {

/// A handle to a shared borrow of a value: it reads like the value and compares
/// by the value, not by the borrow.
pub struct Ref<'a, V: 'a> {
    inner: CellRef<'a, V>,
}

impl<'a, V> Ref<'a, V> {
    /// The guard that this handle owns.
    pub closed spec fn guard(&self) -> &CellRef<'a, V> {
        &self.inner
    }

    /// The value that this handle reads.
    pub open spec fn target(&self) -> &'a V {
        self.guard().target()
    }

    /// Returns a new `Ref` that owns `inner`.
    pub fn new(inner: CellRef<'a, V>) -> (r: Self)
        ensures
            *r.guard() == inner,
    {
        Ref { inner }
    }

    /// The guard that this handle owns.
    pub fn cell_ref(&self) -> (r: &CellRef<'a, V>)
        ensures
            r == self.guard(),
    {
        &self.inner
    }

    /// Returns a second handle on the same value, counted as one more shared
    /// borrow; fails with `RefOverflow` as `CellRef::try_clone` does.
    pub fn try_clone(&self) -> (r: Result<Self, RefOverflow>)
        ensures
            r matches Ok(c) ==> c.guard().word() == self.guard().word() && c.target()
                == self.target(),
    {
        match self.inner.try_clone() {
            Ok(c) => Ok(Ref::new(c)),
            Err(e) => Err(e),
        }
    }
}

impl<'a, V> std::ops::Deref for Ref<'a, V> {
    type Target = V;

    fn deref(&self) -> (r: &V)
        ensures
            r == self.target(),
    {
        &*self.inner
    }
}

impl<'a, V: PartialEq> PartialEq for Ref<'a, V> {
    fn eq(&self, other: &Self) -> (r: bool)
    {
        let a: &V = &*self.inner;
        let b: &V = &*other.inner;
        a == b
    }
}

impl<'a, V: PartialEq> vstd::std_specs::cmp::PartialEqSpecImpl for Ref<'a, V> {
    open spec fn obeys_eq_spec() -> bool {
        <V as vstd::std_specs::cmp::PartialEqSpec>::obeys_eq_spec()
    }

    open spec fn eq_spec(&self, other: &Self) -> bool {
        <V as vstd::std_specs::cmp::PartialEqSpec>::eq_spec(self.target(), other.target())
    }
}

/// A handle to an exclusive borrow of a value: it reads and writes like the
/// value. It has no clone: the borrow it holds is the only one.
pub struct RefMut<'a, V: 'a> {
    inner: CellRefMut<'a, V>,
}

impl<'a, V> RefMut<'a, V> {
    /// The guard that this handle owns.
    pub closed spec fn guard(&self) -> &CellRefMut<'a, V> {
        &self.inner
    }

    /// Returns a new `RefMut` that owns `inner`.
    pub fn new(inner: CellRefMut<'a, V>) -> (r: Self)
        ensures
            *r.guard() == inner,
    {
        RefMut { inner }
    }

    /// The guard that this handle owns.
    pub fn cell_ref_mut(&self) -> (r: &CellRefMut<'a, V>)
        ensures
            r == self.guard(),
    {
        &self.inner
    }
}

impl<'a, V> std::ops::Deref for RefMut<'a, V> {
    type Target = V;

    fn deref(&self) -> (r: &V)
        ensures
            r == self.guard().target(),
    {
        &*self.inner
    }
}

impl<'a, V> std::ops::DerefMut for RefMut<'a, V> {
    fn deref_mut(&mut self) -> (r: &mut V) {
        &mut *self.inner
    }
}

impl<'a, V: PartialEq> PartialEq for RefMut<'a, V> {
    fn eq(&self, other: &Self) -> (r: bool) {
        let a: &V = &*self.inner;
        let b: &V = &*other.inner;
        a == b
    }
}

impl<'a, V: PartialEq> vstd::std_specs::cmp::PartialEqSpecImpl for RefMut<'a, V> {
    open spec fn obeys_eq_spec() -> bool {
        <V as vstd::std_specs::cmp::PartialEqSpec>::obeys_eq_spec()
    }

    open spec fn eq_spec(&self, other: &Self) -> bool {
        <V as vstd::std_specs::cmp::PartialEqSpec>::eq_spec(
            self.guard().target(),
            other.guard().target(),
        )
    }
}

} // verus!
