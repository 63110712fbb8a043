use std::sync::atomic::{AtomicUsize, Ordering};

use rt_ref::{CellRef, CellRefMut, Ref, RefMut, RefOverflow, SHARED_LIMIT};

#[derive(Debug, Clone, PartialEq)]
struct A(usize);

#[test]
fn partial_eq_compares_value() {
    let flag = AtomicUsize::new(0);
    let value = A(1);
    let r = Ref::new(CellRef::new(&flag, &value));

    assert!(Ref::new(CellRef::new(&flag, &value)) == r);
    assert!(Ref::new(CellRef::new(&flag, &A(2))) != r);
}

#[test]
fn try_clone_returns_ok_when_ref_count_less_than_usize_max() {
    let flag = &AtomicUsize::new(1);
    let value = &A(1);
    let ref_0 = Ref::new(CellRef::new(flag, value));

    assert_eq!(1, ref_0.cell_ref().flag().load(Ordering::SeqCst));

    let try_clone_result = ref_0.try_clone();

    let ref_1 = try_clone_result.expect("try_clone_result to be ok");
    assert_eq!(2, ref_0.cell_ref().flag().load(Ordering::SeqCst));
    assert_eq!(2, ref_1.cell_ref().flag().load(Ordering::SeqCst));
}

#[test]
fn try_clone_returns_err_when_ref_count_equals_usize_max() {
    let flag = &AtomicUsize::new(SHARED_LIMIT);
    let value = &A(1);
    let ref_0 = Ref::new(CellRef::new(flag, value));

    assert_eq!(SHARED_LIMIT, ref_0.cell_ref().flag().load(Ordering::SeqCst));

    let try_clone_result = ref_0.try_clone();

    let e = try_clone_result.err().expect("try_clone_result to be err");
    assert_eq!(RefOverflow, e);

    // A refused clone leaves the count where it was.
    assert_eq!(SHARED_LIMIT, ref_0.cell_ref().flag().load(Ordering::SeqCst));
}

#[test]
fn clone_increments_cell_ref_count() {
    let flag = &AtomicUsize::new(1);
    let value = &A(1);
    let ref_0 = Ref::new(CellRef::new(flag, value));

    assert_eq!(1, ref_0.cell_ref().flag().load(Ordering::SeqCst));

    let ref_1 = ref_0.try_clone().expect("clone to succeed");

    assert_eq!(2, ref_0.cell_ref().flag().load(Ordering::SeqCst));
    assert_eq!(2, ref_1.cell_ref().flag().load(Ordering::SeqCst));
}

#[test]
fn ref_reads_the_value() {
    let flag = AtomicUsize::new(1);
    let value = A(7);
    let r = Ref::new(CellRef::new(&flag, &value));
    assert_eq!(A(7), *r);
}

#[test]
fn ref_mut_writes_the_value_and_frees_on_drop() {
    let flag = AtomicUsize::new(0);
    let mut value = A(1);
    {
        let mut r = RefMut::new(CellRefMut::acquire(&flag, || &mut value).expect("free word"));
        assert_eq!(usize::MAX, flag.load(Ordering::SeqCst));
        r.0 += 2;
        assert_eq!(A(3), *r);
    }
    assert_eq!(0, flag.load(Ordering::SeqCst));
    assert_eq!(A(3), value);
}

#[test]
fn ref_mut_compares_by_value() {
    let flag_a = AtomicUsize::new(usize::MAX);
    let flag_b = AtomicUsize::new(usize::MAX);
    let mut a = A(4);
    let mut b = A(4);
    let ra = RefMut::new(CellRefMut::new(&flag_a, &mut a));
    let rb = RefMut::new(CellRefMut::new(&flag_b, &mut b));
    assert!(ra == rb);
}
