use vstd::prelude::*;

verus! {

/// A call that changes an object's reference count.
pub enum RefOp {
    AddRef,
    Release,
}

/// The count after one call: `AddRef` adds a reference, `Release` gives one back.
pub open spec fn apply_ref_op(count: int, op: RefOp) -> int {
    match op {
        RefOp::AddRef => count + 1,
        RefOp::Release => count - 1,
    }
}

/// The count after a sequence of calls, in order.
pub open spec fn apply_ref_ops(count: int, ops: Seq<RefOp>) -> int
    decreases ops.len(),
{
    if ops.len() == 0 {
        count
    } else {
        apply_ref_ops(apply_ref_op(count, ops[0]), ops.drop_first())
    }
}

/// The number of `AddRef` calls in `ops` less the number of `Release` calls.
pub open spec fn net_refs(ops: Seq<RefOp>) -> int
    decreases ops.len(),
{
    if ops.len() == 0 {
        0
    } else {
        apply_ref_op(0, ops[0]) + net_refs(ops.drop_first())
    }
}


/// The reference count that the `windows` crate gives objects that it
/// implements; this library keeps one in each filter object.
#[verifier::external_type_specification]
#[verifier::external_body]
pub struct ExWeakRefCount(windows::WeakRefCount);

/// The number of strong references that a `windows::WeakRefCount` records.
pub uninterp spec fn strong_count(count: windows::WeakRefCount) -> nat;

/// Whether a count fits both the `isize` in which a `windows::WeakRefCount`
/// stores it and the `u32` in which it reports it.
pub open spec fn count_fits(count: nat) -> bool {
    count <= u32::MAX && count <= isize::MAX
}

/// Whether one more reference can be taken on a count: the incremented count
/// still fits.
pub open spec fn count_can_grow(count: nat) -> bool {
    count < u32::MAX && count < isize::MAX
}

/// `windows::WeakRefCount::new`: the source stores the count 1.
#[verifier::external_body]
pub(crate) fn weak_ref_count_new() -> (c: windows::WeakRefCount)
    ensures
        strong_count(c) == 1,
{
    windows::WeakRefCount::new()
}

/// `windows::WeakRefCount::add_ref`: as long as no weak reference has been
/// handed out (this library never asks for one), the source increments the
/// count (an `isize`) and returns the new value as `count as u32 + 1`.
/// Below both `isize::MAX` and `u32::MAX` neither addition overflows, and the
/// stored count stays non-negative.
#[verifier::external_body]
pub(crate) fn weak_ref_count_add_ref(c: &mut windows::WeakRefCount) -> (r: u32)
    requires
        count_can_grow(strong_count(*old(c))),
    ensures
        strong_count(*final(c)) == strong_count(*old(c)) + 1,
        r == strong_count(*final(c)),
{
    c.add_ref()
}

/// `windows::WeakRefCount::release`: with no weak reference handed out, the
/// source decrements the count and returns what remains, as
/// `count as u32 - 1`.  That value is the remaining count only when the count
/// fits a `u32` (and the stored `isize`), and the subtraction overflows on a
/// count of 0, so the count must be positive and fit.
#[verifier::external_body]
pub(crate) fn weak_ref_count_release(c: &mut windows::WeakRefCount) -> (r: u32)
    requires
        strong_count(*old(c)) >= 1,
        count_fits(strong_count(*old(c))),
    ensures
        strong_count(*final(c)) == strong_count(*old(c)) - 1,
        r == strong_count(*final(c)),
{
    c.release()
}

} // verus!
