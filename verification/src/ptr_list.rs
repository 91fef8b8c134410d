//! The list of standard cycles known to the machine: pairs of cycle id and
//! position in the cycle list, held in a fixed-capacity `ArrayVec`.
use vstd::prelude::*;
use arrayvec::ArrayVec;
use crate::rega::{CycleId, CyclePtr};

verus! {

/// Maximum number of standard cycles.
pub const MAX_STANDARD_CYCLES: usize = 3;

/// A cycle id with the position of that cycle in the cycle list.
pub type CycleTuple = (CycleId, CyclePtr);

/// The standard cycles list.
pub type PtrList = ArrayVec<CycleTuple, MAX_STANDARD_CYCLES>;

#[verifier::external_type_specification]
#[verifier::external_body]
#[verifier::reject_recursive_types(T)]
pub struct ExArrayVec<T, const CAP: usize>(ArrayVec<T, CAP>);

/// What a standard cycles list holds, in order.
pub uninterp spec fn ptr_list_items(l: PtrList) -> Seq<CycleTuple>;

/// `ArrayVec::new`: an empty list.
#[verifier::external_body]
pub(crate) fn ptr_list_new() -> (l: PtrList)
    ensures
        ptr_list_items(l) == Seq::<CycleTuple>::empty(),
{
    ArrayVec::new()
}

/// `ArrayVec::len`: the number of items.
#[verifier::external_body]
pub(crate) fn ptr_list_len(l: &PtrList) -> (n: usize)
    ensures
        n == ptr_list_items(*l).len(),
        n <= MAX_STANDARD_CYCLES,
{
    l.len()
}

/// `ArrayVec::as_slice`: the items as a slice, in order.
#[verifier::external_body]
pub(crate) fn ptr_list_as_slice(l: &PtrList) -> (s: &[CycleTuple])
    ensures
        s@ == ptr_list_items(*l),
{
    l.as_slice()
}

/// `ArrayVec::push`: appends an item; it panics when the list is full, so
/// that case is excluded.
#[verifier::external_body]
pub(crate) fn ptr_list_push(l: &mut PtrList, t: CycleTuple)
    requires
        ptr_list_items(*old(l)).len() < MAX_STANDARD_CYCLES,
    ensures
        ptr_list_items(*final(l)) == ptr_list_items(*old(l)).push(t),
{
    l.push(t)
}

/// `ArrayVec::swap_remove`: removes the item at `i`, moving the last item
/// into its place; it panics when `i` is out of bounds, so that is excluded.
#[verifier::external_body]
pub(crate) fn ptr_list_swap_remove(l: &mut PtrList, i: usize) -> (r: CycleTuple)
    requires
        i < ptr_list_items(*old(l)).len(),
    ensures
        r == ptr_list_items(*old(l))[i as int],
        ptr_list_items(*final(l)) == (if i + 1 == ptr_list_items(*old(l)).len() {
            ptr_list_items(*old(l)).drop_last()
        } else {
            ptr_list_items(*old(l)).drop_last().update(i as int, ptr_list_items(*old(l)).last())
        }),
{
    l.swap_remove(i)
}

/// `ArrayVec::clear`: removes every item.
#[verifier::external_body]
pub(crate) fn ptr_list_clear(l: &mut PtrList)
    ensures
        ptr_list_items(*final(l)) == Seq::<CycleTuple>::empty(),
{
    l.clear()
}

/// The number of entries in a standard cycles list.
pub fn ptr_count(l: &PtrList) -> (n: usize)
    ensures
        n == ptr_list_items(*l).len(),
        n <= MAX_STANDARD_CYCLES,
{
    ptr_list_len(l)
}

/// The entry at position `i` of a standard cycles list.
pub fn ptr_entry(l: &PtrList, i: usize) -> (t: CycleTuple)
    requires
        i < ptr_list_items(*l).len(),
    ensures
        t == ptr_list_items(*l)[i as int],
{
    ptr_list_as_slice(l)[i]
}

} // verus!
