//! Where a binding goes in a list kept from the highest priority down.
use vstd::prelude::*;
use std::cmp::Ordering;
use super::keybinding::{KeyBinding, Priority, priority_level};

verus! {

/// Whether the bindings are ordered from the highest priority level down.
pub open spec fn priority_sorted(bs: Seq<KeyBinding>) -> bool {
    forall|i: int, j: int|
        0 <= i < j < bs.len() ==> priority_level(#[trigger] bs[j].spec_priority())
            <= priority_level(#[trigger] bs[i].spec_priority())
}

/// How `existing` compares with `target` in a list ordered from the highest
/// priority down: before it (`Less`) when its priority is higher, after it
/// (`Greater`) when lower.
pub fn descending_priority_order(existing: &KeyBinding, target: Priority) -> (r: Ordering)
    ensures
        priority_level(existing.spec_priority()) > priority_level(target) ==> r == Ordering::Less,
        priority_level(existing.spec_priority()) == priority_level(target) ==> r
            == Ordering::Equal,
        priority_level(existing.spec_priority()) < priority_level(target) ==> r
            == Ordering::Greater,
{
    let a = existing.priority().as_u8();
    let b = target.as_u8();
    if a > b {
        Ordering::Less
    } else if a == b {
        Ordering::Equal
    } else {
        Ordering::Greater
    }
}

/// The index at which a binding of priority `target` is inserted, found by
/// `slice::binary_search_by` with [`descending_priority_order`]: the index of
/// some binding of the same priority when there is one (which one the
/// documentation leaves open), else the index that keeps the order.  Every
/// binding before it has a priority at least `target`'s, every binding from
/// it on at most `target`'s.
#[verifier::external_body]
pub(crate) fn priority_insertion_index(bindings: &Vec<KeyBinding>, target: Priority) -> (r: usize)
    requires
        priority_sorted(bindings@),
    ensures
        r <= bindings@.len(),
        forall|i: int|
            0 <= i < r ==> priority_level(target) <= priority_level(
                #[trigger] bindings@[i].spec_priority(),
            ),
        forall|i: int|
            r <= i < bindings@.len() ==> priority_level(#[trigger] bindings@[i].spec_priority())
                <= priority_level(target),
{
    match bindings.binary_search_by(|existing| descending_priority_order(existing, target)) {
        Ok(i) => i,
        Err(i) => i,
    }
}

} // verus!
