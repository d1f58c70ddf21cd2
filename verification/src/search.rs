//! The first position in a range that has a property, shared by the
//! searches of the library (first matching adapter, first fitting device,
//! first failing directory).
use vstd::prelude::*;

verus! {

/// The smallest `i` in `0..len` with `p(i)`, if there is one.
pub open spec fn first_index(len: int, p: spec_fn(int) -> bool) -> Option<int> {
    if exists|i: int| 0 <= i < len && #[trigger] p(i) {
        Some(choose|i: int| 0 <= i < len && #[trigger] p(i) && (forall|j: int| 0 <= j < i ==> !#[trigger] p(j)))
    } else {
        None
    }
}

/// The first position with the property is `i` when `i` has it and none
/// before it does.
pub proof fn lemma_first_index_is(len: int, p: spec_fn(int) -> bool, i: int)
    requires
        0 <= i < len,
        p(i),
        forall|j: int| 0 <= j < i ==> !#[trigger] p(j),
    ensures
        first_index(len, p) == Some(i),
{
    assert(0 <= i < len && p(i) && (forall|j: int| 0 <= j < i ==> !#[trigger] p(j)));
    let k = choose|k: int| 0 <= k < len && #[trigger] p(k) && (forall|j: int| 0 <= j < k ==> !#[trigger] p(j));
    if k < i {
        assert(!p(k));
    }
    if i < k {
        assert(!p(i));
    }
}

/// No position has the property when none in the range does.
pub proof fn lemma_no_index(len: int, p: spec_fn(int) -> bool)
    requires
        forall|j: int| 0 <= j < len ==> !#[trigger] p(j),
    ensures
        first_index(len, p) is None,
{
}

} // verus!
