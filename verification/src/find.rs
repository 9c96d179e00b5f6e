//! The first place in a list where something holds.

use vstd::prelude::*;

verus! {

/// The place of the first item that `wanted` holds of, or the list's length.
pub open spec fn first_where<A>(list: Seq<A>, wanted: spec_fn(A) -> bool) -> int
    decreases list.len(),
{
    if list.len() == 0 || wanted(list[0]) {
        0
    } else {
        1 + first_where(list.subrange(1, list.len() as int), wanted)
    }
}

/// What [`first_where`] finds.
pub proof fn lemma_first_where<A>(list: Seq<A>, wanted: spec_fn(A) -> bool)
    ensures
        0 <= first_where(list, wanted) <= list.len(),
        first_where(list, wanted) < list.len() ==> wanted(list[first_where(list, wanted)]),
        forall|i: int| 0 <= i < first_where(list, wanted) ==> !wanted(#[trigger] list[i]),
    decreases list.len(),
{
    if list.len() > 0 && !wanted(list[0]) {
        let rest = list.subrange(1, list.len() as int);
        lemma_first_where(rest, wanted);
        assert forall|i: int| 0 <= i < first_where(list, wanted) implies !wanted(
            #[trigger] list[i],
        ) by {
            if i > 0 {
                assert(rest[i - 1] == list[i]);
            }
        }
    }
}

/// The only place that can be the first is the first.
pub proof fn lemma_first_where_is<A>(list: Seq<A>, wanted: spec_fn(A) -> bool, at: int)
    requires
        0 <= at <= list.len(),
        at < list.len() ==> wanted(list[at]),
        forall|i: int| 0 <= i < at ==> !wanted(#[trigger] list[i]),
    ensures
        first_where(list, wanted) == at,
{
    lemma_first_where(list, wanted);
    let found = first_where(list, wanted);
    if found < at {
        assert(!wanted(list[found]));
    }
    if at < found {
        assert(!wanted(list[at]));
    }
}

} // verus!
