//! The first element of a sequence that has a given property.

use vstd::prelude::*;

verus! {

/// `i` is the least index of `s` whose element is wanted.
pub open spec fn is_first<T>(s: Seq<T>, wanted: spec_fn(T) -> bool, i: int) -> bool {
    &&& 0 <= i < s.len()
    &&& wanted(s[i])
    &&& forall|j: int| 0 <= j < i ==> !wanted(#[trigger] s[j])
}

/// The least index of `s` whose element is wanted, if any element is.
pub open spec fn first_index<T>(s: Seq<T>, wanted: spec_fn(T) -> bool) -> Option<int> {
    if exists|i: int| is_first(s, wanted, i) {
        Some(choose|i: int| is_first(s, wanted, i))
    } else {
        None
    }
}

/// A least wanted index is the one that `first_index` gives.
pub proof fn lemma_first_index_is<T>(s: Seq<T>, wanted: spec_fn(T) -> bool, i: int)
    requires
        is_first(s, wanted, i),
    ensures
        first_index(s, wanted) == Some(i),
{
}

/// `first_index` gives nothing exactly where no element is wanted, and
/// otherwise an index whose element is wanted and comes before every other
/// wanted element.
pub proof fn lemma_first_index<T>(s: Seq<T>, wanted: spec_fn(T) -> bool)
    ensures
        first_index(s, wanted) is None <==> forall|j: int|
            0 <= j < s.len() ==> !wanted(#[trigger] s[j]),
        first_index(s, wanted) matches Some(i) ==> is_first(s, wanted, i),
{
    if first_index(s, wanted) is None {
        assert forall|j: int| 0 <= j < s.len() implies !wanted(#[trigger] s[j]) by {
            if wanted(s[j]) {
                lemma_least_wanted(s, wanted, j);
            }
        }
    }
}

/// Below any wanted index there is a least one.
proof fn lemma_least_wanted<T>(s: Seq<T>, wanted: spec_fn(T) -> bool, j: int)
    requires
        0 <= j < s.len(),
        wanted(s[j]),
    ensures
        exists|i: int| is_first(s, wanted, i),
    decreases j,
{
    if forall|k: int| 0 <= k < j ==> !wanted(#[trigger] s[k]) {
        assert(is_first(s, wanted, j));
    } else {
        let k = choose|k: int| 0 <= k < j && wanted(#[trigger] s[k]);
        lemma_least_wanted(s, wanted, k);
    }
}

} // verus!
