//! First-match lookup over sequences.

use vstd::prelude::*;

verus! {

/// `i` is the position of the first occurrence of `x` in `s`.
pub open spec fn is_first<A>(s: Seq<A>, x: A, i: int) -> bool {
    &&& 0 <= i < s.len()
    &&& s[i] == x
    &&& forall|j: int| 0 <= j < i ==> s[j] != x
}

/// Position of the first occurrence of `x` in `s`, or `None` if `x` does not
/// occur.
pub open spec fn first_index<A>(s: Seq<A>, x: A) -> Option<int> {
    if exists|i: int| is_first(s, x, i) {
        Some(choose|i: int| is_first(s, x, i))
    } else {
        None
    }
}

/// A first occurrence found by a scan is the one `first_index` names.
pub proof fn lemma_first_index_at<A>(s: Seq<A>, x: A, i: int)
    requires
        is_first(s, x, i),
    ensures
        first_index(s, x) == Some(i),
{
    let k = choose|k: int| is_first(s, x, k);
    assert(k == i);
}

/// An element that does not occur has no first occurrence.
pub proof fn lemma_first_index_absent<A>(s: Seq<A>, x: A)
    requires
        forall|j: int| 0 <= j < s.len() ==> s[j] != x,
    ensures
        first_index(s, x) is None,
{
}

/// Whatever `first_index` names is a first occurrence.
pub proof fn lemma_first_index_some<A>(s: Seq<A>, x: A)
    requires
        first_index(s, x) is Some,
    ensures
        is_first(s, x, first_index(s, x)->0),
{
}

} // verus!
