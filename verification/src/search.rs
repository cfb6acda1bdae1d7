//! Where a value first occurs in a sequence.

use vstd::prelude::*;

verus! {

/// An index that holds `needle` and has no `needle` before it is the first
/// occurrence.
pub proof fn lemma_first_occurrence<T>(s: Seq<T>, needle: T, i: int)
    requires
        0 <= i < s.len(),
        s[i] == needle,
        forall|j: int| 0 <= j < i ==> s[j] != needle,
    ensures
        s.index_of_first(needle) == Some(i),
{
    s.index_of_first_ensures(needle);
    assert(s.contains(needle));
}

/// A sequence that holds no `needle` has no first occurrence of it.
pub proof fn lemma_no_occurrence<T>(s: Seq<T>, needle: T)
    requires
        forall|j: int| 0 <= j < s.len() ==> s[j] != needle,
    ensures
        s.index_of_first(needle) is None,
{
    s.index_of_first_ensures(needle);
}

} // verus!
