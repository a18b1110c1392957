//! The first element of a sequence with a given property.

use vstd::prelude::*;

verus! {

/// The index of the first element that is wanted, or the length of the
/// sequence where none is.
pub open spec fn first_where<A>(s: Seq<A>, wanted: spec_fn(A) -> bool) -> int
    decreases s.len(),
{
    if s.len() == 0 {
        0
    } else if wanted(s[0]) {
        0
    } else {
        1 + first_where(s.drop_first(), wanted)
    }
}

/// The first element that is wanted.
pub open spec fn find_first<A>(s: Seq<A>, wanted: spec_fn(A) -> bool) -> Option<A> {
    let at = first_where(s, wanted);
    if 0 <= at < s.len() {
        Some(s[at])
    } else {
        None
    }
}

/// Where none of the first `i` elements is wanted and element `i` is, or
/// is the end of the sequence, `i` is the index that `first_where` gives.
pub proof fn lemma_first_where<A>(s: Seq<A>, wanted: spec_fn(A) -> bool, i: int)
    requires
        0 <= i <= s.len(),
        forall|j: int| 0 <= j < i ==> !wanted(#[trigger] s[j]),
        i < s.len() ==> wanted(s[i]),
    ensures
        first_where(s, wanted) == i,
    decreases i,
{
    if i > 0 {
        let rest = s.drop_first();
        assert(!wanted(s[0]));
        assert forall|j: int| 0 <= j < i - 1 implies !wanted(#[trigger] rest[j]) by {
            assert(rest[j] == s[j + 1]);
        }
        if i < s.len() {
            assert(rest[i - 1] == s[i]);
        }
        lemma_first_where(rest, wanted, i - 1);
    }
}

/// The index that `first_where` gives lies within the sequence or at its
/// end; the element there is wanted, and none before it is.
pub proof fn lemma_first_where_is_first<A>(s: Seq<A>, wanted: spec_fn(A) -> bool)
    ensures
        0 <= first_where(s, wanted) <= s.len(),
        first_where(s, wanted) < s.len() ==> wanted(s[first_where(s, wanted)]),
        forall|j: int| 0 <= j < first_where(s, wanted) ==> !wanted(#[trigger] s[j]),
    decreases s.len(),
{
    if s.len() > 0 && !wanted(s[0]) {
        let rest = s.drop_first();
        lemma_first_where_is_first(rest, wanted);
        assert forall|j: int| 0 <= j < first_where(s, wanted) implies !wanted(#[trigger] s[j]) by {
            if j > 0 {
                assert(s[j] == rest[j - 1]);
            }
        }
        if first_where(rest, wanted) < rest.len() {
            assert(s[first_where(s, wanted)] == rest[first_where(rest, wanted)]);
        }
    }
}

} // verus!
