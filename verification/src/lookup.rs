//! Finding the first element of a sequence that satisfies a predicate.
//!
//! The store and the client reconciler both look entities up by id; this
//! module gives the shared specification of "the first match" and the
//! lemmas that connect it to membership.

use vstd::prelude::*;

verus! {

/// Index of the first element of `s` satisfying `pred`, if any.
pub open spec fn find_index<T>(s: Seq<T>, pred: spec_fn(T) -> bool) -> Option<int>
    decreases s.len(),
{
    if s.len() == 0 {
        None
    } else if pred(s[0]) {
        Some(0)
    } else {
        match find_index(s.drop_first(), pred) {
            Some(i) => Some(i + 1),
            None => None,
        }
    }
}

/// What `find_index` returns: a first match, or the absence of any match.
pub proof fn lemma_find_index_properties<T>(s: Seq<T>, pred: spec_fn(T) -> bool)
    ensures
        match find_index(s, pred) {
            Some(i) => 0 <= i < s.len() && pred(s[i]) && (forall|j: int|
                0 <= j < i ==> !pred(s[j])),
            None => forall|j: int| 0 <= j < s.len() ==> !pred(s[j]),
        },
    decreases s.len(),
{
    if s.len() > 0 && !pred(s[0]) {
        lemma_find_index_properties(s.drop_first(), pred);
        match find_index(s.drop_first(), pred) {
            Some(i) => {
                assert(pred(s[i + 1])) by {
                    assert(s.drop_first()[i] == s[i + 1]);
                }
                assert forall|j: int| 0 <= j < i + 1 implies !pred(s[j]) by {
                    if j > 0 {
                        assert(s.drop_first()[j - 1] == s[j]);
                    }
                }
            },
            None => {
                assert forall|j: int| 0 <= j < s.len() implies !pred(s[j]) by {
                    if j > 0 {
                        assert(s.drop_first()[j - 1] == s[j]);
                    }
                }
            },
        }
    }
}

/// Conversely: a position that is a first match is what `find_index` finds.
pub proof fn lemma_find_index_at<T>(s: Seq<T>, pred: spec_fn(T) -> bool, i: int)
    requires
        0 <= i < s.len(),
        pred(s[i]),
        forall|j: int| 0 <= j < i ==> !pred(s[j]),
    ensures
        find_index(s, pred) == Some(i),
    decreases s.len(),
{
    if !pred(s[0]) {
        assert(forall|j: int| 0 <= j < s.drop_first().len() ==> s.drop_first()[j] == s[j + 1]);
        lemma_find_index_at(s.drop_first(), pred, i - 1);
    }
}

} // verus!
