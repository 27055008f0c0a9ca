use vstd::prelude::*;

verus! {

/// Position of the first element of `s` that satisfies `p`, if any.
pub open spec fn first_index<T>(s: Seq<T>, p: spec_fn(T) -> bool) -> Option<int> {
    if exists|i: int| 0 <= i < s.len() && #[trigger] p(s[i]) {
        Some(
            choose|i: int|
                0 <= i < s.len() && #[trigger] p(s[i]) && forall|j: int|
                    0 <= j < i ==> !#[trigger] p(s[j]),
        )
    } else {
        None
    }
}

pub proof fn lemma_first_index_found<T>(s: Seq<T>, p: spec_fn(T) -> bool, i: int)
    requires
        0 <= i < s.len(),
        p(s[i]),
        forall|j: int| 0 <= j < i ==> !#[trigger] p(s[j]),
    ensures
        first_index(s, p) == Some(i),
{
    assert(exists|k: int| 0 <= k < s.len() && #[trigger] p(s[k]));
    let k = choose|k: int|
        0 <= k < s.len() && #[trigger] p(s[k]) && forall|j: int| 0 <= j < k ==> !#[trigger] p(s[j]);
    assert(exists|k: int|
        0 <= k < s.len() && #[trigger] p(s[k]) && forall|j: int| 0 <= j < k ==> !#[trigger] p(s[j])) by {
        assert(0 <= i < s.len() && p(s[i]) && forall|j: int| 0 <= j < i ==> !#[trigger] p(s[j]));
    }
    if k < i {
        assert(!p(s[k]));
    }
    if i < k {
        assert(!p(s[i]));
    }
}

pub proof fn lemma_first_index_none<T>(s: Seq<T>, p: spec_fn(T) -> bool)
    requires
        forall|j: int| 0 <= j < s.len() ==> !#[trigger] p(s[j]),
    ensures
        first_index(s, p) is None,
{
}

} // verus!
