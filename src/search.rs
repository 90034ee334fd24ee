//! First-match search over sequences, the policy used for property lookup,
//! object resolution and related-object resolution alike.

use vstd::prelude::*;

verus! {

/// The first index at or after `i` whose element satisfies `p`.
pub open spec fn first_from<A>(s: Seq<A>, p: spec_fn(A) -> bool, i: int) -> Option<int>
    decreases s.len() - i,
{
    if 0 <= i < s.len() {
        if p(s[i]) {
            Some(i)
        } else {
            first_from(s, p, i + 1)
        }
    } else {
        None
    }
}

/// What `first_from` returns: the smallest satisfying index, or `None` when
/// there is none.
pub proof fn lemma_first_from<A>(s: Seq<A>, p: spec_fn(A) -> bool, i: int)
    requires
        0 <= i,
    ensures
        match first_from(s, p, i) {
            Some(k) => i <= k < s.len() && p(s[k]) && forall|j: int| i <= j < k ==> !p(#[trigger] s[j]),
            None => forall|j: int| i <= j < s.len() ==> !p(#[trigger] s[j]),
        },
    decreases s.len() - i,
{
    if 0 <= i < s.len() && !p(s[i]) {
        lemma_first_from(s, p, i + 1);
    }
}

/// `first_from` is fixed by any index that satisfies `p` with none before it.
pub proof fn lemma_first_from_is<A>(s: Seq<A>, p: spec_fn(A) -> bool, i: int, k: int)
    requires
        0 <= i <= k < s.len(),
        p(s[k]),
        forall|j: int| i <= j < k ==> !p(#[trigger] s[j]),
    ensures
        first_from(s, p, i) == Some(k),
    decreases k - i,
{
    if i < k {
        lemma_first_from_is(s, p, i + 1, k);
    }
}

} // verus!
