//! Finding the first element of a sequence that has a property.

use vstd::prelude::*;

verus! {

/// The index of the first element of `s` for which `p` holds.
pub open spec fn first_where<A>(s: Seq<A>, p: spec_fn(A) -> bool) -> Option<int>
    decreases s.len(),
{
    if s.len() == 0 {
        None
    } else if p(s[0]) {
        Some(0)
    } else {
        match first_where(s.drop_first(), p) {
            Some(i) => Some(i + 1),
            None => None,
        }
    }
}

/// An index before which `p` holds nowhere and at which it holds is the
/// first; if it holds nowhere, there is none.
pub proof fn lemma_first_where_is<A>(s: Seq<A>, p: spec_fn(A) -> bool, k: int)
    requires
        0 <= k <= s.len(),
        forall|j: int| 0 <= j < k ==> !p(s[j]),
        k == s.len() || p(s[k]),
    ensures
        first_where(s, p) == if k == s.len() {
            None
        } else {
            Some(k)
        },
    decreases s.len(),
{
    if s.len() == 0 {
    } else if p(s[0]) {
    } else {
        let rest = s.drop_first();
        assert forall|j: int| 0 <= j < k - 1 implies !p(rest[j]) by {
            assert(rest[j] == s[j + 1]);
        }
        lemma_first_where_is(rest, p, k - 1);
    }
}

/// What the first index says: `p` holds there and nowhere before; where
/// there is none, `p` holds nowhere.
pub proof fn lemma_first_where<A>(s: Seq<A>, p: spec_fn(A) -> bool)
    ensures
        match first_where(s, p) {
            Some(k) => 0 <= k < s.len() && p(s[k]) && forall|j: int| 0 <= j < k ==> !p(s[j]),
            None => forall|j: int| 0 <= j < s.len() ==> !p(s[j]),
        },
    decreases s.len(),
{
    if s.len() == 0 {
    } else if p(s[0]) {
    } else {
        let rest = s.drop_first();
        lemma_first_where(rest, p);
        match first_where(rest, p) {
            Some(k) => {
                assert(rest[k] == s[k + 1]);
                assert forall|j: int| 0 <= j < k + 1 implies !p(s[j]) by {
                    if j > 0 {
                        assert(rest[j - 1] == s[j]);
                    }
                }
            },
            None => {
                assert forall|j: int| 0 <= j < s.len() implies !p(s[j]) by {
                    if j > 0 {
                        assert(rest[j - 1] == s[j]);
                    }
                }
            },
        }
    }
}

/// The index of the last element of `s` for which `p` holds.
pub open spec fn last_where<A>(s: Seq<A>, p: spec_fn(A) -> bool) -> Option<int>
    decreases s.len(),
{
    if s.len() == 0 {
        None
    } else if p(s.last()) {
        Some(s.len() - 1)
    } else {
        last_where(s.drop_last(), p)
    }
}

/// An index at which `p` holds and behind which it holds nowhere is the
/// last; if it holds nowhere, there is none. `k` is the index plus one, or
/// 0.
pub proof fn lemma_last_where_is<A>(s: Seq<A>, p: spec_fn(A) -> bool, k: int)
    requires
        0 <= k <= s.len(),
        forall|j: int| k <= j < s.len() ==> !p(s[j]),
        k == 0 || p(s[k - 1]),
    ensures
        last_where(s, p) == if k == 0 {
            None
        } else {
            Some(k - 1)
        },
    decreases s.len(),
{
    if s.len() == 0 {
    } else if p(s.last()) {
    } else {
        let rest = s.drop_last();
        assert forall|j: int| k <= j < rest.len() implies !p(rest[j]) by {
            assert(rest[j] == s[j]);
        }
        if k > 0 {
            assert(rest[k - 1] == s[k - 1]);
        }
        lemma_last_where_is(rest, p, k);
    }
}

/// What the last index says: `p` holds there and nowhere behind; where
/// there is none, `p` holds nowhere.
pub proof fn lemma_last_where<A>(s: Seq<A>, p: spec_fn(A) -> bool)
    ensures
        match last_where(s, p) {
            Some(k) => 0 <= k < s.len() && p(s[k]) && forall|j: int| k < j < s.len() ==> !p(s[j]),
            None => forall|j: int| 0 <= j < s.len() ==> !p(s[j]),
        },
    decreases s.len(),
{
    if s.len() == 0 {
    } else if p(s.last()) {
    } else {
        let rest = s.drop_last();
        lemma_last_where(rest, p);
        match last_where(rest, p) {
            Some(k) => {
                assert(rest[k] == s[k]);
                assert forall|j: int| k < j < s.len() implies !p(s[j]) by {
                    if j < rest.len() {
                        assert(rest[j] == s[j]);
                    }
                }
            },
            None => {
                assert forall|j: int| 0 <= j < s.len() implies !p(s[j]) by {
                    if j < rest.len() {
                        assert(rest[j] == s[j]);
                    }
                }
            },
        }
    }
}

} // verus!
