//! First-match search over sequences: the one notion of "the first item
//! that satisfies a condition" that lookups across the crate share.

use vstd::prelude::*;

verus! {

/// Index of the first item of `s` that satisfies `p`.
pub open spec fn first_match<A>(s: Seq<A>, p: spec_fn(A) -> bool) -> Option<int>
    decreases s.len(),
{
    if s.len() == 0 {
        None
    } else {
        match first_match(s.drop_last(), p) {
            Some(i) => Some(i),
            None => if p(s.last()) {
                Some(s.len() - 1)
            } else {
                None
            },
        }
    }
}

/// What `first_match` gives, told by its properties: the index of a
/// satisfying item with none before it, or `None` when no item satisfies.
pub proof fn lemma_first_match<A>(s: Seq<A>, p: spec_fn(A) -> bool)
    ensures
        first_match(s, p) matches Some(i) ==> 0 <= i < s.len() && p(s[i]) && forall|j: int|
            0 <= j < i ==> !p(#[trigger] s[j]),
        first_match(s, p) is None ==> forall|j: int| 0 <= j < s.len() ==> !p(#[trigger] s[j]),
    decreases s.len(),
{
    if s.len() > 0 {
        lemma_first_match(s.drop_last(), p);
        assert forall|j: int| 0 <= j < s.len() - 1 implies #[trigger] s[j] == s.drop_last()[j] by {}
    }
}

/// An index whose item satisfies `p`, with none before it, is the first
/// match.
pub proof fn lemma_first_match_at<A>(s: Seq<A>, p: spec_fn(A) -> bool, i: int)
    requires
        0 <= i < s.len(),
        p(s[i]),
        forall|j: int| 0 <= j < i ==> !p(#[trigger] s[j]),
    ensures
        first_match(s, p) == Some(i),
{
    lemma_first_match(s, p);
    if first_match(s, p) is None {
        assert(!p(s[i]));
    } else {
        let k = first_match(s, p)->0;
        if k < i {
            assert(!p(s[k]));
        } else if k > i {
            assert(!p(s[i]));
        }
    }
}

/// When no item satisfies `p`, there is no first match.
pub proof fn lemma_first_match_none<A>(s: Seq<A>, p: spec_fn(A) -> bool)
    requires
        forall|j: int| 0 <= j < s.len() ==> !p(#[trigger] s[j]),
    ensures
        first_match(s, p) is None,
{
    lemma_first_match(s, p);
    if first_match(s, p) is Some {
        let k = first_match(s, p)->0;
        assert(!p(s[k]));
    }
}

/// Replacing an item by one that `p` judges alike keeps the first match.
pub proof fn lemma_first_match_update<A>(s: Seq<A>, p: spec_fn(A) -> bool, i: int, x: A)
    requires
        0 <= i < s.len(),
        p(x) == p(s[i]),
    ensures
        first_match(s.update(i, x), p) == first_match(s, p),
{
    let t = s.update(i, x);
    lemma_first_match(s, p);
    lemma_first_match(t, p);
    assert forall|j: int| 0 <= j < s.len() implies p(#[trigger] t[j]) == p(s[j]) by {
        if j == i {
        } else {
            assert(t[j] == s[j]);
        }
    }
    if first_match(s, p) is Some {
        let k = first_match(s, p)->0;
        assert forall|j: int| 0 <= j < k implies !p(#[trigger] t[j]) by {
            assert(p(t[j]) == p(s[j]));
        }
        assert(p(t[k]) == p(s[k]));
        lemma_first_match_at(t, p, k);
    } else {
        assert forall|j: int| 0 <= j < t.len() implies !p(#[trigger] t[j]) by {
            assert(p(t[j]) == p(s[j]));
        }
        lemma_first_match_none(t, p);
    }
}

/// Appending an item keeps an existing first match, and otherwise finds
/// the new item when it satisfies `p`.
pub proof fn lemma_first_match_push<A>(s: Seq<A>, p: spec_fn(A) -> bool, x: A)
    ensures
        first_match(s.push(x), p) == match first_match(s, p) {
            Some(i) => Some(i),
            None => if p(x) {
                Some(s.len() as int)
            } else {
                None
            },
        },
{
    assert(s.push(x).drop_last() =~= s);
}

/// Position in `s` of its first item under the strict order `before`.
pub open spec fn least_pos(s: Seq<int>, before: spec_fn(int, int) -> bool) -> int
    decreases s.len(),
{
    if s.len() <= 1 {
        0
    } else {
        let k = least_pos(s.drop_last(), before);
        if before(s.last(), s[k]) {
            s.len() - 1
        } else {
            k
        }
    }
}

/// The items of `s` arranged under `before`: the first item, then the
/// rest arranged the same way.
pub open spec fn order_by(s: Seq<int>, before: spec_fn(int, int) -> bool) -> Seq<int>
    decreases s.len(),
{
    if s.len() == 0 {
        s
    } else {
        let k = least_pos(s, before);
        if 0 <= k < s.len() {
            seq![s[k]] + order_by(s.remove(k), before)
        } else {
            s
        }
    }
}

/// `0, 1, …, n - 1`.
pub open spec fn upto(n: int) -> Seq<int> {
    Seq::new(n as nat, |i: int| i)
}

} // verus!
