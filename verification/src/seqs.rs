use vstd::prelude::*;

verus! {

/// The first position at or after `i` whose element satisfies `pred`.
pub open spec fn first_from<A>(s: Seq<A>, pred: spec_fn(A) -> bool, i: int) -> Option<int>
    decreases s.len() - i,
{
    if 0 <= i < s.len() {
        if pred(s[i]) {
            Some(i)
        } else {
            first_from(s, pred, i + 1)
        }
    } else {
        None
    }
}

/// The first element of `s` that satisfies `pred`.
pub open spec fn first_value<A>(s: Seq<A>, pred: spec_fn(A) -> bool) -> Option<A> {
    match first_from(s, pred, 0) {
        Some(k) => Some(s[k]),
        None => None,
    }
}

/// Skipping elements that fail `pred` does not change where the search lands.
pub proof fn lemma_first_from_skip<A>(s: Seq<A>, pred: spec_fn(A) -> bool, a: int, b: int)
    requires
        0 <= a <= b <= s.len(),
        forall|j: int| a <= j < b ==> !pred(#[trigger] s[j]),
    ensures
        first_from(s, pred, a) == first_from(s, pred, b),
    decreases b - a,
{
    if a < b {
        lemma_first_from_skip(s, pred, a + 1, b);
    }
}

/// What the search result says about the sequence.
pub proof fn lemma_first_from_result<A>(s: Seq<A>, pred: spec_fn(A) -> bool, i: int)
    requires
        0 <= i,
    ensures
        match first_from(s, pred, i) {
            Some(k) => i <= k < s.len() && pred(s[k]) && forall|j: int|
                i <= j < k ==> !pred(#[trigger] s[j]),
            None => forall|j: int| i <= j < s.len() ==> !pred(#[trigger] s[j]),
        },
    decreases s.len() - i,
{
    if i < s.len() && !pred(s[i]) {
        lemma_first_from_result(s, pred, i + 1);
    }
}

/// A position that satisfies `pred`, with none before it, is the search result.
pub proof fn lemma_first_from_is<A>(s: Seq<A>, pred: spec_fn(A) -> bool, i: int, k: int)
    requires
        0 <= i <= k < s.len(),
        pred(s[k]),
        forall|j: int| i <= j < k ==> !pred(#[trigger] s[j]),
    ensures
        first_from(s, pred, i) == Some(k),
{
    lemma_first_from_skip(s, pred, i, k);
}

/// When no element satisfies `pred`, the search finds nothing.
pub proof fn lemma_first_from_none<A>(s: Seq<A>, pred: spec_fn(A) -> bool, i: int)
    requires
        0 <= i <= s.len(),
        forall|j: int| i <= j < s.len() ==> !pred(#[trigger] s[j]),
    ensures
        first_from(s, pred, i) is None,
{
    lemma_first_from_skip(s, pred, i, s.len() as int);
}

/// Removing an element that fails `pred` does not change the first element found.
pub proof fn lemma_first_value_remove<A>(s: Seq<A>, pred: spec_fn(A) -> bool, r: int)
    requires
        0 <= r < s.len(),
        !pred(s[r]),
    ensures
        first_value(s.remove(r), pred) == first_value(s, pred),
{
    let t = s.remove(r);
    lemma_first_from_result(s, pred, 0);
    match first_from(s, pred, 0) {
        Some(k) => {
            let k2 = if k < r { k } else { k - 1 };
            assert(t[k2] == s[k]);
            assert forall|j: int| 0 <= j < k2 implies !pred(#[trigger] t[j]) by {
                if j < r {
                    assert(t[j] == s[j]);
                } else {
                    assert(t[j] == s[j + 1]);
                }
            }
            lemma_first_from_is(t, pred, 0, k2);
        },
        None => {
            assert forall|j: int| 0 <= j < t.len() implies !pred(#[trigger] t[j]) by {
                if j < r {
                    assert(t[j] == s[j]);
                } else {
                    assert(t[j] == s[j + 1]);
                }
            }
            lemma_first_from_none(t, pred, 0);
        },
    }
}

/// The last element of `s` that satisfies `pred`.
pub open spec fn last_value<A>(s: Seq<A>, pred: spec_fn(A) -> bool) -> Option<A>
    decreases s.len(),
{
    if s.len() == 0 {
        None
    } else if pred(s.last()) {
        Some(s.last())
    } else {
        last_value(s.drop_last(), pred)
    }
}

/// Extending a sequence by one element moves the last match to it when it matches.
pub proof fn lemma_last_value_push<A>(s: Seq<A>, pred: spec_fn(A) -> bool, a: A)
    ensures
        last_value(s.push(a), pred) == if pred(a) {
            Some(a)
        } else {
            last_value(s, pred)
        },
{
    assert(s.push(a).drop_last() =~= s);
}

/// The elements of `s` that satisfy `pred`, in order.
pub open spec fn keep<A>(s: Seq<A>, pred: spec_fn(A) -> bool) -> Seq<A>
    decreases s.len(),
{
    if s.len() == 0 {
        Seq::empty()
    } else if pred(s.last()) {
        keep(s.drop_last(), pred).push(s.last())
    } else {
        keep(s.drop_last(), pred)
    }
}

/// Extending a sequence by one element extends what is kept of it when the element is kept.
pub proof fn lemma_keep_push<A>(s: Seq<A>, pred: spec_fn(A) -> bool, a: A)
    ensures
        keep(s.push(a), pred) == if pred(a) {
            keep(s, pred).push(a)
        } else {
            keep(s, pred)
        },
{
    assert(s.push(a).drop_last() =~= s);
}

} // verus!
