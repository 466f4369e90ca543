//! First-match search in a sequence, as a document store answers a filter.

use vstd::prelude::*;

verus! {

/// Index of the first element of `s` that satisfies `p`, or `s.len()` if none does.
pub open spec fn first_index<T>(s: Seq<T>, p: spec_fn(T) -> bool) -> int
    decreases s.len(),
{
    if s.len() == 0 {
        0
    } else if p(s[0]) {
        0
    } else {
        1 + first_index(s.drop_first(), p)
    }
}

/// Some element of `s` satisfies `p`.
pub open spec fn any<T>(s: Seq<T>, p: spec_fn(T) -> bool) -> bool {
    first_index(s, p) < s.len()
}

/// The first element of `s` that satisfies `p`.
pub open spec fn find_one<T>(s: Seq<T>, p: spec_fn(T) -> bool) -> Option<T> {
    if any(s, p) {
        Some(s[first_index(s, p)])
    } else {
        None
    }
}

/// `s` without its first element that satisfies `p`.
pub open spec fn delete_one<T>(s: Seq<T>, p: spec_fn(T) -> bool) -> Seq<T> {
    if any(s, p) {
        s.remove(first_index(s, p))
    } else {
        s
    }
}

/// `s` with `f` applied to its first element that satisfies `p`.
pub open spec fn update_one<T>(s: Seq<T>, p: spec_fn(T) -> bool, f: spec_fn(T) -> T) -> Seq<T> {
    if any(s, p) {
        s.update(first_index(s, p), f(s[first_index(s, p)]))
    } else {
        s
    }
}

/// The views of the elements of `s`, in order.
pub open spec fn views<T: View>(s: Seq<T>) -> Seq<T::V> {
    s.map_values(|x: T| x@)
}

/// `first_index` lies within `0..=s.len()`, points at a match when inside, and
/// nothing before it matches.
pub proof fn lemma_first_index<T>(s: Seq<T>, p: spec_fn(T) -> bool)
    ensures
        0 <= first_index(s, p) <= s.len(),
        first_index(s, p) < s.len() ==> p(s[first_index(s, p)]),
        forall|j: int| 0 <= j < first_index(s, p) ==> !p(#[trigger] s[j]),
    decreases s.len(),
{
    if s.len() > 0 && !p(s[0]) {
        let t = s.drop_first();
        lemma_first_index(t, p);
        assert forall|j: int| 0 <= j < first_index(s, p) implies !p(#[trigger] s[j]) by {
            if j > 0 {
                assert(s[j] == t[j - 1]);
            }
        }
    }
}

/// An index with a match and no match before it is the first index.
pub proof fn lemma_first_index_at<T>(s: Seq<T>, p: spec_fn(T) -> bool, i: int)
    requires
        0 <= i <= s.len(),
        i < s.len() ==> p(s[i]),
        forall|j: int| 0 <= j < i ==> !p(#[trigger] s[j]),
    ensures
        first_index(s, p) == i,
{
    lemma_first_index(s, p);
    let k = first_index(s, p);
    if k < i {
        assert(!p(s[k]));
    } else if i < k {
        assert(!p(s[i]));
    }
}

/// After a push, the first match is the old one, or the new element if there
/// was none and it matches.
pub proof fn lemma_first_index_push<T>(s: Seq<T>, p: spec_fn(T) -> bool, x: T)
    ensures
        first_index(s.push(x), p) == if any(s, p) || p(x) {
            first_index(s, p)
        } else {
            s.len() as int + 1
        },
{
    lemma_first_index(s, p);
    let i = first_index(s, p);
    let t = s.push(x);
    if i < s.len() {
        assert(t[i] == s[i]);
        assert forall|j: int| 0 <= j < i implies !p(#[trigger] t[j]) by {
            assert(t[j] == s[j]);
        }
        lemma_first_index_at(t, p, i);
    } else if p(x) {
        assert forall|j: int| 0 <= j < i implies !p(#[trigger] t[j]) by {
            assert(t[j] == s[j]);
        }
        lemma_first_index_at(t, p, i);
    } else {
        assert forall|j: int| 0 <= j < t.len() implies !p(#[trigger] t[j]) by {
            if j < s.len() {
                assert(t[j] == s[j]);
            }
        }
        lemma_first_index_at(t, p, t.len() as int);
    }
}

/// At most one element of `s` satisfies `p`.
pub open spec fn at_most_one<T>(s: Seq<T>, p: spec_fn(T) -> bool) -> bool {
    forall|i: int, j: int| 0 <= i < j < s.len() ==> !(p(#[trigger] s[i]) && p(#[trigger] s[j]))
}

/// An element that satisfies `p` makes `any` true.
pub proof fn lemma_any_witness<T>(s: Seq<T>, p: spec_fn(T) -> bool, i: int)
    requires
        0 <= i < s.len(),
        p(s[i]),
    ensures
        any(s, p),
{
    lemma_first_index(s, p);
}

/// After a push there is a match exactly if there was one or the new
/// element is one.
pub proof fn lemma_any_push<T>(s: Seq<T>, p: spec_fn(T) -> bool, x: T)
    ensures
        any(s.push(x), p) <==> any(s, p) || p(x),
{
    lemma_first_index(s, p);
    lemma_first_index_push(s, p, x);
}

/// Where at most one element matches, removing the first match leaves none.
pub proof fn lemma_delete_one_removes<T>(s: Seq<T>, p: spec_fn(T) -> bool)
    requires
        at_most_one(s, p),
    ensures
        !any(delete_one(s, p), p),
{
    lemma_first_index(s, p);
    let i = first_index(s, p);
    let t = delete_one(s, p);
    lemma_first_index(t, p);
    let k = first_index(t, p);
    if i < s.len() && k < t.len() {
        if k < i {
            assert(t[k] == s[k]);
        } else {
            assert(t[k] == s[k + 1]);
        }
    }
}

/// Updating the first match keeps it the first match, where the update
/// leaves it a match.
pub proof fn lemma_update_one_keeps_first<T>(s: Seq<T>, p: spec_fn(T) -> bool, f: spec_fn(T) -> T)
    requires
        any(s, p) ==> p(f(s[first_index(s, p)])),
    ensures
        first_index(update_one(s, p, f), p) == first_index(s, p),
        update_one(s, p, f).len() == s.len(),
{
    lemma_first_index(s, p);
    let i = first_index(s, p);
    let t = update_one(s, p, f);
    assert forall|j: int| 0 <= j < i implies !p(#[trigger] t[j]) by {
        assert(t[j] == s[j]);
    }
    lemma_first_index_at(t, p, i);
}

} // verus!
