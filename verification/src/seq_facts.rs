//! Facts about filtered sequences that the table proofs rest on.

use vstd::prelude::*;

verus! {

/// A filter that no element passes leaves nothing.
pub proof fn lemma_filter_nothing<A>(s: Seq<A>, pred: spec_fn(A) -> bool)
    requires
        forall|i: int| 0 <= i < s.len() ==> !pred(#[trigger] s[i]),
    ensures
        s.filter(pred) == Seq::<A>::empty(),
    decreases s.len(),
{
    reveal(Seq::filter);
    if s.len() > 0 {
        lemma_filter_nothing(s.drop_last(), pred);
    }
}

/// A filter that every element passes changes nothing.
pub proof fn lemma_filter_everything<A>(s: Seq<A>, pred: spec_fn(A) -> bool)
    requires
        forall|i: int| 0 <= i < s.len() ==> pred(#[trigger] s[i]),
    ensures
        s.filter(pred) == s,
    decreases s.len(),
{
    reveal(Seq::filter);
    if s.len() > 0 {
        lemma_filter_everything(s.drop_last(), pred);
        assert(s.drop_last().push(s.last()) =~= s);
    }
}

/// Filtering by `inner` first does not change what `outer` selects, as long
/// as every element that passes `outer` also passes `inner`.
pub proof fn lemma_filter_twice<A>(s: Seq<A>, inner: spec_fn(A) -> bool, outer: spec_fn(A) -> bool)
    requires
        forall|i: int| 0 <= i < s.len() && outer(#[trigger] s[i]) ==> inner(s[i]),
    ensures
        s.filter(inner).filter(outer) == s.filter(outer),
    decreases s.len(),
{
    reveal(Seq::filter);
    if s.len() > 0 {
        let rest = s.drop_last();
        lemma_filter_twice(rest, inner, outer);
        if inner(s.last()) {
            rest.filter(inner).lemma_filter_push(s.last(), outer);
        }
    }
}

/// Every element of a filtered sequence passes the filter and comes from
/// the sequence: the result is a position at which it stands there.
pub proof fn lemma_filter_origin<A>(s: Seq<A>, pred: spec_fn(A) -> bool, j: int) -> (i: int)
    requires
        0 <= j < s.filter(pred).len(),
    ensures
        0 <= i < s.len(),
        s[i] == s.filter(pred)[j],
        pred(s[i]),
{
    let kept = s.filter(pred);
    s.lemma_filter_pred(pred, j);
    assert(kept.contains(kept[j]));
    s.lemma_filter_contains_rev(pred, kept[j]);
    choose|i: int| 0 <= i < s.len() && s[i] == kept[j]
}

/// Every element that passes the filter stands in the filtered sequence:
/// the result is a position at which it stands there.
pub proof fn lemma_filter_keeps<A>(s: Seq<A>, pred: spec_fn(A) -> bool, i: int) -> (j: int)
    requires
        0 <= i < s.len(),
        pred(s[i]),
    ensures
        0 <= j < s.filter(pred).len(),
        s.filter(pred)[j] == s[i],
{
    s.lemma_filter_contains(pred, i);
    choose|j: int| 0 <= j < s.filter(pred).len() && s.filter(pred)[j] == s[i]
}

/// Where no two elements of a sequence share a key, no two elements of a
/// filtered sequence do.
pub proof fn lemma_filter_distinct<A>(
    s: Seq<A>,
    pred: spec_fn(A) -> bool,
    key: spec_fn(A) -> int,
)
    requires
        forall|i: int, j: int|
            0 <= i < j < s.len() ==> key(#[trigger] s[i]) != key(#[trigger] s[j]),
    ensures
        forall|i: int, j: int|
            0 <= i < j < s.filter(pred).len() ==> key(#[trigger] s.filter(pred)[i]) != key(
                #[trigger] s.filter(pred)[j],
            ),
    decreases s.len(),
{
    reveal(Seq::filter);
    if s.len() > 0 {
        let rest = s.drop_last();
        let last = s.last();
        lemma_filter_distinct(rest, pred, key);
        let kept_rest = rest.filter(pred);
        let kept = s.filter(pred);
        if pred(last) {
            assert forall|i: int, j: int| 0 <= i < j < kept.len() implies key(kept[i]) != key(
                kept[j],
            ) by {
                if j < kept_rest.len() {
                    assert(kept[i] == kept_rest[i]);
                    assert(kept[j] == kept_rest[j]);
                } else {
                    let k = lemma_filter_origin(rest, pred, i);
                    assert(rest[k] == s[k]);
                    assert(kept[i] == kept_rest[i]);
                    assert(kept[j] == s[s.len() - 1]);
                }
            }
        }
    }
}

/// Filtering from position `i` on: the element at `i` comes first if it
/// passes, then whatever the filter leaves of the elements after it.
pub proof fn lemma_filter_from<A>(s: Seq<A>, pred: spec_fn(A) -> bool, i: int)
    requires
        0 <= i < s.len(),
    ensures
        s.skip(i).filter(pred) == if pred(s[i]) {
            seq![s[i]] + s.skip(i + 1).filter(pred)
        } else {
            s.skip(i + 1).filter(pred)
        },
{
    let head = seq![s[i]];
    assert(s.skip(i) =~= head + s.skip(i + 1));
    Seq::filter_distributes_over_add(head, s.skip(i + 1), pred);
    assert(head =~= Seq::<A>::empty().push(s[i]));
    Seq::<A>::empty().lemma_filter_push(s[i], pred);
    lemma_filter_nothing(Seq::<A>::empty(), pred);
    if pred(s[i]) {
        assert(head.filter(pred) =~= head);
    } else {
        assert(head.filter(pred) + s.skip(i + 1).filter(pred) =~= s.skip(i + 1).filter(pred));
    }
}

/// Filtering up to position `i + 1`: whatever the filter leaves of the
/// elements before `i`, then the element at `i` if it passes.
pub proof fn lemma_filter_upto<A>(s: Seq<A>, pred: spec_fn(A) -> bool, i: int)
    requires
        0 <= i < s.len(),
    ensures
        s.take(i + 1).filter(pred) == if pred(s[i]) {
            s.take(i).filter(pred).push(s[i])
        } else {
            s.take(i).filter(pred)
        },
{
    assert(s.take(i + 1) =~= s.take(i).push(s[i]));
    s.take(i).lemma_filter_push(s[i], pred);
}

} // verus!
