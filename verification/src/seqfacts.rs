//! General facts about `Seq::filter` and `Seq::map_values` that the resolver
//! and its laws rely on.

use vstd::prelude::*;

verus! {

/// Filtering one more element of a prefix keeps the filtered prefix and
/// appends the new element exactly when the predicate holds of it.
pub proof fn lemma_filter_take_step<A>(s: Seq<A>, pred: spec_fn(A) -> bool, i: int)
    requires
        0 <= i < s.len(),
    ensures
        s.take(i + 1).filter(pred) == if pred(s[i]) {
            s.take(i).filter(pred).push(s[i])
        } else {
            s.take(i).filter(pred)
        },
{
    reveal(Seq::filter);
    assert(s.take(i + 1).drop_last() =~= s.take(i));
    assert(s.take(i + 1).last() == s[i]);
}

/// `map_values` distributes over `push`.
pub proof fn lemma_map_values_push<A, B>(s: Seq<A>, f: spec_fn(A) -> B, x: A)
    ensures
        s.push(x).map_values(f) == s.map_values(f).push(f(x)),
{
    assert(s.push(x).map_values(f) =~= s.map_values(f).push(f(x)));
}

/// A sequence none of whose elements satisfies the predicate filters to the
/// empty sequence.
pub proof fn lemma_filter_all_excluded<A>(s: Seq<A>, pred: spec_fn(A) -> bool)
    requires
        forall|i: int| 0 <= i < s.len() ==> !pred(s[i]),
    ensures
        s.filter(pred) == Seq::<A>::empty(),
    decreases s.len(),
{
    reveal(Seq::filter);
    if s.len() == 0 {
        assert(s =~= Seq::<A>::empty());
    } else {
        lemma_filter_all_excluded(s.drop_last(), pred);
        assert(!pred(s.last()));
    }
}

/// A sequence whose only element satisfying the predicate stands at index `i`
/// filters to the one-element sequence holding it.
pub proof fn lemma_filter_unique<A>(s: Seq<A>, pred: spec_fn(A) -> bool, i: int)
    requires
        0 <= i < s.len(),
        pred(s[i]),
        forall|j: int| 0 <= j < s.len() && j != i ==> !pred(s[j]),
    ensures
        s.filter(pred) == seq![s[i]],
    decreases s.len(),
{
    reveal(Seq::filter);
    if i == s.len() - 1 {
        lemma_filter_all_excluded(s.drop_last(), pred);
        assert(s.filter(pred) =~= seq![s[i]]);
    } else {
        assert(!pred(s.last()));
        lemma_filter_unique(s.drop_last(), pred, i);
        assert(s.drop_last()[i] == s[i]);
    }
}

/// A satisfying element makes the filtered sequence non-empty.
pub proof fn lemma_filter_at_least_one<A>(s: Seq<A>, pred: spec_fn(A) -> bool, i: int)
    requires
        0 <= i < s.len(),
        pred(s[i]),
    ensures
        s.filter(pred).len() >= 1,
    decreases s.len(),
{
    reveal(Seq::filter);
    if i < s.len() - 1 {
        lemma_filter_at_least_one(s.drop_last(), pred, i);
        assert(s.drop_last()[i] == s[i]);
    }
}

/// Two distinct satisfying elements make the filtered sequence hold at least
/// two elements.
pub proof fn lemma_filter_pair<A>(s: Seq<A>, pred: spec_fn(A) -> bool, i: int, j: int)
    requires
        0 <= i < j < s.len(),
        pred(s[i]),
        pred(s[j]),
    ensures
        s.filter(pred).len() >= 2,
    decreases s.len(),
{
    reveal(Seq::filter);
    if j == s.len() - 1 {
        lemma_filter_at_least_one(s.drop_last(), pred, i);
        assert(s.drop_last()[i] == s[i]);
    } else {
        lemma_filter_pair(s.drop_last(), pred, i, j);
        assert(s.drop_last()[i] == s[i]);
        assert(s.drop_last()[j] == s[j]);
    }
}

} // verus!
