//! Small general facts about `Seq::filter`, used across the crate.

use vstd::prelude::*;

verus! {

/// Filtering a singleton keeps or drops its one element.
pub proof fn lemma_filter_single<T>(a: T, pred: spec_fn(T) -> bool)
    ensures
        seq![a].filter(pred) == if pred(a) {
            seq![a]
        } else {
            Seq::<T>::empty()
        },
{
    reveal_with_fuel(Seq::filter, 3);
    assert(seq![a].drop_last() =~= Seq::<T>::empty());
    if pred(a) {
        assert(seq![a].filter(pred) =~= seq![a]);
    }
}

/// Filtering by a predicate at least as strict as an earlier filter sees
/// through that earlier filter.
pub proof fn lemma_filter_subsumed<T>(s: Seq<T>, p: spec_fn(T) -> bool, q: spec_fn(T) -> bool)
    requires
        forall|a: T| #[trigger] q(a) ==> p(a),
    ensures
        s.filter(p).filter(q) == s.filter(q),
    decreases s.len(),
{
    reveal_with_fuel(Seq::filter, 2);
    if s.len() == 0 {
        assert(s.filter(p) =~= s);
    } else {
        lemma_filter_subsumed(s.drop_last(), p, q);
        lemma_filter_single(s.last(), p);
        lemma_filter_single(s.last(), q);
        Seq::<T>::filter_distributes_over_add(s.drop_last(), seq![s.last()], p);
        Seq::<T>::filter_distributes_over_add(s.drop_last(), seq![s.last()], q);
        Seq::<T>::filter_distributes_over_add(
            s.drop_last().filter(p),
            seq![s.last()].filter(p),
            q,
        );
        assert(s.drop_last() + seq![s.last()] =~= s);
        assert(s.filter(p).filter(q) =~= s.filter(q));
    }
}

/// Every element of a filtered sequence is an element of the source.
pub proof fn lemma_filter_elems<T>(s: Seq<T>, pred: spec_fn(T) -> bool)
    ensures
        forall|k: int|
            0 <= k < s.filter(pred).len() ==> exists|m: int|
                0 <= m < s.len() && #[trigger] s.filter(pred)[k] == s[m],
    decreases s.len(),
{
    reveal_with_fuel(Seq::filter, 2);
    if s.len() == 0 {
    } else {
        lemma_filter_elems(s.drop_last(), pred);
        let f = s.filter(pred);
        let g = s.drop_last().filter(pred);
        assert forall|k: int| 0 <= k < f.len() implies exists|m: int|
            0 <= m < s.len() && #[trigger] f[k] == s[m] by {
            if pred(s.last()) && k == f.len() - 1 {
                assert(f[k] == s[s.len() - 1]);
            } else {
                assert(f[k] == g[k]);
                let m = choose|m: int| 0 <= m < s.drop_last().len() && g[k] == s.drop_last()[m];
                assert(f[k] == s[m]);
            }
        }
    }
}

/// When the head passes the filter, it heads the filtered sequence.
pub proof fn lemma_filter_head<T>(s: Seq<T>, pred: spec_fn(T) -> bool)
    requires
        s.len() > 0,
        pred(s[0]),
    ensures
        s.filter(pred).len() > 0,
        s.filter(pred)[0] == s[0],
    decreases s.len(),
{
    reveal_with_fuel(Seq::filter, 2);
    if s.len() == 1 {
        assert(s.filter(pred) =~= seq![s[0]]);
    } else {
        assert(s.drop_last()[0] == s[0]);
        lemma_filter_head(s.drop_last(), pred);
    }
}

} // verus!
