//! Priority ordering of match results: a stable descending insertion sort,
//! specified recursively, with the two facts callers need proved of it —
//! results are sorted by descending priority, and rules of equal priority
//! keep their source order.

use vstd::prelude::*;

use crate::seqs::{lemma_filter_elems, lemma_filter_single};
use crate::types::{views_of_actions, ContextAction, ContextActionView};

verus! {

/// Descending by `scope.priority`.
pub open spec fn sorted_desc(s: Seq<ContextActionView>) -> bool {
    forall|i: int, j: int|
        0 <= i <= j < s.len() ==> s[i].scope.priority >= s[j].scope.priority
}

/// The subsequence of `s` with priority exactly `p`, in order.
pub open spec fn with_priority(s: Seq<ContextActionView>, p: int) -> Seq<ContextActionView> {
    s.filter(|a: ContextActionView| a.scope.priority == p)
}

/// Insert `a` after every element of at least its priority: on a sorted
/// sequence this places `a` behind all earlier elements of equal priority.
pub open spec fn insert_desc(s: Seq<ContextActionView>, a: ContextActionView) -> Seq<
    ContextActionView,
>
    decreases s.len(),
{
    if s.len() == 0 {
        seq![a]
    } else if a.scope.priority > s[0].scope.priority {
        seq![a] + s
    } else {
        seq![s[0]] + insert_desc(s.drop_first(), a)
    }
}

/// Stable insertion sort, descending by priority.
pub open spec fn stable_sort_desc(s: Seq<ContextActionView>) -> Seq<ContextActionView>
    decreases s.len(),
{
    if s.len() == 0 {
        Seq::empty()
    } else {
        insert_desc(stable_sort_desc(s.drop_last()), s.last())
    }
}

/// Every element of `insert_desc(s, a)` is `a` or an element of `s`.
proof fn lemma_insert_desc_elems(s: Seq<ContextActionView>, a: ContextActionView)
    ensures
        insert_desc(s, a).len() == s.len() + 1,
        forall|k: int|
            0 <= k < insert_desc(s, a).len() ==> (#[trigger] insert_desc(s, a)[k] == a || exists|m:
            int| 0 <= m < s.len() && insert_desc(s, a)[k] == s[m]),
    decreases s.len(),
{
    if s.len() == 0 {
    } else if a.scope.priority > s[0].scope.priority {
        assert forall|k: int| 0 <= k < insert_desc(s, a).len() implies (#[trigger] insert_desc(
            s,
            a,
        )[k] == a || exists|m: int| 0 <= m < s.len() && insert_desc(s, a)[k] == s[m]) by {
            if k > 0 {
                assert(insert_desc(s, a)[k] == s[k - 1]);
            }
        }
    } else {
        lemma_insert_desc_elems(s.drop_first(), a);
        assert forall|k: int| 0 <= k < insert_desc(s, a).len() implies (#[trigger] insert_desc(
            s,
            a,
        )[k] == a || exists|m: int| 0 <= m < s.len() && insert_desc(s, a)[k] == s[m]) by {
            if k > 0 {
                let t = insert_desc(s.drop_first(), a);
                assert(insert_desc(s, a)[k] == t[k - 1]);
                if t[k - 1] != a {
                    let m = choose|m: int|
                        0 <= m < s.drop_first().len() && t[k - 1] == s.drop_first()[m];
                    assert(insert_desc(s, a)[k] == s[m + 1]);
                }
            }
        }
    }
}

/// Inserting into a sorted sequence keeps it sorted.
proof fn lemma_insert_desc_sorted(s: Seq<ContextActionView>, a: ContextActionView)
    requires
        sorted_desc(s),
    ensures
        sorted_desc(insert_desc(s, a)),
    decreases s.len(),
{
    lemma_insert_desc_elems(s, a);
    if s.len() == 0 {
    } else if a.scope.priority > s[0].scope.priority {
    } else {
        assert(sorted_desc(s.drop_first()));
        lemma_insert_desc_sorted(s.drop_first(), a);
        lemma_insert_desc_elems(s.drop_first(), a);
        let r = insert_desc(s, a);
        let t = insert_desc(s.drop_first(), a);
        assert forall|i: int, j: int|
            0 <= i <= j < r.len() implies r[i].scope.priority >= r[j].scope.priority by {
            if i == 0 && j > 0 {
                assert(r[j] == t[j - 1]);
                if t[j - 1] == a {
                } else {
                    let m = choose|m: int|
                        0 <= m < s.drop_first().len() && t[j - 1] == s.drop_first()[m];
                    assert(s.drop_first()[m] == s[m + 1]);
                }
            } else if i > 0 {
                assert(r[i] == t[i - 1] && r[j] == t[j - 1]);
            }
        }
    }
}

/// Where the inserted element lands among the elements of its own priority:
/// at the end. Stated as: filtering any priority class commutes with the
/// insertion, with `a` appended to its own class.
proof fn lemma_insert_desc_filter(s: Seq<ContextActionView>, a: ContextActionView, p: int)
    requires
        sorted_desc(s),
    ensures
        with_priority(insert_desc(s, a), p) == if a.scope.priority == p {
            with_priority(s, p).push(a)
        } else {
            with_priority(s, p)
        },
    decreases s.len(),
{
    let pred = |x: ContextActionView| x.scope.priority == p;
    lemma_filter_single(a, pred);
    if s.len() == 0 {
        assert(with_priority(s, p) =~= Seq::<ContextActionView>::empty());
        if a.scope.priority == p {
            assert(with_priority(s, p).push(a) =~= seq![a]);
        }
    } else if a.scope.priority > s[0].scope.priority {
        Seq::<ContextActionView>::filter_distributes_over_add(seq![a], s, pred);
        if a.scope.priority == p {
            // every element of s has a lower priority than a, so none has priority p
            lemma_with_priority_empty(s, p);
            assert(with_priority(insert_desc(s, a), p) =~= with_priority(s, p).push(a));
        } else {
            assert(with_priority(insert_desc(s, a), p) =~= with_priority(s, p));
        }
    } else {
        assert(sorted_desc(s.drop_first()));
        lemma_insert_desc_filter(s.drop_first(), a, p);
        lemma_filter_single(s[0], pred);
        Seq::<ContextActionView>::filter_distributes_over_add(
            seq![s[0]],
            insert_desc(s.drop_first(), a),
            pred,
        );
        Seq::<ContextActionView>::filter_distributes_over_add(seq![s[0]], s.drop_first(), pred);
        assert(seq![s[0]] + s.drop_first() =~= s);
        if a.scope.priority == p {
            assert(with_priority(insert_desc(s, a), p) =~= with_priority(s, p).push(a));
        } else {
            assert(with_priority(insert_desc(s, a), p) =~= with_priority(s, p));
        }
    }
}

/// A sequence sorted strictly below `p` has an empty `p`-class.
proof fn lemma_with_priority_empty(s: Seq<ContextActionView>, p: int)
    requires
        forall|i: int| 0 <= i < s.len() ==> s[i].scope.priority < p,
    ensures
        with_priority(s, p) == Seq::<ContextActionView>::empty(),
    decreases s.len(),
{
    reveal_with_fuel(Seq::filter, 2);
    if s.len() == 0 {
        assert(with_priority(s, p) =~= Seq::<ContextActionView>::empty());
    } else {
        lemma_with_priority_empty(s.drop_last(), p);
    }
}

/// The sort returns a sorted sequence.
pub proof fn lemma_stable_sort_sorted(s: Seq<ContextActionView>)
    ensures
        sorted_desc(stable_sort_desc(s)),
    decreases s.len(),
{
    if s.len() == 0 {
    } else {
        lemma_stable_sort_sorted(s.drop_last());
        lemma_insert_desc_sorted(stable_sort_desc(s.drop_last()), s.last());
    }
}

/// Stability: within each priority class the sort is the identity — the
/// elements of any one priority come out exactly as they went in.
pub proof fn lemma_stable_sort_stable(s: Seq<ContextActionView>, p: int)
    ensures
        with_priority(stable_sort_desc(s), p) == with_priority(s, p),
    decreases s.len(),
{
    let pred = |x: ContextActionView| x.scope.priority == p;
    if s.len() == 0 {
        assert(with_priority(stable_sort_desc(s), p) =~= with_priority(s, p));
    } else {
        lemma_stable_sort_stable(s.drop_last(), p);
        lemma_stable_sort_sorted(s.drop_last());
        lemma_insert_desc_filter(stable_sort_desc(s.drop_last()), s.last(), p);
        lemma_filter_single(s.last(), pred);
        Seq::<ContextActionView>::filter_distributes_over_add(s.drop_last(), seq![s.last()], pred);
        assert(s.drop_last() + seq![s.last()] =~= s);
        if s.last().scope.priority == p {
            assert(with_priority(s.drop_last(), p).push(s.last()) =~= with_priority(s.drop_last(), p)
                + seq![s.last()].filter(pred));
        }
    }
}

/// The closed form of `insert_desc` used by the executable sort: `a` goes at
/// the first index whose priority is below `a`'s.
proof fn lemma_insert_desc_at(s: Seq<ContextActionView>, a: ContextActionView, j: int)
    requires
        0 <= j <= s.len(),
        forall|k: int| 0 <= k < j ==> s[k].scope.priority >= a.scope.priority,
        j < s.len() ==> s[j].scope.priority < a.scope.priority,
    ensures
        insert_desc(s, a) == s.insert(j, a),
    decreases s.len(),
{
    if s.len() == 0 {
        assert(insert_desc(s, a) =~= s.insert(0, a));
    } else if a.scope.priority > s[0].scope.priority {
        assert(j == 0);
        assert(insert_desc(s, a) =~= s.insert(0, a));
    } else {
        assert(j >= 1);
        lemma_insert_desc_at(s.drop_first(), a, j - 1);
        assert(insert_desc(s, a) =~= s.insert(j, a));
    }
}

/// Sort actions by descending priority; ties keep their input order.
pub fn sort_by_priority(v: &Vec<ContextAction>) -> (r: Vec<ContextAction>)
    ensures
        views_of_actions(r@) == stable_sort_desc(views_of_actions(v@)),
{
    let ghost w = views_of_actions(v@);
    let mut out: Vec<ContextAction> = Vec::new();
    let mut i: usize = 0;
    while i < v.len()
        invariant
            i <= v.len(),
            w == views_of_actions(v@),
            views_of_actions(out@) == stable_sort_desc(w.take(i as int)),
        decreases v.len() - i,
    {
        let a = v[i].clone();
        let mut j: usize = 0;
        while j < out.len() && out[j].scope.priority >= a.scope.priority
            invariant
                j <= out.len(),
                forall|k: int|
                    0 <= k < j ==> views_of_actions(out@)[k].scope.priority
                        >= a@.scope.priority,
            decreases out.len() - j,
        {
            assert(views_of_actions(out@)[j as int].scope.priority == out@[j as int]@.scope.priority);
            j += 1;
        }
        let ghost prev = views_of_actions(out@);
        proof {
            if j < out.len() {
                assert(prev[j as int].scope.priority == out@[j as int]@.scope.priority);
            }
            lemma_insert_desc_at(prev, a@, j as int);
        }
        out.insert(j, a);
        proof {
            assert(views_of_actions(out@) =~= prev.insert(j as int, a@));
            assert(w.take(i as int + 1).drop_last() =~= w.take(i as int));
            assert(w.take(i as int + 1).last() == v@[i as int]@);
            assert(views_of_actions(out@) == stable_sort_desc(w.take(i as int + 1)));
        }
        i += 1;
    }
    proof {
        assert(w.take(v@.len() as int) =~= w);
    }
    out
}

/// The sort keeps the length.
pub proof fn lemma_stable_sort_len(s: Seq<ContextActionView>)
    ensures
        stable_sort_desc(s).len() == s.len(),
    decreases s.len(),
{
    if s.len() == 0 {
    } else {
        lemma_stable_sort_len(s.drop_last());
        lemma_insert_desc_elems(stable_sort_desc(s.drop_last()), s.last());
    }
}

/// Every element of the sorted sequence is an element of the input.
pub proof fn lemma_stable_sort_elems(s: Seq<ContextActionView>)
    ensures
        forall|k: int|
            0 <= k < stable_sort_desc(s).len() ==> exists|m: int|
                0 <= m < s.len() && #[trigger] stable_sort_desc(s)[k] == s[m],
    decreases s.len(),
{
    if s.len() == 0 {
    } else {
        lemma_stable_sort_elems(s.drop_last());
        let t = stable_sort_desc(s.drop_last());
        let r = stable_sort_desc(s);
        lemma_insert_desc_elems(t, s.last());
        assert forall|k: int| 0 <= k < r.len() implies exists|m: int|
            0 <= m < s.len() && #[trigger] r[k] == s[m] by {
            if r[k] == s.last() {
                assert(r[k] == s[s.len() - 1]);
            } else {
                let mt = choose|mt: int| 0 <= mt < t.len() && r[k] == t[mt];
                let m = choose|m: int| 0 <= m < s.drop_last().len() && t[mt] == s.drop_last()[m];
                assert(r[k] == s[m]);
            }
        }
    }
}

/// A sequence whose one highest-priority element sits at `j` has exactly that
/// element as its priority class.
proof fn lemma_with_priority_single(s: Seq<ContextActionView>, j: int)
    requires
        0 <= j < s.len(),
        forall|k: int|
            0 <= k < s.len() && k != j ==> s[k].scope.priority < s[j].scope.priority,
    ensures
        with_priority(s, s[j].scope.priority) == seq![s[j]],
    decreases s.len(),
{
    let p = s[j].scope.priority;
    let pred = |x: ContextActionView| x.scope.priority == p;
    lemma_filter_single(s.last(), pred);
    Seq::<ContextActionView>::filter_distributes_over_add(s.drop_last(), seq![s.last()], pred);
    assert(s.drop_last() + seq![s.last()] =~= s);
    if j == s.len() - 1 {
        lemma_with_priority_empty(s.drop_last(), p);
        assert(with_priority(s, p) =~= seq![s[j]]);
    } else {
        lemma_with_priority_single(s.drop_last(), j);
        assert(s.drop_last()[j] == s[j]);
        assert(with_priority(s, p) =~= seq![s[j]]);
    }
}

/// When exactly one element has the highest priority, the sort puts it first.
pub proof fn lemma_unique_top_first(s: Seq<ContextActionView>, j: int)
    requires
        0 <= j < s.len(),
        forall|k: int|
            0 <= k < s.len() && k != j ==> s[k].scope.priority < s[j].scope.priority,
    ensures
        stable_sort_desc(s).len() == s.len(),
        stable_sort_desc(s)[0] == s[j],
{
    let p = s[j].scope.priority;
    let r = stable_sort_desc(s);
    let pred = |x: ContextActionView| x.scope.priority == p;
    lemma_stable_sort_len(s);
    lemma_stable_sort_sorted(s);
    lemma_stable_sort_stable(s, p);
    lemma_with_priority_single(s, j);
    assert(r.filter(pred) == seq![s[j]]);
    lemma_filter_elems(r, pred);
    assert(r.filter(pred)[0] == s[j]);
    let m = choose|m: int| 0 <= m < r.len() && r.filter(pred)[0] == r[m];
    assert(r[m] == s[j]);
    assert(r[0].scope.priority >= r[m].scope.priority);
    lemma_stable_sort_elems(s);
    assert(0 <= 0 < r.len());
    let i0 = choose|i: int| 0 <= i < s.len() && r[0] == s[i];
    if i0 != j {
        assert(s[i0].scope.priority < p);
        assert(false);
    }
}

} // verus!
