//! The rule router: owns the active, compiled rule set plus its provenance
//! (source path, modification timestamp), matches candidate text against every
//! rule, and returns the matching rules sorted by descending priority.
//!
//! File reading, parsing and timestamp probing happen outside this crate; the
//! router exposes the decisions — `needs_reload`, `apply_actions`,
//! `load_defaults_if_empty`, `force_reload` — as verified steps, so a caller
//! that drives them in order gets the reload algorithm with its guarantees.

use vstd::prelude::*;

use crate::defaults::{default_actions, default_actions_view};
use crate::order::{
    lemma_stable_sort_sorted, lemma_stable_sort_stable, sort_by_priority, sorted_desc,
    stable_sort_desc, with_priority,
};
use crate::seqs::{lemma_filter_single, lemma_filter_subsumed};
use crate::pattern::{regex_accepts, regex_compiles, regex_is_match, regex_new, regex_source};
use crate::types::{str_eq, views_of_actions, ContextAction, ContextActionView};

verus! {

/// A rule together with its compiled matcher. The matcher is `None` exactly
/// when the rule is inert: its trigger is not a regex, or its pattern failed
/// to compile. An inert rule is retained — visible and editable — but never
/// matches.
pub struct CompiledAction {
    pub action: ContextAction,
    pub compiled_regex: Option<regex::Regex>,
}

pub ghost struct CompiledActionView {
    pub action: ContextActionView,
    pub pattern: Option<Seq<char>>,
}

impl View for CompiledAction {
    type V = CompiledActionView;

    open spec fn view(&self) -> CompiledActionView {
        CompiledActionView {
            action: self.action@,
            pattern: match self.compiled_regex {
                Some(re) => Some(regex_source(re)),
                None => None,
            },
        }
    }
}

/// What compiling one rule yields: a matcher for exactly the rules whose
/// trigger type is `"regex"` and whose pattern compiles.
pub open spec fn compile_view(a: ContextActionView) -> CompiledActionView {
    CompiledActionView {
        action: a,
        pattern: if a.trigger.trigger_type == "regex"@ && regex_compiles(a.trigger.pattern) {
            Some(a.trigger.pattern)
        } else {
            None
        },
    }
}

impl CompiledActionView {
    /// The compiled form is faithful to its rule.
    pub open spec fn wf(self) -> bool {
        self == compile_view(self.action)
    }
}

/// Compile one rule, isolating a compile failure to that rule.
pub fn compile_action(action: ContextAction) -> (c: CompiledAction)
    ensures
        c@.wf(),
        c@.action == action@,
{
    let compiled_regex = if str_eq(action.trigger.trigger_type.as_str(), "regex") {
        regex_new(action.trigger.pattern.as_str())
    } else {
        None
    };
    CompiledAction { action, compiled_regex }
}

pub open spec fn views_of_compiled(s: Seq<CompiledAction>) -> Seq<CompiledActionView> {
    s.map_values(|c: CompiledAction| c@)
}

/// Compiling a whole rule list, rule by rule.
pub open spec fn compile_all(actions: Seq<ContextActionView>) -> Seq<CompiledActionView> {
    actions.map_values(|a: ContextActionView| compile_view(a))
}

/// Compile a whole rule list, isolating each rule's compile failure to that
/// rule.
pub fn compile_actions(actions: Vec<ContextAction>) -> (compiled: Vec<CompiledAction>)
    ensures
        views_of_compiled(compiled@) == compile_all(views_of_actions(actions@)),
        forall|k: int|
            0 <= k < compiled@.len() ==> #[trigger] views_of_compiled(compiled@)[k].wf(),
{
    let ghost target = compile_all(views_of_actions(actions@));
    let mut compiled: Vec<CompiledAction> = Vec::new();
    let mut i: usize = 0;
    while i < actions.len()
        invariant
            i <= actions.len(),
            target == compile_all(views_of_actions(actions@)),
            views_of_compiled(compiled@) =~= target.take(i as int),
            forall|k: int| 0 <= k < i ==> #[trigger] views_of_compiled(compiled@)[k].wf(),
        decreases actions.len() - i,
    {
        let ghost prev = views_of_compiled(compiled@);
        let c = compile_action(actions[i].clone());
        proof {
            assert(views_of_actions(actions@)[i as int] == actions@[i as int]@);
            assert(c@ == target[i as int]);
        }
        compiled.push(c);
        proof {
            assert(views_of_compiled(compiled@) =~= prev.push(c@));
            assert(views_of_compiled(compiled@) =~= target.take(i as int + 1));
        }
        i += 1;
    }
    proof {
        assert(target.take(actions@.len() as int) =~= target);
    }
    compiled
}

/// Whether one compiled rule matches the text: it has a matcher and the
/// matcher accepts the text anywhere inside it.
pub open spec fn matcher_hits(c: CompiledActionView, text: Seq<char>) -> bool {
    c.pattern is Some && regex_accepts(c.pattern.unwrap(), text)
}

/// The rules that match `text`, in source order.
pub open spec fn matched_actions(actions: Seq<CompiledActionView>, text: Seq<char>) -> Seq<
    ContextActionView,
> {
    actions.filter(|c: CompiledActionView| matcher_hits(c, text)).map_values(
        |c: CompiledActionView| c.action,
    )
}

/// What `match_intent` returns: the matching rules, stably sorted by
/// descending priority.
pub open spec fn match_results(actions: Seq<CompiledActionView>, text: Seq<char>) -> Seq<
    ContextActionView,
> {
    stable_sort_desc(matched_actions(actions, text))
}

pub ghost struct RouterView {
    pub actions: Seq<CompiledActionView>,
    pub last_mod: int,
    pub config_path: Seq<char>,
}

impl RouterView {
    /// Every held compiled rule is faithful to its rule record.
    pub open spec fn wf(self) -> bool {
        forall|i: int| 0 <= i < self.actions.len() ==> #[trigger] self.actions[i].wf()
    }
}

/// The router state: the compiled rule sequence, the modification timestamp
/// (milliseconds since the epoch) of the content it was built from, and the
/// resolved persistence location. The whole state is replaced on reload,
/// never edited in place.
pub struct Router {
    pub compiled_actions: Vec<CompiledAction>,
    pub last_mod: u64,
    pub config_path: String,
}

impl View for Router {
    type V = RouterView;

    open spec fn view(&self) -> RouterView {
        RouterView {
            actions: views_of_compiled(self.compiled_actions@),
            last_mod: self.last_mod as int,
            config_path: self.config_path@,
        }
    }
}

impl Router {
    /// A fresh router: no rules, an epoch timestamp (so any real file is
    /// newer), and the default relative source path.
    pub fn new() -> (r: Router)
        ensures
            r@.actions == Seq::<CompiledActionView>::empty(),
            r@.last_mod == 0,
            r@.config_path == "actions.json"@,
            r@.wf(),
    {
        let r = Router {
            compiled_actions: Vec::new(),
            last_mod: 0,
            config_path: "actions.json".to_owned(),
        };
        proof {
            assert(r@.actions =~= Seq::<CompiledActionView>::empty());
        }
        r
    }

    /// The freshness check: reload exactly when the on-disk timestamp is
    /// strictly newer than the one recorded at the last load.
    pub fn needs_reload(&self, disk_mtime_ms: u64) -> (r: bool)
        ensures
            r == (disk_mtime_ms > self@.last_mod),
    {
        disk_mtime_ms > self.last_mod
    }

    /// Record where the rules are persisted, for callers that write edits back.
    pub fn set_config_path(&mut self, path: String)
        ensures
            final (self)@.config_path == path@,
            final (self)@.actions == old(self)@.actions,
            final (self)@.last_mod == old(self)@.last_mod,
    {
        self.config_path = path;
    }

    /// The current resolved persistence location.
    pub fn get_config_path(&self) -> (r: String)
        ensures
            r@ == self@.config_path,
    {
        self.config_path.clone()
    }

    /// Install an already-compiled rule set and record its timestamp. This is
    /// the atomic swap of the reload algorithm — the one step a concurrent
    /// caller need make exclusive; reading, parsing and compiling all happen
    /// before it.
    pub fn install_compiled(&mut self, compiled: Vec<CompiledAction>, disk_mtime_ms: u64)
        ensures
            final (self)@.actions == views_of_compiled(compiled@),
            final (self)@.last_mod == disk_mtime_ms,
            final (self)@.config_path == old(self)@.config_path,
    {
        self.compiled_actions = compiled;
        self.last_mod = disk_mtime_ms;
    }

    /// Replace the whole rule set with the compiled form of freshly parsed
    /// content, and record that content's timestamp; per-rule compile
    /// failures are tolerated (the rule is kept, inert). Parsing happened
    /// before the call.
    pub fn apply_actions(&mut self, actions: Vec<ContextAction>, disk_mtime_ms: u64)
        ensures
            final (self)@.actions == compile_all(views_of_actions(actions@)),
            final (self)@.last_mod == disk_mtime_ms,
            final (self)@.config_path == old(self)@.config_path,
            final (self)@.wf(),
    {
        let compiled = compile_actions(actions);
        self.install_compiled(compiled, disk_mtime_ms);
    }

    /// If no source was found anywhere and the router still holds no rules,
    /// fall back to the built-in default rule set. Once the rule sequence is
    /// non-empty this does nothing, so the fallback fires at most once.
    pub fn load_defaults_if_empty(&mut self) -> (loaded: bool)
        ensures
            loaded == (old(self)@.actions.len() == 0),
            loaded ==> final (self)@.actions == compile_all(default_actions_view()),
            !loaded ==> final (self)@.actions == old(self)@.actions,
            final (self)@.last_mod == old(self)@.last_mod,
            final (self)@.config_path == old(self)@.config_path,
            old(self)@.wf() ==> final (self)@.wf(),
    {
        if self.compiled_actions.len() == 0 {
            let last_mod = self.last_mod;
            let defaults = default_actions();
            self.apply_actions(defaults, last_mod);
            true
        } else {
            false
        }
    }

    /// Reset the recorded timestamp to the epoch, older than any real file
    /// timestamp, so that the next freshness check reloads unconditionally.
    pub fn force_reload(&mut self)
        ensures
            final (self)@.last_mod == 0,
            final (self)@.actions == old(self)@.actions,
            final (self)@.config_path == old(self)@.config_path,
    {
        self.last_mod = 0;
    }

    /// Match `text` against every rule whose matcher compiled; return the
    /// matching rules sorted by descending priority, ties in source order.
    pub fn match_intent(&self, text: &str) -> (r: Vec<ContextAction>)
        ensures
            views_of_actions(r@) == match_results(self@.actions, text@),
    {
        let ghost all = self@.actions;
        let ghost hits = |c: CompiledActionView| matcher_hits(c, text@);
        let mut matched: Vec<ContextAction> = Vec::new();
        let mut i: usize = 0;
        while i < self.compiled_actions.len()
            invariant
                i <= self.compiled_actions.len(),
                all == self@.actions,
                hits == (|c: CompiledActionView| matcher_hits(c, text@)),
                views_of_actions(matched@) == matched_actions(all.take(i as int), text@),
            decreases self.compiled_actions.len() - i,
        {
            let ghost prev = views_of_actions(matched@);
            let c = &self.compiled_actions[i];
            match &c.compiled_regex {
                Some(re) => {
                    if regex_is_match(re, text) {
                        matched.push(c.action.clone());
                    }
                },
                None => {},
            }
            proof {
                assert(all.take(i as int + 1) =~= all.take(i as int) + seq![all[i as int]]);
                Seq::<CompiledActionView>::filter_distributes_over_add(
                    all.take(i as int),
                    seq![all[i as int]],
                    hits,
                );
                lemma_filter_single(all[i as int], hits);
                if matcher_hits(all[i as int], text@) {
                    assert(views_of_actions(matched@) =~= prev.push(all[i as int].action));
                }
                assert(views_of_actions(matched@) =~= matched_actions(
                    all.take(i as int + 1),
                    text@,
                ));
            }
            i += 1;
        }
        proof {
            assert(all.take(self.compiled_actions@.len() as int) =~= all);
        }
        sort_by_priority(&matched)
    }
}

/// Law: for any rule set and text, match results are sorted by descending
/// priority, and the rules of any one priority appear exactly as they do in
/// the source order of the matching rules.
pub proof fn lemma_match_results_ordered(
    actions: Seq<CompiledActionView>,
    text: Seq<char>,
    p: int,
)
    ensures
        sorted_desc(match_results(actions, text)),
        with_priority(match_results(actions, text), p) == with_priority(
            matched_actions(actions, text),
            p,
        ),
{
    lemma_stable_sort_sorted(matched_actions(actions, text));
    lemma_stable_sort_stable(matched_actions(actions, text), p);
}

/// A rule that is not a compiling regex rule compiles to an inert entry.
pub proof fn lemma_uncompilable_is_inert(a: ContextActionView)
    requires
        a.trigger.trigger_type != "regex"@ || !regex_compiles(a.trigger.pattern),
    ensures
        compile_view(a).pattern is None,
{
}

/// Law: an inert rule (one whose pattern did not compile) never appears in
/// match results and does not block the others: dropping it from the rule
/// sequence leaves every match result unchanged.
pub proof fn lemma_inert_rule_isolated(
    actions: Seq<CompiledActionView>,
    i: int,
    text: Seq<char>,
)
    requires
        0 <= i < actions.len(),
        actions[i].pattern is None,
    ensures
        match_results(actions, text) == match_results(actions.remove(i), text),
{
    let hits = |c: CompiledActionView| matcher_hits(c, text);
    let front = actions.take(i);
    let back = actions.skip(i + 1);
    assert(actions =~= front + (seq![actions[i]] + back));
    assert(actions.remove(i) =~= front + back);
    Seq::<CompiledActionView>::filter_distributes_over_add(front, seq![actions[i]] + back, hits);
    Seq::<CompiledActionView>::filter_distributes_over_add(seq![actions[i]], back, hits);
    Seq::<CompiledActionView>::filter_distributes_over_add(front, back, hits);
    lemma_filter_single(actions[i], hits);
    assert(actions.filter(hits) =~= actions.remove(i).filter(hits));
}

/// Law: when exactly one of the matching rules carries the highest priority,
/// it is the first match result. (The built-in default set has one rule of
/// its top priority — the DOI rule at 95 — so whenever that rule matches at
/// all, it tops the results.)
pub proof fn lemma_unique_top_match_first(
    actions: Seq<CompiledActionView>,
    text: Seq<char>,
    j: int,
)
    requires
        0 <= j < matched_actions(actions, text).len(),
        forall|k: int|
            0 <= k < matched_actions(actions, text).len() && k != j ==> #[trigger] matched_actions(
                actions,
                text,
            )[k].scope.priority < matched_actions(actions, text)[j].scope.priority,
    ensures
        match_results(actions, text).len() == matched_actions(actions, text).len(),
        match_results(actions, text)[0] == matched_actions(actions, text)[j],
{
    crate::order::lemma_unique_top_first(matched_actions(actions, text), j);
}

/// The built-in fallback leaves the router non-empty, so it fires at most
/// once per process lifetime: a second `load_defaults_if_empty` finds rules
/// and does nothing.
pub proof fn lemma_defaults_nonempty()
    ensures
        compile_all(default_actions_view()).len() == 8,
{
}

/// Law: resetting the recorded timestamp to the epoch makes the freshness
/// check stale against every real on-disk timestamp, however coarse the
/// filesystem clock; the very next check therefore reloads, and
/// `apply_actions` makes the state exactly the compiled latest content.
pub proof fn lemma_force_reload_always_stale(r: RouterView, disk_mtime_ms: u64)
    requires
        r.last_mod == 0,
        disk_mtime_ms >= 1,
    ensures
        disk_mtime_ms > r.last_mod,
{
}

/// The rules of `s` whose id is `id`, in order.
pub open spec fn with_id(s: Seq<ContextActionView>, id: Seq<char>) -> Seq<ContextActionView> {
    s.filter(|a: ContextActionView| a.meta.id == id)
}

/// One import step: drop every rule sharing the incoming rule's id, then
/// append the incoming rule; repeat over the incoming list in order.
pub open spec fn merge_spec(
    existing: Seq<ContextActionView>,
    incoming: Seq<ContextActionView>,
) -> Seq<ContextActionView>
    decreases incoming.len(),
{
    if incoming.len() == 0 {
        existing
    } else {
        merge_spec(
            existing.filter(|a: ContextActionView| a.meta.id != incoming[0].meta.id).push(
                incoming[0],
            ),
            incoming.drop_first(),
        )
    }
}

/// Merge an incoming rule list into the existing persisted set, deduplicating
/// by id (the incoming rule wins), and report how many rules were imported.
pub fn import_actions(existing: Vec<ContextAction>, incoming: Vec<ContextAction>) -> (r: (
    Vec<ContextAction>,
    usize,
))
    ensures
        views_of_actions(r.0@) == merge_spec(
            views_of_actions(existing@),
            views_of_actions(incoming@),
        ),
        r.1 == incoming@.len(),
{
    let ghost ex0 = views_of_actions(existing@);
    let ghost inc0 = views_of_actions(incoming@);
    let total = incoming.len();
    let mut merged = existing;
    let mut incoming = incoming;
    while incoming.len() > 0
        invariant
            merge_spec(ex0, inc0) == merge_spec(
                views_of_actions(merged@),
                views_of_actions(incoming@),
            ),
            incoming@.len() <= inc0.len(),
        decreases incoming.len(),
    {
        let ghost m0 = views_of_actions(merged@);
        let ghost i0 = views_of_actions(incoming@);
        let a = incoming.remove(0);
        let ghost drop_pred = |x: ContextActionView| x.meta.id != a@.meta.id;
        let mut kept: Vec<ContextAction> = Vec::new();
        let mut j: usize = 0;
        while j < merged.len()
            invariant
                j <= merged.len(),
                m0 == views_of_actions(merged@),
                drop_pred == (|x: ContextActionView| x.meta.id != a@.meta.id),
                views_of_actions(kept@) == m0.take(j as int).filter(drop_pred),
            decreases merged.len() - j,
        {
            let ghost prev = views_of_actions(kept@);
            let same = merged[j].meta.id == a.meta.id;
            if !same {
                kept.push(merged[j].clone());
            }
            proof {
                assert(m0.take(j as int + 1) =~= m0.take(j as int) + seq![m0[j as int]]);
                Seq::<ContextActionView>::filter_distributes_over_add(
                    m0.take(j as int),
                    seq![m0[j as int]],
                    drop_pred,
                );
                lemma_filter_single(m0[j as int], drop_pred);
                assert(m0[j as int] == merged@[j as int]@);
                if !same {
                    assert(views_of_actions(kept@) =~= prev.push(m0[j as int]));
                }
                assert(views_of_actions(kept@) =~= m0.take(j as int + 1).filter(drop_pred));
            }
            j += 1;
        }
        proof {
            assert(m0.take(merged@.len() as int) =~= m0);
        }
        merged = kept;
        merged.push(a);
        proof {
            assert(views_of_actions(merged@) =~= m0.filter(drop_pred).push(a@));
            assert(views_of_actions(incoming@) =~= i0.drop_first());
            assert(i0[0] == a@);
        }
    }
    proof {
        assert(views_of_actions(incoming@).len() == 0);
    }
    (merged, total)
}

/// Law: importing one rule leaves exactly one rule with its id in the merged
/// set — the imported one, at the end — and the rules of every other id
/// exactly as they were.
pub proof fn lemma_import_dedups(existing: Seq<ContextActionView>, incoming: ContextActionView)
    ensures
        with_id(merge_spec(existing, seq![incoming]), incoming.meta.id) == seq![incoming],
        merge_spec(existing, seq![incoming]).last() == incoming,
        forall|id: Seq<char>|
            id != incoming.meta.id ==> #[trigger] with_id(
                merge_spec(existing, seq![incoming]),
                id,
            ) == with_id(existing, id),
{
    reveal_with_fuel(merge_spec, 3);
    let keep = |a: ContextActionView| a.meta.id != incoming.meta.id;
    let kept = existing.filter(keep);
    assert(seq![incoming].drop_first() =~= Seq::<ContextActionView>::empty());
    assert(merge_spec(kept.push(incoming), seq![incoming].drop_first()) == kept.push(incoming));
    assert(merge_spec(existing, seq![incoming]) == kept.push(incoming));
    let own = |a: ContextActionView| a.meta.id == incoming.meta.id;
    assert(kept.push(incoming) =~= kept + seq![incoming]);
    Seq::<ContextActionView>::filter_distributes_over_add(kept, seq![incoming], own);
    lemma_filter_single(incoming, own);
    lemma_with_id_of_kept_empty(existing, incoming.meta.id);
    assert(with_id(merge_spec(existing, seq![incoming]), incoming.meta.id) =~= seq![incoming]);
    assert forall|id: Seq<char>| id != incoming.meta.id implies #[trigger] with_id(
        merge_spec(existing, seq![incoming]),
        id,
    ) == with_id(existing, id) by {
        let this_id = |a: ContextActionView| a.meta.id == id;
        Seq::<ContextActionView>::filter_distributes_over_add(kept, seq![incoming], this_id);
        lemma_filter_single(incoming, this_id);
        lemma_filter_subsumed(existing, keep, this_id);
        assert(with_id(merge_spec(existing, seq![incoming]), id) =~= with_id(existing, id));
    }
}

/// After dropping every rule with `id`, none with `id` is left.
proof fn lemma_with_id_of_kept_empty(s: Seq<ContextActionView>, id: Seq<char>)
    ensures
        with_id(s.filter(|a: ContextActionView| a.meta.id != id), id) == Seq::<
            ContextActionView,
        >::empty(),
    decreases s.len(),
{
    reveal_with_fuel(Seq::filter, 2);
    let keep = |a: ContextActionView| a.meta.id != id;
    let own = |a: ContextActionView| a.meta.id == id;
    if s.len() == 0 {
        assert(s.filter(keep) =~= s);
        assert(with_id(s, id) =~= Seq::<ContextActionView>::empty());
    } else {
        lemma_with_id_of_kept_empty(s.drop_last(), id);
        lemma_filter_single(s.last(), keep);
        lemma_filter_single(s.last(), own);
        Seq::<ContextActionView>::filter_distributes_over_add(s.drop_last(), seq![s.last()], keep);
        Seq::<ContextActionView>::filter_distributes_over_add(
            s.drop_last().filter(keep),
            seq![s.last()].filter(keep),
            own,
        );
        assert(s.drop_last() + seq![s.last()] =~= s);
        assert(with_id(s.filter(keep), id) =~= Seq::<ContextActionView>::empty());
    }
}

} // verus!
