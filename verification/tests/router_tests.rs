//! The router: matching, ordering, isolation of bad patterns, reload
//! freshness, defaults, and import dedup.

use context_actions::router::{compile_action, compile_actions, import_actions, Router};
use context_actions::types::{
    ActionDef, ActionMeta, ActionScope, ActionTrigger, ContextAction,
};

fn rule(id: &str, priority: i32, pattern: &str) -> ContextAction {
    ContextAction {
        meta: ActionMeta {
            id: id.to_owned(),
            name: id.to_owned(),
            version: "1.0.0".to_owned(),
        },
        scope: ActionScope { apps: vec!["*".to_owned()], priority },
        trigger: ActionTrigger {
            trigger_type: "regex".to_owned(),
            pattern: pattern.to_owned(),
            extraction_pattern: None,
        },
        action: ActionDef {
            action_type: "url".to_owned(),
            template: "${0}".to_owned(),
            script_path: None,
            arguments: None,
            remote_script_url: None,
        },
        is_remote: None,
        remote_url: None,
    }
}

fn ids(actions: &[ContextAction]) -> Vec<String> {
    actions.iter().map(|a| a.meta.id.clone()).collect()
}

#[test]
fn match_prefers_higher_priority() {
    // The worked example: a DOI rule outranks a URL rule.
    let mut router = Router::new();
    router.apply_actions(
        vec![rule("a", 90, "^https?://.+"), rule("b", 95, "\\b10\\.\\d{4,9}/.+")],
        1,
    );
    let only_doi = router.match_intent("10.1000/xyz");
    assert_eq!(ids(&only_doi), vec!["b".to_owned()]);
    let both = router.match_intent("http://x.com and 10.1000/xyz");
    assert_eq!(ids(&both), vec!["b".to_owned(), "a".to_owned()]);
}

#[test]
fn match_sorts_descending_and_keeps_tie_order() {
    let mut router = Router::new();
    router.apply_actions(
        vec![
            rule("low", 10, "x"),
            rule("first-high", 50, "x"),
            rule("second-high", 50, "x"),
            rule("top", 90, "x"),
        ],
        1,
    );
    let matches = router.match_intent("x marks the spot");
    assert_eq!(
        ids(&matches),
        vec![
            "top".to_owned(),
            "first-high".to_owned(),
            "second-high".to_owned(),
            "low".to_owned()
        ]
    );
}

#[test]
fn bad_pattern_is_isolated() {
    // An uncompilable pattern never matches and does not block its siblings.
    let mut router = Router::new();
    router.apply_actions(
        vec![rule("broken", 99, "(unclosed"), rule("good", 50, "abc")],
        1,
    );
    let matches = router.match_intent("abc (unclosed");
    assert_eq!(ids(&matches), vec!["good".to_owned()]);
}

#[test]
fn non_regex_trigger_is_inert() {
    let mut inert = rule("keyword", 80, "abc");
    inert.trigger.trigger_type = "keyword".to_owned();
    let mut router = Router::new();
    router.apply_actions(vec![inert, rule("good", 50, "abc")], 1);
    let matches = router.match_intent("abc");
    assert_eq!(ids(&matches), vec!["good".to_owned()]);
}

#[test]
fn matcher_reads_the_pattern() {
    // An anchored pattern distinguishes its texts, so a matcher that ignored
    // its pattern or its text would fail here.
    let mut router = Router::new();
    router.apply_actions(vec![rule("anchored", 50, "^abc$")], 1);
    assert_eq!(router.match_intent("abc").len(), 1);
    assert_eq!(router.match_intent("xabc").len(), 0);
    assert_eq!(router.match_intent("abcx").len(), 0);
}

#[test]
fn needs_reload_compares_timestamps() {
    let mut router = Router::new();
    assert!(router.needs_reload(1));
    router.apply_actions(vec![rule("a", 1, "x")], 5);
    assert!(!router.needs_reload(5));
    assert!(!router.needs_reload(4));
    assert!(router.needs_reload(6));
}

#[test]
fn force_reload_reloads_whatever_the_timestamp() {
    // Same-tick rewrites are not missed after a forced reload.
    let mut router = Router::new();
    router.apply_actions(vec![rule("old", 50, "abc")], 5);
    assert!(!router.needs_reload(5));
    router.force_reload();
    assert!(router.needs_reload(5));
    assert!(router.needs_reload(1));
    router.apply_actions(vec![rule("new", 50, "abc")], 5);
    let matches = router.match_intent("abc");
    assert_eq!(ids(&matches), vec!["new".to_owned()]);
}

#[test]
fn defaults_load_once_and_serve_doi() {
    // With no rule file anywhere, the built-in DOI rule is the top match.
    let mut router = Router::new();
    assert!(router.load_defaults_if_empty());
    let matches = router.match_intent("10.1093/bioinformatics/btaa1016");
    assert!(!matches.is_empty());
    assert_eq!(matches[0].meta.id, "builtin-doi");
    assert_eq!(matches[0].scope.priority, 95);
    // Once non-empty, the fallback never fires again.
    assert!(!router.load_defaults_if_empty());
}

#[test]
fn default_catch_all_matches_anything() {
    let mut router = Router::new();
    router.load_defaults_if_empty();
    let matches = router.match_intent("q");
    assert_eq!(ids(&matches), vec!["builtin-google-search".to_owned()]);
}

#[test]
fn import_replaces_rule_with_same_id() {
    // Importing a rule whose id is already present leaves exactly one rule
    // with that id: the imported one.
    let existing = vec![rule("builtin-url", 90, "^https?://.+"), rule("other", 10, "x")];
    let incoming = vec![rule("builtin-url", 85, "^ftp://.+")];
    let (merged, count) = import_actions(existing, incoming);
    assert_eq!(count, 1);
    let with_id: Vec<&ContextAction> =
        merged.iter().filter(|a| a.meta.id == "builtin-url").collect();
    assert_eq!(with_id.len(), 1);
    assert_eq!(with_id[0].scope.priority, 85);
    assert_eq!(with_id[0].trigger.pattern, "^ftp://.+");
    // the imported rule is appended at the end; the untouched rule survives
    assert_eq!(merged.last().unwrap().meta.id, "builtin-url");
    assert_eq!(merged[0].meta.id, "other");
}

#[test]
fn import_appends_new_ids() {
    let existing = vec![rule("a", 1, "x")];
    let incoming = vec![rule("b", 2, "y"), rule("c", 3, "z")];
    let (merged, count) = import_actions(existing, incoming);
    assert_eq!(count, 2);
    assert_eq!(
        ids(&merged),
        vec!["a".to_owned(), "b".to_owned(), "c".to_owned()]
    );
}

#[test]
fn compile_isolates_each_rule() {
    let good = compile_action(rule("good", 1, "a+"));
    assert!(good.compiled_regex.is_some());
    let broken = compile_action(rule("broken", 1, "(oops"));
    assert!(broken.compiled_regex.is_none());
    let mut keyword = rule("keyword", 1, "a+");
    keyword.trigger.trigger_type = "keyword".to_owned();
    assert!(compile_action(keyword).compiled_regex.is_none());
}

#[test]
fn compile_then_install_equals_apply() {
    // compiling ahead of the swap and installing the result is the same as
    // applying the parsed rules in one step
    let compiled = compile_actions(vec![rule("a", 90, "^https?://.+"), rule("b", 95, "x")]);
    let mut router = Router::new();
    router.install_compiled(compiled, 7);
    assert!(!router.needs_reload(7));
    let matches = router.match_intent("https://y.example x");
    assert_eq!(ids(&matches), vec!["b".to_owned(), "a".to_owned()]);
}

#[test]
fn config_path_round_trip() {
    let mut router = Router::new();
    assert_eq!(router.get_config_path(), "actions.json");
    router.set_config_path("/tmp/actions.json".to_owned());
    assert_eq!(router.get_config_path(), "/tmp/actions.json");
}
