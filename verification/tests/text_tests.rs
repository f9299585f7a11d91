//! Local reformatting, capture acceptance, the blacklist, and selection
//! outcomes.

use context_actions::blacklist::is_blacklisted;
use context_actions::scihub::scihub_link;
use context_actions::extractor::{selection_outcome, Extractor};
use context_actions::format::local_format_text;
use context_actions::types::{
    str_eq, ActionDef, ActionMeta, ActionScope, ActionTrigger, ContextAction,
};

#[test]
fn format_trims_and_drops_blank_lines() {
    let out = local_format_text("  first line  \n\n\t\n  second line\n".to_owned());
    assert_eq!(out.result, "first line\nsecond line");
    assert_eq!(out.action_type, "local_format");
    assert_eq!(out.source_text, "  first line  \n\n\t\n  second line\n");
}

#[test]
fn format_collapses_space_runs() {
    let out = local_format_text("a  b    c".to_owned());
    assert_eq!(out.result, "a b c");
}

#[test]
fn format_tightens_wide_punctuation() {
    let out = local_format_text("\u{4f60}\u{597d}\u{ff0c} \u{4e16}\u{754c}\u{3002} end".to_owned());
    assert_eq!(out.result, "\u{4f60}\u{597d}\u{ff0c}\u{4e16}\u{754c}\u{3002}end");
}

#[test]
fn format_of_empty_text_is_empty() {
    let out = local_format_text(String::new());
    assert_eq!(out.result, "");
}

#[test]
fn format_carriage_returns_are_trimmed() {
    let out = local_format_text("one\r\ntwo\r\n".to_owned());
    assert_eq!(out.result, "one\ntwo");
}

#[test]
fn accept_captured_rejects_whitespace_only() {
    let extractor = Extractor::new();
    assert_eq!(extractor.accept_captured("   \t\n".to_owned()), None);
    assert_eq!(extractor.accept_captured(String::new()), None);
    assert_eq!(
        extractor.accept_captured("  a  ".to_owned()),
        Some("  a  ".to_owned())
    );
}

#[test]
fn blacklist_folds_case_and_finds_substrings() {
    let apps = vec!["WeChat".to_owned(), "telegram".to_owned()];
    // exact entry, any case
    assert!(is_blacklisted("wechat", &apps));
    assert!(is_blacklisted("WECHAT", &apps));
    // the entry occurring inside the process name
    assert!(is_blacklisted("WeChat.exe", &apps));
    assert!(is_blacklisted("Telegram Desktop.exe", &apps));
    // no entry hits
    assert!(!is_blacklisted("firefox", &apps));
    // the name occurring inside an entry does not count
    assert!(!is_blacklisted("chat", &apps));
}

#[test]
fn empty_blacklist_blocks_nothing() {
    let apps: Vec<String> = Vec::new();
    assert!(!is_blacklisted("anything", &apps));
}

#[test]
fn selection_outcome_reports_only_matches() {
    assert!(selection_outcome(Vec::new(), "text".to_owned()).is_none());
    let action = ContextAction {
        meta: ActionMeta {
            id: "a".to_owned(),
            name: "a".to_owned(),
            version: "1.0.0".to_owned(),
        },
        scope: ActionScope { apps: vec!["*".to_owned()], priority: 1 },
        trigger: ActionTrigger {
            trigger_type: "regex".to_owned(),
            pattern: ".+".to_owned(),
            extraction_pattern: None,
        },
        action: ActionDef {
            action_type: "url".to_owned(),
            template: "${0}".to_owned(),
            script_path: None,
            arguments: None,
            remote_script_url: None,
        },
        is_remote: None,
        remote_url: None,
    };
    let outcome = selection_outcome(vec![action], "text".to_owned()).expect("a result");
    assert_eq!(outcome.actions.len(), 1);
    assert_eq!(outcome.captured_text, "text");
    assert!(outcome.ai_result.is_none());
}

#[test]
fn scihub_link_clamps_the_mirror_index() {
    let none: Vec<String> = Vec::new();
    assert_eq!(scihub_link(&none, 0, "10.1000/xyz"), None);
    let urls = vec![
        "https://mirror-one.example".to_owned(),
        "https://mirror-two.example".to_owned(),
    ];
    assert_eq!(
        scihub_link(&urls, 0, "10.1000/xyz"),
        Some("https://mirror-one.example/10.1000/xyz".to_owned())
    );
    // an out-of-range index falls back to the last mirror
    assert_eq!(
        scihub_link(&urls, 9, "10.1000/xyz"),
        Some("https://mirror-two.example/10.1000/xyz".to_owned())
    );
}

#[test]
fn str_eq_compares_characters() {
    assert!(str_eq("regex", "regex"));
    assert!(!str_eq("regex", "Regex"));
    assert!(!str_eq("regex", "regexx"));
}
