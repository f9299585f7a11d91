//! The built-in default rule set: loaded once when no rule file is found
//! anywhere and the router still holds no rules. It covers URL open, DOI
//! lookup, filesystem path open, translate, summarize, local reformat, AI
//! reformat, and a catch-all web-search fallback.

use vstd::prelude::*;

use crate::types::{
    ActionDef, ActionDefView, ActionMeta, ActionMetaView, ActionScope, ActionScopeView,
    ActionTrigger, ActionTriggerView, ContextAction, ContextActionView, views_of_actions,
};

verus! {

/// The shape every built-in rule shares: version 1.0.0, applying to all
/// processes, a regex trigger, no script fields.
pub open spec fn builtin_rule_view(
    id: Seq<char>,
    name: Seq<char>,
    priority: int,
    pat: Seq<char>,
    extraction: Option<Seq<char>>,
    action_type: Seq<char>,
    template: Seq<char>,
) -> ContextActionView {
    ContextActionView {
        meta: ActionMetaView { id: id, name: name, version: "1.0.0"@ },
        scope: ActionScopeView { apps: seq!["*"@], priority: priority },
        trigger: ActionTriggerView {
            trigger_type: "regex"@,
            pattern: pat,
            extraction_pattern: extraction,
        },
        action: ActionDefView {
            action_type: action_type,
            template: template,
            script_path: None,
            arguments: None,
            remote_script_url: None,
        },
        is_remote: None,
        remote_url: None,
    }
}

/// The default rules, in their source order. Priorities: DOI (95) above URL
/// and path (90), above the AI and formatting rules, above the catch-all
/// search (10).
pub open spec fn default_actions_view() -> Seq<ContextActionView> {
    seq![
        builtin_rule_view(
            "builtin-url"@,
            "Open URL"@,
            90,
            "^.*(https?:\\/\\/|www\\.)([\\w_-]+(?:(?:\\.[\\w_-]+)+))([\\w.,@?^=%&:/~+#-]*[\\w@?^=%&/~+#-])?"@,
            Some("(https?://|www\\.)[\\x21-\\x7e]+"@),
            "url"@,
            "${0}"@,
        ),
        builtin_rule_view(
            "builtin-doi"@,
            "Open DOI"@,
            95,
            "\\b10\\.\\d{4,9}/[-._;()/:a-zA-Z0-9]+"@,
            Some("10\\.\\d{4,9}/[-._;()/:a-zA-Z0-9]+"@),
            "doi_scihub"@,
            ""@,
        ),
        builtin_rule_view(
            "builtin-path-windows"@,
            "Open file path"@,
            90,
            "^[a-zA-Z]:\\\\(?:[^\\\\/:*?\"<>|\\r\\n]+\\\\)*[^\\\\/:*?\"<>|\\r\\n]*$"@,
            Some("[a-zA-Z]:\\\\(?:[^\\\\/:*?\"<>|\\r\\n]+\\\\)*[^\\\\/:*?\"<>|\\r\\n]*"@),
            "path"@,
            "${0}"@,
        ),
        builtin_rule_view(
            "builtin-ai-translate"@,
            "Translate"@,
            50,
            ".{5,}"@,
            None,
            "ai_translate"@,
            ""@,
        ),
        builtin_rule_view(
            "builtin-ai-summarize"@,
            "Summarize"@,
            40,
            ".{100,}"@,
            None,
            "ai_summarize"@,
            ""@,
        ),
        builtin_rule_view(
            "builtin-local-format"@,
            "Local reformat"@,
            35,
            ".{50,}"@,
            None,
            "local_format"@,
            ""@,
        ),
        builtin_rule_view(
            "builtin-ai-format"@,
            "AI reformat"@,
            30,
            ".{50,}"@,
            None,
            "ai_process"@,
            "format_text"@,
        ),
        builtin_rule_view(
            "builtin-google-search"@,
            "Web search"@,
            10,
            ".+"@,
            None,
            "url"@,
            "https://www.google.com/search?q=${0}"@,
        ),
    ]
}

/// Build one built-in rule.
fn builtin_rule(
    id: &str,
    name: &str,
    priority: i32,
    pat: &str,
    extraction: Option<&str>,
    action_type: &str,
    template: &str,
) -> (r: ContextAction)
    ensures
        r@ == builtin_rule_view(
            id@,
            name@,
            priority as int,
            pat@,
            match extraction {
                Some(e) => Some(e@),
                None => None,
            },
            action_type@,
            template@,
        ),
{
    let mut apps: Vec<String> = Vec::new();
    apps.push("*".to_owned());
    let extraction_pattern = match extraction {
        Some(e) => Some(e.to_owned()),
        None => None,
    };
    let r = ContextAction {
        meta: ActionMeta {
            id: id.to_owned(),
            name: name.to_owned(),
            version: "1.0.0".to_owned(),
        },
        scope: ActionScope { apps, priority },
        trigger: ActionTrigger {
            trigger_type: "regex".to_owned(),
            pattern: pat.to_owned(),
            extraction_pattern,
        },
        action: ActionDef {
            action_type: action_type.to_owned(),
            template: template.to_owned(),
            script_path: None,
            arguments: None,
            remote_script_url: None,
        },
        is_remote: None,
        remote_url: None,
    };
    proof {
        assert(r.scope.apps.deep_view() =~= seq!["*"@]);
    }
    r
}

/// The built-in default rules as values.
pub fn default_actions() -> (v: Vec<ContextAction>)
    ensures
        views_of_actions(v@) == default_actions_view(),
{
    let mut v: Vec<ContextAction> = Vec::new();
    v.push(
        builtin_rule(
            "builtin-url",
            "Open URL",
            90,
            "^.*(https?:\\/\\/|www\\.)([\\w_-]+(?:(?:\\.[\\w_-]+)+))([\\w.,@?^=%&:/~+#-]*[\\w@?^=%&/~+#-])?",
            Some("(https?://|www\\.)[\\x21-\\x7e]+"),
            "url",
            "${0}",
        ),
    );
    v.push(
        builtin_rule(
            "builtin-doi",
            "Open DOI",
            95,
            "\\b10\\.\\d{4,9}/[-._;()/:a-zA-Z0-9]+",
            Some("10\\.\\d{4,9}/[-._;()/:a-zA-Z0-9]+"),
            "doi_scihub",
            "",
        ),
    );
    v.push(
        builtin_rule(
            "builtin-path-windows",
            "Open file path",
            90,
            "^[a-zA-Z]:\\\\(?:[^\\\\/:*?\"<>|\\r\\n]+\\\\)*[^\\\\/:*?\"<>|\\r\\n]*$",
            Some("[a-zA-Z]:\\\\(?:[^\\\\/:*?\"<>|\\r\\n]+\\\\)*[^\\\\/:*?\"<>|\\r\\n]*"),
            "path",
            "${0}",
        ),
    );
    v.push(builtin_rule("builtin-ai-translate", "Translate", 50, ".{5,}", None, "ai_translate", ""));
    v.push(
        builtin_rule("builtin-ai-summarize", "Summarize", 40, ".{100,}", None, "ai_summarize", ""),
    );
    v.push(
        builtin_rule(
            "builtin-local-format",
            "Local reformat",
            35,
            ".{50,}",
            None,
            "local_format",
            "",
        ),
    );
    v.push(
        builtin_rule("builtin-ai-format", "AI reformat", 30, ".{50,}", None, "ai_process", "format_text"),
    );
    v.push(
        builtin_rule(
            "builtin-google-search",
            "Web search",
            10,
            ".+",
            None,
            "url",
            "https://www.google.com/search?q=${0}",
        ),
    );
    proof {
        assert(views_of_actions(v@) =~= default_actions_view());
    }
    v
}

} // verus!
