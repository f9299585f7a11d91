//! The declarative rule records that the router matches and the result records
//! that callers receive.
//!
//! Every executable type has a ghost view (`@`) over sequences and integers;
//! all contracts in this crate speak of those views.

use vstd::prelude::*;

verus! {

/// Identifying metadata of a rule. `id` is the unique key used when rules are
/// imported: an incoming rule replaces any persisted rule with the same id.
pub struct ActionMeta {
    pub id: String,
    pub name: String,
    pub version: String,
}

pub ghost struct ActionMetaView {
    pub id: Seq<char>,
    pub name: Seq<char>,
    pub version: Seq<char>,
}

impl View for ActionMeta {
    type V = ActionMetaView;

    open spec fn view(&self) -> ActionMetaView {
        ActionMetaView { id: self.id@, name: self.name@, version: self.version@ }
    }
}

impl Clone for ActionMeta {
    fn clone(&self) -> (r: Self)
        ensures
            r@ == self@,
    {
        ActionMeta { id: self.id.clone(), name: self.name.clone(), version: self.version.clone() }
    }
}

/// Where a rule applies (`apps` lists process names, or `"*"` for all) and
/// how early it matches: higher `priority` sorts earlier in match results.
pub struct ActionScope {
    pub apps: Vec<String>,
    pub priority: i32,
}

pub ghost struct ActionScopeView {
    pub apps: Seq<Seq<char>>,
    pub priority: int,
}

impl View for ActionScope {
    type V = ActionScopeView;

    open spec fn view(&self) -> ActionScopeView {
        ActionScopeView { apps: self.apps.deep_view(), priority: self.priority as int }
    }
}

impl Clone for ActionScope {
    fn clone(&self) -> (r: Self)
        ensures
            r@ == self@,
    {
        let apps = self.apps.clone();
        proof {
            assert(apps.deep_view() =~= self.apps.deep_view());
        }
        ActionScope { apps, priority: self.priority }
    }
}

/// The condition that activates a rule: a pattern of the given type (only
/// `"regex"` patterns are compiled; a rule of any other trigger type is kept
/// but never matches).
/// `extraction_pattern` is reserved for downstream text trimming and is not
/// consulted by matching.
pub struct ActionTrigger {
    pub trigger_type: String,
    pub pattern: String,
    pub extraction_pattern: Option<String>,
}

pub ghost struct ActionTriggerView {
    pub trigger_type: Seq<char>,
    pub pattern: Seq<char>,
    pub extraction_pattern: Option<Seq<char>>,
}

impl View for ActionTrigger {
    type V = ActionTriggerView;

    open spec fn view(&self) -> ActionTriggerView {
        ActionTriggerView {
            trigger_type: self.trigger_type@,
            pattern: self.pattern@,
            extraction_pattern: self.extraction_pattern.deep_view(),
        }
    }
}

impl Clone for ActionTrigger {
    fn clone(&self) -> (r: Self)
        ensures
            r@ == self@,
    {
        let extraction_pattern = self.extraction_pattern.clone();
        proof {
            assert(extraction_pattern.deep_view() =~= self.extraction_pattern.deep_view());
        }
        ActionTrigger {
            trigger_type: self.trigger_type.clone(),
            pattern: self.pattern.clone(),
            extraction_pattern,
        }
    }
}

/// What a matched rule proposes to do: a tagged operation (`"url"`, `"path"`,
/// `"doi_scihub"`, `"ai_translate"`, `"ai_summarize"`, `"ai_process"`,
/// `"local_format"`, `"script"`, ...) with a template and optional script
/// fields.
pub struct ActionDef {
    pub action_type: String,
    pub template: String,
    pub script_path: Option<String>,
    pub arguments: Option<Vec<String>>,
    pub remote_script_url: Option<String>,
}

pub ghost struct ActionDefView {
    pub action_type: Seq<char>,
    pub template: Seq<char>,
    pub script_path: Option<Seq<char>>,
    pub arguments: Option<Seq<Seq<char>>>,
    pub remote_script_url: Option<Seq<char>>,
}

impl View for ActionDef {
    type V = ActionDefView;

    open spec fn view(&self) -> ActionDefView {
        ActionDefView {
            action_type: self.action_type@,
            template: self.template@,
            script_path: self.script_path.deep_view(),
            arguments: self.arguments.deep_view(),
            remote_script_url: self.remote_script_url.deep_view(),
        }
    }
}

impl Clone for ActionDef {
    fn clone(&self) -> (r: Self)
        ensures
            r@ == self@,
    {
        let script_path = self.script_path.clone();
        let arguments = self.arguments.clone();
        let remote_script_url = self.remote_script_url.clone();
        proof {
            assert(script_path.deep_view() =~= self.script_path.deep_view());
            if self.arguments is Some {
                assert(arguments.unwrap().deep_view() =~= self.arguments.unwrap().deep_view());
            }
            assert(arguments.deep_view() =~= self.arguments.deep_view());
            assert(remote_script_url.deep_view() =~= self.remote_script_url.deep_view());
        }
        ActionDef {
            action_type: self.action_type.clone(),
            template: self.template.clone(),
            script_path,
            arguments,
            remote_script_url,
        }
    }
}

/// One declarative rule: metadata, scope, trigger and action. Its identity is
/// `meta.id`.
pub struct ContextAction {
    pub meta: ActionMeta,
    pub scope: ActionScope,
    pub trigger: ActionTrigger,
    pub action: ActionDef,
    pub is_remote: Option<bool>,
    pub remote_url: Option<String>,
}

pub ghost struct ContextActionView {
    pub meta: ActionMetaView,
    pub scope: ActionScopeView,
    pub trigger: ActionTriggerView,
    pub action: ActionDefView,
    pub is_remote: Option<bool>,
    pub remote_url: Option<Seq<char>>,
}

impl View for ContextAction {
    type V = ContextActionView;

    open spec fn view(&self) -> ContextActionView {
        ContextActionView {
            meta: self.meta@,
            scope: self.scope@,
            trigger: self.trigger@,
            action: self.action@,
            is_remote: self.is_remote,
            remote_url: self.remote_url.deep_view(),
        }
    }
}

impl Clone for ContextAction {
    fn clone(&self) -> (r: Self)
        ensures
            r@ == self@,
    {
        let is_remote = match self.is_remote {
            Some(b) => Some(b),
            None => None,
        };
        let remote_url = self.remote_url.clone();
        proof {
            assert(remote_url.deep_view() =~= self.remote_url.deep_view());
        }
        ContextAction {
            meta: self.meta.clone(),
            scope: self.scope.clone(),
            trigger: self.trigger.clone(),
            action: self.action.clone(),
            is_remote,
            remote_url,
        }
    }
}

/// Character-wise equality of two string slices.
pub fn str_eq(a: &str, b: &str) -> (r: bool)
    ensures
        r == (a@ == b@),
{
    a.to_owned() == b.to_owned()
}

/// The views of a sequence of rules, element by element.
pub open spec fn views_of_actions(s: Seq<ContextAction>) -> Seq<ContextActionView> {
    s.map_values(|a: ContextAction| a@)
}

/// The outcome of one AI or local text operation.
pub struct AiResult {
    pub result: String,
    pub action_type: String,
    pub source_text: String,
}

pub ghost struct AiResultView {
    pub result: Seq<char>,
    pub action_type: Seq<char>,
    pub source_text: Seq<char>,
}

impl View for AiResult {
    type V = AiResultView;

    open spec fn view(&self) -> AiResultView {
        AiResultView {
            result: self.result@,
            action_type: self.action_type@,
            source_text: self.source_text@,
        }
    }
}

impl Clone for AiResult {
    fn clone(&self) -> (r: Self)
        ensures
            r@ == self@,
    {
        AiResult {
            result: self.result.clone(),
            action_type: self.action_type.clone(),
            source_text: self.source_text.clone(),
        }
    }
}

/// What one processed selection hands to the UI boundary: the matched actions
/// in match order, the captured text, and an optional eager AI result.
pub struct ProcessSelectionResult {
    pub actions: Vec<ContextAction>,
    pub captured_text: String,
    pub ai_result: Option<AiResult>,
}

pub ghost struct ProcessSelectionResultView {
    pub actions: Seq<ContextActionView>,
    pub captured_text: Seq<char>,
    pub ai_result: Option<AiResultView>,
}

impl View for ProcessSelectionResult {
    type V = ProcessSelectionResultView;

    open spec fn view(&self) -> ProcessSelectionResultView {
        ProcessSelectionResultView {
            actions: views_of_actions(self.actions@),
            captured_text: self.captured_text@,
            ai_result: match self.ai_result {
                Some(r) => Some(r@),
                None => None,
            },
        }
    }
}

} // verus!
