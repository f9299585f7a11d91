//! The selection pipeline around OS text extraction. The clipboard
//! simulation and the foreground-process lookup are platform work outside
//! this crate; what is decided here is verified: whether captured text counts
//! as a selection at all, and what one processed selection hands to the UI.

use vstd::prelude::*;

use crate::format::{is_space_char, unicode_space};
use crate::types::{
    views_of_actions, ContextAction, ProcessSelectionResult, ProcessSelectionResultView,
};

verus! {

/// The selection extractor. Its platform side (simulating the copy keystroke
/// and reading the clipboard) lives outside this crate; the acceptance of
/// what came back is decided here.
pub struct Extractor;

impl Extractor {
    pub fn new() -> (e: Extractor) {
        Extractor
    }

    /// Whether clipboard text counts as a captured selection: anything that
    /// is not whitespace throughout. Whitespace-only text is rejected.
    pub fn accept_captured(&self, text: String) -> (r: Option<String>)
        ensures
            (r is None) == (forall|i: int| 0 <= i < text@.len() ==> unicode_space(text@[i])),
            r is Some ==> r.unwrap()@ == text@,
    {
        let n = text.as_str().unicode_len();
        let mut i: usize = 0;
        while i < n
            invariant
                n == text@.len(),
                i <= n,
                forall|k: int| 0 <= k < i ==> unicode_space(text@[k]),
            decreases n - i,
        {
            if !is_space_char(text.as_str().get_char(i)) {
                return Some(text);
            }
            i += 1;
        }
        None
    }
}

/// What a processed selection reports outward: nothing when no rule matched,
/// otherwise the matched actions with the captured text and no eager AI
/// result (AI actions run only when the user picks one).
pub fn selection_outcome(actions: Vec<ContextAction>, captured_text: String) -> (r: Option<
    ProcessSelectionResult,
>)
    ensures
        (r is None) == (actions@.len() == 0),
        r is Some ==> r.unwrap()@ == (ProcessSelectionResultView {
            actions: views_of_actions(actions@),
            captured_text: captured_text@,
            ai_result: None,
        }),
{
    if actions.len() == 0 {
        None
    } else {
        Some(ProcessSelectionResult { actions, captured_text, ai_result: None })
    }
}

} // verus!
