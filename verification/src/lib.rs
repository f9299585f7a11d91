//! A context-aware text-action library.
//!
//! Two cores: a gesture detector (a state machine over raw input events that
//! recognises a double press of a trigger key, or a drag-release followed by a
//! confirming movement) and a rule router (a priority-ordered, hot-reloadable
//! matcher from text patterns to declarative actions).

pub mod blacklist;
pub mod defaults;
pub mod extractor;
pub mod format;
pub mod order;
pub mod paths;
pub mod pattern;
pub mod router;
pub mod scanner;
pub mod scihub;
pub mod seqs;
pub mod types;
