//! The configuration-file resolution order.

use context_actions::paths::{resolve_rule_source, resolve_settings_source, SourceLocation};

#[test]
fn rule_source_prefers_user_config() {
    assert_eq!(
        resolve_rule_source(true, true, true, true),
        Some(SourceLocation::UserConfig)
    );
}

#[test]
fn rule_source_promotes_bundled_copy() {
    // found only in the resource dir: a successful copy reads the promoted
    // user copy, a failed copy reads the resource in place
    assert_eq!(
        resolve_rule_source(false, true, true, true),
        Some(SourceLocation::UserConfig)
    );
    assert_eq!(
        resolve_rule_source(false, true, false, true),
        Some(SourceLocation::Resource)
    );
}

#[test]
fn rule_source_falls_back_to_working_dir() {
    assert_eq!(
        resolve_rule_source(false, false, false, true),
        Some(SourceLocation::WorkingDir)
    );
    assert_eq!(resolve_rule_source(false, false, false, false), None);
}

#[test]
fn settings_source_full_chain() {
    assert_eq!(
        resolve_settings_source(true, true, true, true, true, true),
        Some(SourceLocation::UserConfig)
    );
    assert_eq!(
        resolve_settings_source(true, false, true, false, true, true),
        Some(SourceLocation::Resource)
    );
    assert_eq!(
        resolve_settings_source(true, false, false, false, true, true),
        Some(SourceLocation::WorkingDir)
    );
    assert_eq!(
        resolve_settings_source(false, false, false, false, false, true),
        Some(SourceLocation::ParentDir)
    );
    // nothing exists, but the user config dir is known: save there later
    assert_eq!(
        resolve_settings_source(true, false, false, false, false, false),
        Some(SourceLocation::UserConfig)
    );
    assert_eq!(
        resolve_settings_source(false, false, false, false, false, false),
        None
    );
}

#[test]
fn settings_ignore_user_locations_without_a_known_dir() {
    // with no user config dir at all, the bundled copy cannot be promoted
    assert_eq!(
        resolve_settings_source(false, true, true, true, false, false),
        None
    );
}
