//! The configuration-file resolution order, as decisions over what the caller
//! found on disk. The caller probes the file system and hands in plain facts;
//! these functions say which location wins. The order, shared by the rule
//! file and the settings file: the user-writable configuration directory
//! first; else the bundled read-only resource, copied into the user directory
//! when possible (read in place when the copy fails); else the process
//! working directory.

use vstd::prelude::*;

verus! {

/// Where a configuration file is read from.
#[derive(Clone, Copy, PartialEq, Eq, Debug)]
pub enum SourceLocation {
    /// The user-writable configuration directory.
    UserConfig,
    /// The bundled read-only resource directory.
    Resource,
    /// The process working directory.
    WorkingDir,
    /// The parent of the working directory.
    ParentDir,
}

/// The rule-file resolution decision: the user copy wins; else a bundled copy
/// is promoted into the user directory (or read in place when the copy
/// failed); else the working directory; else nothing is found.
pub open spec fn resolve_rule_source_spec(
    user_has: bool,
    resource_has: bool,
    copy_ok: bool,
    working_dir_has: bool,
) -> Option<SourceLocation> {
    if user_has {
        Some(SourceLocation::UserConfig)
    } else if resource_has {
        if copy_ok {
            Some(SourceLocation::UserConfig)
        } else {
            Some(SourceLocation::Resource)
        }
    } else if working_dir_has {
        Some(SourceLocation::WorkingDir)
    } else {
        None
    }
}

pub fn resolve_rule_source(
    user_has: bool,
    resource_has: bool,
    copy_ok: bool,
    working_dir_has: bool,
) -> (r: Option<SourceLocation>)
    ensures
        r == resolve_rule_source_spec(user_has, resource_has, copy_ok, working_dir_has),
{
    if user_has {
        Some(SourceLocation::UserConfig)
    } else if resource_has {
        if copy_ok {
            Some(SourceLocation::UserConfig)
        } else {
            Some(SourceLocation::Resource)
        }
    } else if working_dir_has {
        Some(SourceLocation::WorkingDir)
    } else {
        None
    }
}

/// The general settings-file decision: as the rule file, with two more
/// fallbacks — the parent directory, and, when the user configuration
/// directory is known at all, its would-be path even though nothing exists
/// there yet (so a later save lands in the right place).
pub open spec fn resolve_settings_source_spec(
    user_dir_known: bool,
    user_has: bool,
    resource_has: bool,
    copy_ok: bool,
    working_dir_has: bool,
    parent_dir_has: bool,
) -> Option<SourceLocation> {
    if user_dir_known && user_has {
        Some(SourceLocation::UserConfig)
    } else if user_dir_known && resource_has {
        if copy_ok {
            Some(SourceLocation::UserConfig)
        } else {
            Some(SourceLocation::Resource)
        }
    } else if working_dir_has {
        Some(SourceLocation::WorkingDir)
    } else if parent_dir_has {
        Some(SourceLocation::ParentDir)
    } else if user_dir_known {
        Some(SourceLocation::UserConfig)
    } else {
        None
    }
}

pub fn resolve_settings_source(
    user_dir_known: bool,
    user_has: bool,
    resource_has: bool,
    copy_ok: bool,
    working_dir_has: bool,
    parent_dir_has: bool,
) -> (r: Option<SourceLocation>)
    ensures
        r == resolve_settings_source_spec(
            user_dir_known,
            user_has,
            resource_has,
            copy_ok,
            working_dir_has,
            parent_dir_has,
        ),
{
    if user_dir_known && user_has {
        Some(SourceLocation::UserConfig)
    } else if user_dir_known && resource_has {
        if copy_ok {
            Some(SourceLocation::UserConfig)
        } else {
            Some(SourceLocation::Resource)
        }
    } else if working_dir_has {
        Some(SourceLocation::WorkingDir)
    } else if parent_dir_has {
        Some(SourceLocation::ParentDir)
    } else if user_dir_known {
        Some(SourceLocation::UserConfig)
    } else {
        None
    }
}

} // verus!
