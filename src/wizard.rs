//! The decisions that the interactive configuration wizard takes; the
//! prompts themselves belong to the caller.
use crate::config::{default_config, CielConfig, DEFAULT_APT_SOURCE};
use vstd::prelude::*;

verus! {

/// The record that the wizard starts from: the one given, or the default.
pub fn starting_config(config: Option<CielConfig>) -> (r: CielConfig)
    ensures
        match config {
            Some(c) => r@ == c@,
            None => r@ == default_config(),
        },
{
    match config {
        Some(c) => c,
        None => CielConfig::default(),
    }
}

/// The text handed to the editor: the current source list, or the sample
/// source line where the list is empty.
pub fn sources_to_edit(current: &String) -> (r: String)
    ensures
        r@ == (if current@.len() == 0 {
            DEFAULT_APT_SOURCE@
        } else {
            current@
        }),
{
    if current.as_str().is_empty() {
        DEFAULT_APT_SOURCE.to_owned()
    } else {
        current.clone()
    }
}

/// The source list after an edit: what the editor returned, or the sample
/// source line where the edit was aborted.
pub fn sources_after_edit(edited: Option<String>) -> (r: String)
    ensures
        match edited {
            Some(s) => r@ == s@,
            None => r@ == DEFAULT_APT_SOURCE@,
        },
{
    match edited {
        Some(s) => s,
        None => DEFAULT_APT_SOURCE.to_owned(),
    }
}

} // verus!
