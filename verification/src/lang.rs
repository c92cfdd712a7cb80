//! The user-interface strings of the selected language that the model's logic compares with.
use vstd::prelude::*;

verus! {

/// Localized strings (menu entries and messages).
#[derive(Debug, Clone, Default)]
pub struct Lang {
    pub json: String,
    pub json5: String,
    pub toml: String,
    pub xml: String,
    pub to_lowercase: String,
    pub to_uppercase: String,
    pub to_half_width: String,
    pub to_full_width: String,
    pub to_space: String,
    pub new_file: String,
    pub no_read_permission: String,
    pub file_not_found: String,
    pub file_opening_problem: String,
    pub box_select: String,
    pub box_insert: String,
    pub with: String,
    pub no_value_in_clipboard: String,
    pub cannot_paste_multi_rows: String,
    pub no_undo_operation: String,
    pub no_redo_operation: String,
    pub no_sel_range: String,
}

} // verus!
