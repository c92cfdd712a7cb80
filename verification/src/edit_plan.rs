//! How the editor carries out an edit command: whether the selection is deleted first, which
//! edit runs at the cursor, and whether the edit is recorded for undo. The decision is made
//! here; the editor performs the steps on its text.
use crate::keycmd::E_Cmd;
use vstd::prelude::*;

verus! {

/// The edit run at the cursor.
#[derive(Debug, Clone, Copy, PartialEq, Eq, Structural)]
pub enum EditOp {
    Delete,
    Backspace,
    InsertRow,
    Cut,
    InsertStr,
    InsertBox,
    DelBox,
    Replace,
}

/// The steps of an edit command.
#[derive(Debug, Clone, Copy, PartialEq, Eq, Structural)]
pub struct EditPlan {
    /// Delete the selected range first, recorded as a deletion forwards (`Some(true)`) or
    /// backwards (`Some(false)`).
    pub del_selection: Option<bool>,
    /// Clear the selection after deleting it (a cut keeps it).
    pub clear_selection: bool,
    /// The edit to run at the cursor: none where the deletion of the selection was the whole
    /// command.
    pub op: Option<EditOp>,
    /// The command is not an edit: nothing is done (after the deletion of the selection).
    pub cancel: bool,
    /// Record the edit for undo and forget what could be redone.
    pub record_history: bool,
}

/// The edit a command runs at the cursor; `None` for a command that is not an edit.
pub open spec fn edit_op_of(e: E_Cmd) -> Option<EditOp> {
    match e {
        E_Cmd::DelNextChar => Some(EditOp::Delete),
        E_Cmd::DelPrevChar => Some(EditOp::Backspace),
        E_Cmd::InsertRow => Some(EditOp::InsertRow),
        E_Cmd::Cut => Some(EditOp::Cut),
        E_Cmd::InsertStr(_) => Some(EditOp::InsertStr),
        E_Cmd::InsertBox(_) => Some(EditOp::InsertBox),
        E_Cmd::DelBox(_) => Some(EditOp::DelBox),
        E_Cmd::ReplaceExec(_, _, _) => Some(EditOp::Replace),
        _ => None,
    }
}

/// The steps of `e_cmd`, given whether a range with width is selected, whether the command
/// edits the text, and the command the editor is handling (`current`, `Null` when the edit
/// comes from elsewhere than the editor's own keys).
/// - With a range selected and an editing command, the range is deleted first (as a forward
///   deletion for `DelNextChar`, else backwards) and the selection cleared unless it is a cut.
/// - A deletion key with a range selected does nothing more; any other command runs its edit
///   at the cursor, or stops where it is no edit.
/// - The edit is recorded for undo unless the command being handled is undo or redo.
pub open spec fn edit_plan(e_cmd: E_Cmd, is_selected_width: bool, is_edit: bool, current: E_Cmd) -> EditPlan {
    let del_sel = is_selected_width && is_edit;
    let handled = if current is Null { e_cmd } else { current };
    let sel_only = (e_cmd is DelNextChar || e_cmd is DelPrevChar) && is_selected_width;
    EditPlan {
        del_selection: if del_sel { Some(e_cmd is DelNextChar) } else { None },
        clear_selection: del_sel && !(e_cmd is Cut),
        op: if sel_only { None } else { edit_op_of(e_cmd) },
        cancel: !sel_only && edit_op_of(e_cmd) is None,
        record_history: !(handled is Undo || handled is Redo),
    }
}

/// The steps of an edit command (see `edit_plan`).
pub fn plan_edit(e_cmd: &E_Cmd, is_selected_width: bool, is_edit: bool, current: &E_Cmd) -> (p: EditPlan)
    ensures
        p == edit_plan(*e_cmd, is_selected_width, is_edit, *current),
{
    let del_sel = is_selected_width && is_edit;
    let is_del_next = matches!(e_cmd, E_Cmd::DelNextChar);
    let is_del = matches!(e_cmd, E_Cmd::DelNextChar | E_Cmd::DelPrevChar);
    let is_cut = matches!(e_cmd, E_Cmd::Cut);
    let sel_only = is_del && is_selected_width;
    let op = match e_cmd {
        E_Cmd::DelNextChar => Some(EditOp::Delete),
        E_Cmd::DelPrevChar => Some(EditOp::Backspace),
        E_Cmd::InsertRow => Some(EditOp::InsertRow),
        E_Cmd::Cut => Some(EditOp::Cut),
        E_Cmd::InsertStr(_) => Some(EditOp::InsertStr),
        E_Cmd::InsertBox(_) => Some(EditOp::InsertBox),
        E_Cmd::DelBox(_) => Some(EditOp::DelBox),
        E_Cmd::ReplaceExec(_, _, _) => Some(EditOp::Replace),
        _ => None,
    };
    let undo_redo = match current {
        E_Cmd::Null => matches!(e_cmd, E_Cmd::Undo | E_Cmd::Redo),
        _ => matches!(current, E_Cmd::Undo | E_Cmd::Redo),
    };
    EditPlan {
        del_selection: if del_sel { Some(is_del_next) } else { None },
        clear_selection: del_sel && !is_cut,
        op: if sel_only { None } else { op },
        cancel: !sel_only && op.is_none(),
        record_history: !undo_redo,
    }
}

} // verus!
