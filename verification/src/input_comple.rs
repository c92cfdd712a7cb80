//! Word completion in the editor: what an editor command does while the list of candidates is
//! open. The decision is made here; the editor carries it out on its list and its text.
use crate::keycmd::E_Cmd;
use crate::model::Direction;
use vstd::prelude::*;

verus! {

/// What the editor does with a command while the completion list is open.
#[derive(Debug, Clone, Copy, PartialEq, Eq, Structural)]
pub enum InputCompleStep {
    /// Look the candidates up again for the word before the cursor.
    Reinit,
    /// Take the highlighted candidate and close the list.
    SelectAndClose,
    /// Move the cursor to text row `y` and display column `x`, close the list, redraw all.
    MoveCursorAndClose(usize, usize),
    /// Highlight the candidate under the mouse at screen row `y`, column `x`; redraw the list
    /// only where the highlight changed.
    HoverCandidate(usize, usize),
    /// Clear the highlight and redraw the list.
    ClearHighlight,
    /// Move the highlight and redraw the list.
    MoveHighlight(Direction),
    /// Nothing to do.
    Cancel,
    /// Edit the text, then look the candidates up again.
    EditThenReinit,
    /// Edit the text, close the list and redraw all.
    EditThenClose,
    /// Not the list's command: go on with it.
    Next,
}

/// The step for `e_cmd`. `mouse_within` and `mouse_around` tell whether the mouse position of
/// the command is on the list or next to it, `is_edit` whether the command edits the text, and
/// `rnw_margin`, `row_posi`, `offset_y` where the text starts on the screen: the width of the
/// row numbers, the screen row of the editor area and the first text row shown.
pub open spec fn input_comple_step(
    e_cmd: E_Cmd,
    mouse_within: bool,
    mouse_around: bool,
    is_edit: bool,
    rnw_margin: usize,
    row_posi: usize,
    offset_y: usize,
) -> InputCompleStep {
    match e_cmd {
        E_Cmd::InputComple => InputCompleStep::Reinit,
        E_Cmd::MouseDownLeft(y, x) => if mouse_within {
            InputCompleStep::SelectAndClose
        } else {
            InputCompleStep::MoveCursorAndClose((y - row_posi + offset_y) as usize, (x - rnw_margin) as usize)
        },
        E_Cmd::MouseMove(y, x) => if mouse_within {
            InputCompleStep::HoverCandidate(y, x)
        } else if mouse_around {
            InputCompleStep::ClearHighlight
        } else {
            InputCompleStep::Cancel
        },
        E_Cmd::CursorDown | E_Cmd::MouseScrollDown => InputCompleStep::MoveHighlight(Direction::Down),
        E_Cmd::CursorUp | E_Cmd::MouseScrollUp => InputCompleStep::MoveHighlight(Direction::Up),
        E_Cmd::CursorRight => InputCompleStep::MoveHighlight(Direction::Right),
        E_Cmd::CursorLeft => InputCompleStep::MoveHighlight(Direction::Left),
        E_Cmd::InsertRow => InputCompleStep::SelectAndClose,
        E_Cmd::InsertStr(_) | E_Cmd::DelPrevChar => if is_edit {
            InputCompleStep::EditThenReinit
        } else {
            InputCompleStep::Reinit
        },
        _ => if is_edit {
            InputCompleStep::EditThenClose
        } else {
            InputCompleStep::Next
        },
    }
}

/// A press outside the list must fall on the text: right of the row numbers and in the editor
/// area (the position computation would underflow otherwise).
pub open spec fn input_comple_step_ok(e_cmd: E_Cmd, mouse_within: bool, rnw_margin: usize, row_posi: usize, offset_y: usize) -> bool {
    match e_cmd {
        E_Cmd::MouseDownLeft(y, x) => mouse_within || (x >= rnw_margin && y >= row_posi && y - row_posi + offset_y <= usize::MAX),
        _ => true,
    }
}

/// The step for a command while the completion list is open (see `input_comple_step`).
pub fn ctrl_input_comple(
    e_cmd: &E_Cmd,
    mouse_within: bool,
    mouse_around: bool,
    is_edit: bool,
    rnw_margin: usize,
    row_posi: usize,
    offset_y: usize,
) -> (s: InputCompleStep)
    requires
        input_comple_step_ok(*e_cmd, mouse_within, rnw_margin, row_posi, offset_y),
    ensures
        s == input_comple_step(*e_cmd, mouse_within, mouse_around, is_edit, rnw_margin, row_posi, offset_y),
{
    match e_cmd {
        E_Cmd::InputComple => InputCompleStep::Reinit,
        E_Cmd::MouseDownLeft(y, x) => if mouse_within {
            InputCompleStep::SelectAndClose
        } else {
            InputCompleStep::MoveCursorAndClose(*y - row_posi + offset_y, *x - rnw_margin)
        },
        E_Cmd::MouseMove(y, x) => if mouse_within {
            InputCompleStep::HoverCandidate(*y, *x)
        } else if mouse_around {
            InputCompleStep::ClearHighlight
        } else {
            InputCompleStep::Cancel
        },
        E_Cmd::CursorDown | E_Cmd::MouseScrollDown => InputCompleStep::MoveHighlight(Direction::Down),
        E_Cmd::CursorUp | E_Cmd::MouseScrollUp => InputCompleStep::MoveHighlight(Direction::Up),
        E_Cmd::CursorRight => InputCompleStep::MoveHighlight(Direction::Right),
        E_Cmd::CursorLeft => InputCompleStep::MoveHighlight(Direction::Left),
        E_Cmd::InsertRow => InputCompleStep::SelectAndClose,
        E_Cmd::InsertStr(_) | E_Cmd::DelPrevChar => if is_edit {
            InputCompleStep::EditThenReinit
        } else {
            InputCompleStep::Reinit
        },
        _ => if is_edit {
            InputCompleStep::EditThenClose
        } else {
            InputCompleStep::Next
        },
    }
}

/// While the list is open, the arrow keys move the highlight the way they point, whatever
/// the mouse and the edit state: down for the down arrow, up for the up arrow, and so for right
/// and left; the mouse wheel moves it as the arrow of its direction does, and the up and down
/// arrows never move it the same way.
pub proof fn lemma_arrows_move_highlight(
    mouse_within: bool,
    mouse_around: bool,
    is_edit: bool,
    rnw_margin: usize,
    row_posi: usize,
    offset_y: usize,
)
    ensures
        input_comple_step(E_Cmd::CursorDown, mouse_within, mouse_around, is_edit, rnw_margin, row_posi, offset_y)
            == InputCompleStep::MoveHighlight(Direction::Down),
        input_comple_step(E_Cmd::CursorUp, mouse_within, mouse_around, is_edit, rnw_margin, row_posi, offset_y)
            == InputCompleStep::MoveHighlight(Direction::Up),
        input_comple_step(E_Cmd::CursorRight, mouse_within, mouse_around, is_edit, rnw_margin, row_posi, offset_y)
            == InputCompleStep::MoveHighlight(Direction::Right),
        input_comple_step(E_Cmd::CursorLeft, mouse_within, mouse_around, is_edit, rnw_margin, row_posi, offset_y)
            == InputCompleStep::MoveHighlight(Direction::Left),
        input_comple_step(E_Cmd::MouseScrollDown, mouse_within, mouse_around, is_edit, rnw_margin, row_posi, offset_y)
            == input_comple_step(E_Cmd::CursorDown, mouse_within, mouse_around, is_edit, rnw_margin, row_posi, offset_y),
        input_comple_step(E_Cmd::MouseScrollUp, mouse_within, mouse_around, is_edit, rnw_margin, row_posi, offset_y)
            == input_comple_step(E_Cmd::CursorUp, mouse_within, mouse_around, is_edit, rnw_margin, row_posi, offset_y),
        input_comple_step(E_Cmd::CursorDown, mouse_within, mouse_around, is_edit, rnw_margin, row_posi, offset_y)
            != input_comple_step(E_Cmd::CursorUp, mouse_within, mouse_around, is_edit, rnw_margin, row_posi, offset_y),
{
}

/// A press on the list and the Enter key both take the highlighted candidate and close the
/// list; a press elsewhere on the text closes it and moves the cursor to the text position
/// under the mouse: the screen row less the editor's first screen row plus the first text row
/// shown, and the screen column less the row-number width.
pub proof fn lemma_press_and_enter_close_list(
    y: usize,
    x: usize,
    mouse_within: bool,
    mouse_around: bool,
    is_edit: bool,
    rnw_margin: usize,
    row_posi: usize,
    offset_y: usize,
)
    requires
        input_comple_step_ok(E_Cmd::MouseDownLeft(y, x), mouse_within, rnw_margin, row_posi, offset_y),
    ensures
        input_comple_step(E_Cmd::InsertRow, mouse_within, mouse_around, is_edit, rnw_margin, row_posi, offset_y)
            == InputCompleStep::SelectAndClose,
        mouse_within ==> input_comple_step(E_Cmd::MouseDownLeft(y, x), mouse_within, mouse_around, is_edit, rnw_margin, row_posi, offset_y)
            == InputCompleStep::SelectAndClose,
        !mouse_within ==> (input_comple_step(E_Cmd::MouseDownLeft(y, x), mouse_within, mouse_around, is_edit, rnw_margin, row_posi, offset_y)
            matches InputCompleStep::MoveCursorAndClose(ty, tx) && ty + row_posi == y + offset_y && tx + rnw_margin == x),
{
}

} // verus!
