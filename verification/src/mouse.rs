//! What the editor does with a left mouse press, drag or release: whether it drags, which
//! selection mode it selects in, whether a scrollbar takes the event, and where the cursor
//! goes. The editor carries out the steps on its scrollbars, selection and cursor.
use crate::cmd::CmdType;
use crate::model::SelMode;
use crate::scroll::{mouse_target_col, mouse_target_row, scroll_in_range, ScrollState};
use vstd::prelude::*;

verus! {

/// The mouse state of the editor: dragging, the selection mode, and whether each scrollbar is
/// being moved by the mouse.
#[derive(Debug, Clone, Copy, PartialEq, Eq, Structural)]
pub struct MouseFlags {
    pub is_dragging: bool,
    pub sel_mode: SelMode,
    pub scrl_v_is_enable: bool,
    pub scrl_h_is_enable: bool,
}

/// Where things are on the screen: whether the vertical scrollbar is shown, the columns of the
/// row numbers and the margin after them, the text columns, the row and height of the
/// horizontal scrollbar, and the rows of the terminal.
#[derive(Debug, Clone, Copy, PartialEq, Eq, Structural)]
pub struct MouseGeom {
    pub scrl_v_is_show: bool,
    pub rnw_margin: usize,
    pub col_len: usize,
    pub scrl_h_row_posi: usize,
    pub scrl_h_height: usize,
    pub term_rows: usize,
}

/// Where the cursor goes.
#[derive(Debug, Clone, Copy, PartialEq, Eq, Structural)]
pub enum MouseTarget {
    /// The cursor stays.
    Stay,
    /// A press on the row numbers: select the row at screen row `y` whole, and put the cursor
    /// at its start (`Editor::select_row`).
    SelectRow(usize),
    /// Put the cursor on text row `y` at column `x` of the text area (where box selection
    /// points past the end of the row, at that column as it is); with `true`, clear the
    /// selection (`Editor::mouse_move_cur`).
    MoveCur(usize, usize, bool),
}

/// The steps of one mouse event, in order: the new state, the screen row at which to move
/// the vertical scrollbar, the screen column at which to move the horizontal one, and where
/// the cursor goes.
#[derive(Debug, Clone, Copy, PartialEq, Eq, Structural)]
pub struct MouseStep {
    pub flags: MouseFlags,
    pub scrlbar_v: Option<usize>,
    pub scrlbar_h: Option<usize>,
    pub target: MouseTarget,
}

/// The screen row and column of a left press or drag (in either selection mode); `None` for
/// any other command.
pub open spec fn mouse_point(cmd: CmdType) -> Option<(usize, usize)> {
    match cmd {
        CmdType::MouseDownLeft(y, x) | CmdType::MouseDragLeftUp(y, x) | CmdType::MouseDragLeftDown(y, x)
        | CmdType::MouseDragLeftLeft(y, x) | CmdType::MouseDragLeftRight(y, x) | CmdType::MouseDownLeftBox(y, x)
        | CmdType::MouseDragLeftBox(y, x) => Some((y, x)),
        _ => None,
    }
}

/// Is the command a drag in a normal selection?
pub open spec fn is_plain_drag(cmd: CmdType) -> bool {
    cmd is MouseDragLeftUp || cmd is MouseDragLeftDown || cmd is MouseDragLeftLeft || cmd is MouseDragLeftRight
}

/// The steps of `cmd` (see `MouseStep`):
/// - A release stops dragging and does nothing more; a command that is not a left press or
///   drag does nothing.
/// - A drag in a normal selection starts dragging; box commands select in box mode, the
///   others in normal mode.
/// - On the rows of the text area (its last row included) with the vertical scrollbar shown,
///   a press right of the text columns or an up or down drag of the scrollbar moves it (and it
///   stays taken by the mouse); any other event there but a sideways drag of the scrollbar
///   releases it.
/// - A press on the horizontal scrollbar's rows, or a drag of it, moves it and ends the step;
///   any other event releases it.
/// - With neither scrollbar taken, a press left of the row-number margin selects the row, and
///   anything else moves the cursor to the row and column pointed at (see
///   `mouse_target_row`, `mouse_target_col`), clearing the selection on a press.
pub open spec fn mouse_step(cmd: CmdType, f: MouseFlags, g: MouseGeom, st: ScrollState) -> MouseStep {
    let stay = MouseStep { flags: f, scrlbar_v: None, scrlbar_h: None, target: MouseTarget::Stay };
    if cmd is MouseUpLeft {
        MouseStep { flags: MouseFlags { is_dragging: false, ..f }, ..stay }
    } else {
        match mouse_point(cmd) {
            None => stay,
            Some((y, x)) => {
                let drag = is_plain_drag(cmd);
                let mode = if cmd is MouseDownLeftBox || cmd is MouseDragLeftBox { SelMode::BoxSelect } else { SelMode::Normal };
                let in_v = g.scrl_v_is_show && st.row_posi <= y && y <= st.row_posi + st.row_len;
                let v_press = cmd is MouseDownLeft && g.rnw_margin + g.col_len <= x;
                let v_drag = drag && f.scrl_v_is_enable;
                let v_en = if in_v { v_press || v_drag } else { f.scrl_v_is_enable };
                let v_move = in_v && (v_press || (v_drag && (cmd is MouseDragLeftDown || cmd is MouseDragLeftUp)));
                let h_move = (cmd is MouseDownLeft && g.scrl_h_row_posi <= y && y < g.scrl_h_row_posi + g.scrl_h_height)
                    || (drag && f.scrl_h_is_enable);
                let flags = MouseFlags {
                    is_dragging: if drag { true } else { f.is_dragging },
                    sel_mode: mode,
                    scrl_v_is_enable: v_en,
                    scrl_h_is_enable: h_move,
                };
                let target = if h_move || v_en {
                    MouseTarget::Stay
                } else if cmd is MouseDownLeft && x < g.rnw_margin - 1 {
                    MouseTarget::SelectRow(y)
                } else {
                    MouseTarget::MoveCur(
                        mouse_target_row(st, y, g.term_rows) as usize,
                        mouse_target_col(x, g.rnw_margin) as usize,
                        cmd is MouseDownLeft,
                    )
                };
                MouseStep {
                    flags,
                    scrlbar_v: if v_move { Some(y) } else { None },
                    scrlbar_h: if h_move { Some(x) } else { None },
                    target,
                }
            },
        }
    }
}

/// The steps of a left mouse press, drag or release (see `mouse_step`).
pub fn ctrl_mouse(cmd: &CmdType, f: MouseFlags, g: MouseGeom, st: &ScrollState) -> (r: MouseStep)
    requires
        scroll_in_range(*st),
        st.len_rows >= 1,
        g.rnw_margin >= 1,
        g.rnw_margin + g.col_len <= usize::MAX,
        g.scrl_h_row_posi + g.scrl_h_height <= usize::MAX,
        mouse_point(*cmd) is Some ==> mouse_point(*cmd).unwrap().0 <= 0x3fff_ffff,
    ensures
        r == mouse_step(*cmd, f, g, *st),
{
    let stay = MouseStep { flags: f, scrlbar_v: None, scrlbar_h: None, target: MouseTarget::Stay };
    let (y, x) = match cmd {
        CmdType::MouseUpLeft(_, _) => {
            return MouseStep { flags: MouseFlags { is_dragging: false, ..f }, ..stay };
        },
        CmdType::MouseDownLeft(y, x) | CmdType::MouseDragLeftUp(y, x) | CmdType::MouseDragLeftDown(y, x)
        | CmdType::MouseDragLeftLeft(y, x) | CmdType::MouseDragLeftRight(y, x) | CmdType::MouseDownLeftBox(y, x)
        | CmdType::MouseDragLeftBox(y, x) => (*y, *x),
        _ => {
            return stay;
        },
    };
    let drag = matches!(cmd, CmdType::MouseDragLeftUp(_, _) | CmdType::MouseDragLeftDown(_, _) | CmdType::MouseDragLeftLeft(_, _) | CmdType::MouseDragLeftRight(_, _));
    let is_box = matches!(cmd, CmdType::MouseDownLeftBox(_, _) | CmdType::MouseDragLeftBox(_, _));
    let is_down = matches!(cmd, CmdType::MouseDownLeft(_, _));
    let is_updown_drag = matches!(cmd, CmdType::MouseDragLeftUp(_, _) | CmdType::MouseDragLeftDown(_, _));
    let mode = if is_box { SelMode::BoxSelect } else { SelMode::Normal };
    let in_v = g.scrl_v_is_show && st.row_posi <= y && y <= st.row_posi + st.row_len;
    let v_press = is_down && g.rnw_margin + g.col_len <= x;
    let v_drag = drag && f.scrl_v_is_enable;
    let v_en = if in_v { v_press || v_drag } else { f.scrl_v_is_enable };
    let v_move = in_v && (v_press || (v_drag && is_updown_drag));
    let h_move = (is_down && g.scrl_h_row_posi <= y && y < g.scrl_h_row_posi + g.scrl_h_height) || (drag && f.scrl_h_is_enable);
    let flags = MouseFlags {
        is_dragging: if drag { true } else { f.is_dragging },
        sel_mode: mode,
        scrl_v_is_enable: v_en,
        scrl_h_is_enable: h_move,
    };
    let target = if h_move || v_en {
        MouseTarget::Stay
    } else if is_down && x < g.rnw_margin - 1 {
        MouseTarget::SelectRow(y)
    } else {
        let (row, col) = st.mouse_cur_target(y, x, g.term_rows, g.rnw_margin);
        MouseTarget::MoveCur(row, col, is_down)
    };
    MouseStep {
        flags,
        scrlbar_v: if v_move { Some(y) } else { None },
        scrlbar_h: if h_move { Some(x) } else { None },
        target,
    }
}

} // verus!
