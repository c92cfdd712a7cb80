//! Vertical scrolling of the editor: which row of the text the window shows first after a
//! command, so that the cursor stays in view.
use crate::cmd::CmdType;
use crate::def::USIZE_UNDEFINED;
use crate::cfg::Cfg;
use crate::model::{Cur, ScrollbarV, SelMode};
use crate::util::{fit_len, get_row_cur_x_disp_x, get_until_disp_x, get_x_offset, layout_end, max_char_width, row_cur_x_disp_x, tab_ok, x_offset};
use vstd::prelude::*;

verus! {

/// Rows scrolled at a time by the cursor and the mouse.
pub const SCROLL_UP_DOWN_MARGIN: usize = 1;
/// Rows kept above the cursor when the view jumps to it.
pub const OFFSET_Y_MARGIN: usize = 3;

/// What vertical scrolling reads of the editor: the cursor row, the first row shown, the
/// number of rows of the window and the screen row where it starts, the number of rows of
/// the text, the vertical scrollbar, whether a range is selected, and whether the setting
/// to move the cursor by scrolling is on.
#[derive(Debug, Clone, PartialEq, Eq)]
pub struct ScrollState {
    pub cur_y: usize,
    pub offset_y: usize,
    pub row_len: usize,
    pub row_posi: usize,
    pub len_rows: usize,
    pub scrl_v: ScrollbarV,
    pub is_selected: bool,
    pub move_cur_by_scrolling: bool,
}

/// The sizes stay well inside `usize`, so that no sum or product of the computation overflows
/// (the scrollbar's numbers count only where it is laid out or enabled).
pub open spec fn scroll_in_range(st: ScrollState) -> bool {
    &&& st.cur_y <= 0x3fff_ffff
    &&& st.offset_y <= 0x3fff_ffff
    &&& st.row_len <= 0x3fff_ffff
    &&& st.row_posi <= 0x3fff_ffff
    &&& st.len_rows <= 0x3fff_ffff
    &&& (st.scrl_v.bar_len != USIZE_UNDEFINED && st.scrl_v.bar_len > 0) ==> st.row_len * st.scrl_v.move_len <= 0x3fff_ffff
    &&& st.scrl_v.is_enable ==> st.scrl_v.row_posi * st.scrl_v.move_len <= usize::MAX
}

/// The number of rows the view can cover: with a scrollbar, the window's rows plus the rows
/// the bar can still move, each worth `move_len` rows; otherwise the text's rows.
/// `None` where the bar is longer than the window (the subtraction would underflow).
pub open spec fn disp_rows(st: ScrollState) -> Option<int> {
    if st.scrl_v.bar_len != USIZE_UNDEFINED && st.scrl_v.bar_len > 0 {
        if st.scrl_v.bar_len <= st.row_len {
            Some(st.row_len + (st.row_len - st.scrl_v.bar_len) * st.scrl_v.move_len)
        } else {
            None
        }
    } else {
        Some(st.len_rows as int)
    }
}

/// The first row shown after jumping to the cursor: below the window, near the end of the
/// text or three rows above the cursor; above the window, three rows above the cursor;
/// otherwise unchanged. `None` where a subtraction would underflow.
pub open spec fn offset_move_row(st: ScrollState) -> Option<int> {
    if st.cur_y >= st.offset_y + st.row_len {
        if st.len_rows == 0 {
            None
        } else if st.cur_y + st.row_len < st.len_rows - 1 {
            if st.cur_y >= OFFSET_Y_MARGIN { Some(st.cur_y - OFFSET_Y_MARGIN) } else { None }
        } else if st.len_rows - 1 >= st.row_len {
            Some(st.len_rows - 1 - st.row_len + OFFSET_Y_MARGIN)
        } else {
            None
        }
    } else if st.cur_y < st.offset_y {
        Some(if st.cur_y > OFFSET_Y_MARGIN { st.cur_y - OFFSET_Y_MARGIN } else { 0 })
    } else {
        Some(st.offset_y as int)
    }
}

/// Commands after which a view below the cursor comes back: deletions, undo and redo, find
/// and reopening.
pub open spec fn is_del_like(c: CmdType) -> bool {
    c is DelNextChar || c is DelPrevChar || c is Undo || c is Redo || c is FindNext || c is FindBack || c is ReOpenFile
}

/// Commands after which the view follows a cursor that reaches its bottom.
pub open spec fn is_down_like(c: CmdType) -> bool {
    c is ReplaceExec || c is GrepResultProm || c is CursorDown || c is CursorDownSelect || c is MouseScrollDown
        || c is CursorFileEnd || c is InsertStr || c is InsertRow || c is DelNextChar || c is DelPrevChar || c is Undo
        || c is Redo || c is FindNext || c is FindBack
}

/// The first row shown after `cmd` when the cursor is in view (or the command is a drag).
pub open spec fn follow_offset(st: ScrollState, cmd: CmdType) -> Option<int> {
    let oy = st.offset_y as int;
    let rl = st.row_len as int;
    if cmd is CursorFileHome {
        Some(0)
    } else if is_del_like(cmd) && st.offset_y > st.cur_y {
        match disp_rows(st) {
            Some(d) => if d < 1 {
                None
            } else if rl >= d - 1 {
                Some(0)
            } else if st.cur_y < OFFSET_Y_MARGIN + st.offset_y && st.cur_y >= OFFSET_Y_MARGIN {
                Some(st.cur_y - OFFSET_Y_MARGIN)
            } else {
                Some(oy)
            },
            None => None,
        }
    } else if is_down_like(cmd) {
        if st.cur_y + SCROLL_UP_DOWN_MARGIN >= st.row_len + st.offset_y {
            match disp_rows(st) {
                Some(d) => if d >= rl {
                    let a = d - rl;
                    let b = st.cur_y + 1 + SCROLL_UP_DOWN_MARGIN - rl;
                    Some(if a <= b { a } else { b })
                } else {
                    None
                },
                None => None,
            }
        } else {
            Some(oy)
        }
    } else {
        follow_other(st, cmd)
    }
}

/// The first row shown after the remaining commands when the cursor is in view.
pub open spec fn follow_other(st: ScrollState, cmd: CmdType) -> Option<int> {
    let oy = st.offset_y as int;
    let rl = st.row_len as int;
    match cmd {
        CmdType::MoveRowProm => offset_move_row(st),
        CmdType::MouseDragLeftLeft(y, _) | CmdType::MouseDragLeftRight(y, _) => if st.is_selected {
            if y >= st.row_posi + st.row_len {
                match disp_rows(st) {
                    Some(d) => if d < oy {
                        None
                    } else if d - oy > rl {
                        Some(oy + SCROLL_UP_DOWN_MARGIN)
                    } else {
                        Some(oy)
                    },
                    None => None,
                }
            } else if y < st.row_posi && st.offset_y >= SCROLL_UP_DOWN_MARGIN {
                Some(oy - SCROLL_UP_DOWN_MARGIN)
            } else {
                Some(oy)
            }
        } else {
            Some(oy)
        },
        CmdType::MouseDragLeftDown(y, _) => match disp_rows(st) {
            Some(d) => Some(if y == st.row_posi + d { oy + SCROLL_UP_DOWN_MARGIN } else { oy }),
            None => None,
        },
        CmdType::MouseDragLeftUp(y, _) => Some(
            if y == 0 && st.offset_y >= SCROLL_UP_DOWN_MARGIN { oy - SCROLL_UP_DOWN_MARGIN } else { oy },
        ),
        CmdType::CursorUp | CmdType::MouseScrollUp | CmdType::CursorUpSelect => Some(
            if st.offset_y >= SCROLL_UP_DOWN_MARGIN && st.cur_y < SCROLL_UP_DOWN_MARGIN + st.offset_y {
                oy - SCROLL_UP_DOWN_MARGIN
            } else {
                oy
            },
        ),
        CmdType::CursorPageUp => Some(if st.offset_y >= st.row_len { oy - rl } else { 0 }),
        CmdType::CursorPageDown => match disp_rows(st) {
            Some(d) => if d < 1 {
                None
            } else if d - 1 > oy + rl * 2 {
                Some(oy + rl)
            } else if d >= rl {
                Some(d - rl)
            } else {
                None
            },
            None => None,
        },
        _ => Some(oy),
    }
}

/// The first row shown after `cmd`; `None` where the computation would underflow.
/// - With the cursor on the first row (and moving the cursor by scrolling on), the top.
/// - A mouse wheel (with that setting off) moves the view a row, within the rows it covers.
/// - A left press or drag on the scrollbar (setting off) shows the rows the bar stands at.
/// - Otherwise the view follows the command (`follow_offset`).
pub open spec fn scroll_offset(st: ScrollState, cmd: CmdType) -> Option<int> {
    let m = st.move_cur_by_scrolling;
    let oy = st.offset_y as int;
    let rl = st.row_len as int;
    if st.cur_y == 0 && m {
        Some(0)
    } else if !m && (cmd is MouseScrollDown || cmd is MouseScrollUp) {
        if cmd is MouseScrollDown {
            match disp_rows(st) {
                Some(d) => if d > rl {
                    Some(if oy + 1 <= d - rl { oy + 1 } else { d - rl })
                } else {
                    Some(oy)
                },
                None => None,
            }
        } else {
            Some(if st.offset_y == 0 { 0 } else { oy - 1 })
        }
    } else if !m && st.scrl_v.is_enable && (cmd is MouseDownLeft || cmd is MouseDragLeftUp || cmd is MouseDragLeftDown) {
        match disp_rows(st) {
            Some(d) => if d >= rl {
                let a = st.scrl_v.row_posi * st.scrl_v.move_len;
                Some(if a <= d - rl { a } else { d - rl })
            } else {
                None
            },
            None => None,
        }
    } else {
        follow_offset(st, cmd)
    }
}

impl ScrollState {
    /// The number of rows the view can cover (see `disp_rows`).
    pub fn get_disp_row_including_extra(&self) -> (r: usize)
        requires
            scroll_in_range(*self),
            disp_rows(*self) is Some,
        ensures
            r == disp_rows(*self).unwrap(),
            r <= 0x8000_0002,
    {
        if self.scrl_v.bar_len != USIZE_UNDEFINED && self.scrl_v.bar_len > 0 {
            let k = self.row_len - self.scrl_v.bar_len;
            proof {
                assert(k * self.scrl_v.move_len <= self.row_len * self.scrl_v.move_len) by (nonlinear_arith)
                    requires
                        k <= self.row_len,
                ;
            }
            self.row_len + k * self.scrl_v.move_len
        } else {
            self.len_rows
        }
    }

    /// Jump the view to the cursor (see `offset_move_row`).
    pub fn set_offset_move_row(&mut self)
        requires
            scroll_in_range(*old(self)),
            offset_move_row(*old(self)) is Some,
        ensures
            final(self).offset_y == offset_move_row(*old(self)).unwrap(),
            *final(self) == (ScrollState { offset_y: final(self).offset_y, ..*old(self) }),
    {
        if self.cur_y >= self.offset_y + self.row_len {
            self.offset_y = if self.cur_y + self.row_len < self.len_rows - 1 {
                self.cur_y - OFFSET_Y_MARGIN
            } else {
                self.len_rows - 1 - self.row_len + OFFSET_Y_MARGIN
            };
        } else if self.cur_y < self.offset_y {
            self.offset_y = if self.cur_y > OFFSET_Y_MARGIN { self.cur_y - OFFSET_Y_MARGIN } else { 0 };
        }
    }

    /// Adjust the first row shown after `cmd_type` (see `scroll_offset`); nothing else changes.
    pub fn scroll(&mut self, cmd_type: &CmdType)
        requires
            scroll_in_range(*old(self)),
            scroll_offset(*old(self), *cmd_type) is Some,
        ensures
            final(self).offset_y == scroll_offset(*old(self), *cmd_type).unwrap(),
            *final(self) == (ScrollState { offset_y: final(self).offset_y, ..*old(self) }),
    {
        let m = self.move_cur_by_scrolling;
        let is_wheel = match cmd_type {
            CmdType::MouseScrollDown | CmdType::MouseScrollUp => true,
            _ => false,
        };
        let is_bar_click = match cmd_type {
            CmdType::MouseDownLeft(_, _) | CmdType::MouseDragLeftUp(_, _) | CmdType::MouseDragLeftDown(_, _) => true,
            _ => false,
        };
        if self.cur_y == 0 && m {
            self.offset_y = 0;
        } else if !m && is_wheel {
            if let CmdType::MouseScrollDown = cmd_type {
                let d = self.get_disp_row_including_extra();
                if d > self.row_len {
                    let a = self.offset_y + 1;
                    let b = d - self.row_len;
                    self.offset_y = if a <= b { a } else { b };
                }
            } else {
                self.offset_y = if self.offset_y == 0 { 0 } else { self.offset_y - 1 };
            }
        } else if !m && self.scrl_v.is_enable && is_bar_click {
            let d = self.get_disp_row_including_extra();
            let a = self.scrl_v.row_posi * self.scrl_v.move_len;
            let b = d - self.row_len;
            self.offset_y = if a <= b { a } else { b };
        } else {
            self.follow(cmd_type);
        }
    }

    /// Adjust the first row shown after `cmd_type` when the cursor is in view (see
    /// `follow_offset`).
    fn follow(&mut self, cmd_type: &CmdType)
        requires
            scroll_in_range(*old(self)),
            follow_offset(*old(self), *cmd_type) is Some,
        ensures
            final(self).offset_y == follow_offset(*old(self), *cmd_type).unwrap(),
            *final(self) == (ScrollState { offset_y: final(self).offset_y, ..*old(self) }),
    {
        let oy = self.offset_y;
        let rl = self.row_len;
        let del_like = match cmd_type {
            CmdType::DelNextChar | CmdType::DelPrevChar | CmdType::Undo | CmdType::Redo | CmdType::FindNext
            | CmdType::FindBack | CmdType::ReOpenFile => true,
            _ => false,
        };
        let down_like = match cmd_type {
            CmdType::ReplaceExec(_, _, _) | CmdType::GrepResultProm | CmdType::CursorDown | CmdType::CursorDownSelect
            | CmdType::MouseScrollDown | CmdType::CursorFileEnd | CmdType::InsertStr(_) | CmdType::InsertRow
            | CmdType::DelNextChar | CmdType::DelPrevChar | CmdType::Undo | CmdType::Redo | CmdType::FindNext
            | CmdType::FindBack => true,
            _ => false,
        };
        if let CmdType::CursorFileHome = cmd_type {
            self.offset_y = 0;
        } else if del_like && oy > self.cur_y {
            let d = self.get_disp_row_including_extra();
            self.offset_y = if rl >= d - 1 {
                0
            } else if self.cur_y < OFFSET_Y_MARGIN + oy && self.cur_y >= OFFSET_Y_MARGIN {
                self.cur_y - OFFSET_Y_MARGIN
            } else {
                oy
            };
        } else if down_like {
            if self.cur_y + SCROLL_UP_DOWN_MARGIN >= rl + oy {
                let d = self.get_disp_row_including_extra();
                let a = d - rl;
                let b = self.cur_y + 1 + SCROLL_UP_DOWN_MARGIN - rl;
                self.offset_y = if a <= b { a } else { b };
            }
        } else {
            match cmd_type {
                CmdType::MoveRowProm => self.set_offset_move_row(),
                CmdType::MouseDragLeftLeft(y, _) | CmdType::MouseDragLeftRight(y, _) => {
                    if self.is_selected {
                        let y = *y;
                        if y >= self.row_posi + rl {
                            let d = self.get_disp_row_including_extra();
                            if d - oy > rl {
                                self.offset_y = oy + SCROLL_UP_DOWN_MARGIN;
                            }
                        } else if y < self.row_posi && oy >= SCROLL_UP_DOWN_MARGIN {
                            self.offset_y = oy - SCROLL_UP_DOWN_MARGIN;
                        }
                    }
                },
                CmdType::MouseDragLeftDown(y, _) => {
                    let d = self.get_disp_row_including_extra();
                    if *y == self.row_posi + d {
                        self.offset_y = oy + SCROLL_UP_DOWN_MARGIN;
                    }
                },
                CmdType::MouseDragLeftUp(y, _) => {
                    if *y == 0 && oy >= SCROLL_UP_DOWN_MARGIN {
                        self.offset_y = oy - SCROLL_UP_DOWN_MARGIN;
                    }
                },
                CmdType::CursorUp | CmdType::MouseScrollUp | CmdType::CursorUpSelect => {
                    if oy >= SCROLL_UP_DOWN_MARGIN && self.cur_y < SCROLL_UP_DOWN_MARGIN + oy {
                        self.offset_y = oy - SCROLL_UP_DOWN_MARGIN;
                    }
                },
                CmdType::CursorPageUp => {
                    self.offset_y = if oy >= rl { oy - rl } else { 0 };
                },
                CmdType::CursorPageDown => {
                    let d = self.get_disp_row_including_extra();
                    self.offset_y = if d - 1 > oy + rl * 2 { oy + rl } else { d - rl };
                },
                _ => {},
            }
        }
    }
}

/// The text row a left press or drag at screen row `y` points at: on the top screen row, the
/// row above the cursor; at or above the editor area, the first row; below the text, its last
/// row; on the bottom screen row (`term_rows`), the row after the window; otherwise the row
/// shown there, at most the last row.
pub open spec fn mouse_target_row(st: ScrollState, y: usize, term_rows: usize) -> int {
    if y == 0 {
        if st.cur_y > 0 { st.cur_y - 1 } else { 0 }
    } else if y + st.offset_y <= st.row_posi {
        0
    } else if st.len_rows < y + st.offset_y - st.row_posi {
        st.len_rows - 1
    } else if term_rows == y {
        st.offset_y + st.row_len
    } else {
        let r = (if y >= st.row_posi { y - st.row_posi } else { y as int }) + st.offset_y;
        if r <= st.len_rows - 1 { r } else { st.len_rows - 1 }
    }
}

/// The display column a mouse event at screen column `x` points at: left of the text (on the
/// row numbers) the first column, otherwise the columns after the row numbers.
pub open spec fn mouse_target_col(x: usize, rnw_margin: usize) -> int {
    if x < rnw_margin { 0 } else { x - rnw_margin }
}

impl ScrollState {
    /// The text row and display column a left press or drag at screen row `y` and column `x`
    /// points at (see `mouse_target_row`, `mouse_target_col`).
    pub fn mouse_cur_target(&self, y: usize, x: usize, term_rows: usize, rnw_margin: usize) -> (r: (usize, usize))
        requires
            scroll_in_range(*self),
            self.len_rows >= 1,
            y <= 0x3fff_ffff,
        ensures
            r.0 == mouse_target_row(*self, y, term_rows),
            r.1 == mouse_target_col(x, rnw_margin),
    {
        let row = if y == 0 {
            if self.cur_y > 0 { self.cur_y - 1 } else { 0 }
        } else if y + self.offset_y <= self.row_posi {
            0
        } else if self.len_rows < y + self.offset_y - self.row_posi {
            self.len_rows - 1
        } else if term_rows == y {
            self.offset_y + self.row_len
        } else {
            let r = (if y >= self.row_posi { y - self.row_posi } else { y }) + self.offset_y;
            if r <= self.len_rows - 1 { r } else { self.len_rows - 1 }
        };
        let col = if x < rnw_margin { 0 } else { x - rnw_margin };
        (row, col)
    }
}

/// Columns kept right of the cursor when the view jumps to it horizontally.
pub const X_MARGIN: usize = 3;
/// Characters the view moves at a time horizontally.
pub const SCROLL_ADD_MARGIN: usize = 10;
/// How near the edge of the view the cursor moved by a key may come before the view moves.
pub const SCROLL_HORIZONTAL_LEFT_RIGHT_JUDGE_MARGIN: usize = 3;
/// How near the edge of the view the cursor dragged by the mouse may come before it moves.
pub const SCROLL_HORIZONTAL_MOUSE_DRAG_LEFT_JUDGE_MARGIN: usize = 8;

/// What horizontal scrolling reads of the editor: the cursor, the cursor's row before the
/// command, the first character shown (now and before the command) and its display column,
/// the columns of the window, the selection mode, and whether the horizontal scrollbar is in
/// use (the width is then measured on the widest row).
#[derive(Debug, Clone, Copy, PartialEq, Eq)]
pub struct HScrollState {
    pub cur: Cur,
    pub cur_org_y: usize,
    pub offset_x: usize,
    pub offset_x_org: usize,
    pub offset_disp_x: usize,
    pub col_len: usize,
    pub sel_mode: SelMode,
    pub scrl_h_is_enable: bool,
}

/// The sizes stay well inside `usize`.
pub open spec fn hscroll_in_range(st: HScrollState, cfg: Cfg, row: Seq<char>, disp_row: Seq<char>) -> bool {
    &&& tab_ok(cfg)
    &&& st.cur.disp_x <= 0x3fff_ffff
    &&& st.offset_x <= 0x3fff_ffff
    &&& st.offset_disp_x <= 0x3fff_ffff
    &&& st.col_len <= 0x3fff_ffff
    &&& st.offset_disp_x + row.len() * max_char_width(cfg) + 1 <= usize::MAX
    &&& disp_row.len() * max_char_width(cfg) + 1 <= usize::MAX
}

/// Is the command one after which the view jumps to the cursor on its row?
pub open spec fn is_hjump_cmd(c: CmdType) -> bool {
    c is ReplaceExec || c is CursorFileEnd || c is CursorRowHome || c is CursorRowEnd || c is CursorRowHomeSelect
        || c is CursorRowEndSelect || c is InsertStr || c is DelNextChar || c is DelPrevChar || c is Undo || c is Redo
        || c is FindNext || c is FindBack || c is ReOpenFile || c is Null
}

/// The first character shown on the cursor's row `row` after `cmd`, before its display column
/// is measured; `None` where the computation would underflow or slice past the row.
/// - A cursor that moved to another row: the view jumps to it where it is out of view (in box
///   mode, the column shown stays and the character is found again).
/// - On the same row, after edits, row ends and finds, the view jumps to the cursor; moving
///   right near the right edge moves the view ten characters right where the row goes on past
///   it, and moving left near the left edge ten characters left.
pub open spec fn hscroll_offset_x(st: HScrollState, cfg: Cfg, cmd: CmdType, row: Seq<char>) -> Option<int> {
    let ox = st.offset_x as int;
    if st.cur_org_y != st.cur.y {
        if !(st.offset_disp_x <= st.cur.disp_x && st.cur.disp_x < st.offset_disp_x + st.col_len) {
            if st.col_len >= X_MARGIN && st.cur.x <= row.len() {
                Some(x_offset(cfg, row.take(st.cur.x as int), (st.col_len - X_MARGIN) as nat))
            } else {
                None
            }
        } else {
            Some(ox)
        }
    } else if is_hjump_cmd(cmd) {
        if st.col_len >= X_MARGIN && st.cur.x <= row.len() {
            Some(x_offset(cfg, row.take(st.cur.x as int), (st.col_len - X_MARGIN) as nat))
        } else {
            None
        }
    } else if (cmd is CursorRight || cmd is CursorRightSelect || cmd is MouseDragLeftRight) && st.sel_mode != SelMode::BoxSelect {
        let judge = if cmd is MouseDragLeftRight {
            SCROLL_HORIZONTAL_MOUSE_DRAG_LEFT_JUDGE_MARGIN
        } else {
            SCROLL_HORIZONTAL_LEFT_RIGHT_JUDGE_MARGIN
        };
        if st.offset_disp_x + st.col_len < st.cur.disp_x + judge {
            if st.offset_x <= row.len() {
                let width = row_cur_x_disp_x(cfg, row.skip(ox), st.offset_disp_x as nat, true).1;
                Some(if width > st.col_len { ox + SCROLL_ADD_MARGIN } else { ox })
            } else {
                None
            }
        } else {
            Some(ox)
        }
    } else if cmd is CursorLeft || cmd is CursorLeftSelect || cmd is MouseDragLeftLeft {
        let judge = if cmd is MouseDragLeftLeft {
            SCROLL_HORIZONTAL_MOUSE_DRAG_LEFT_JUDGE_MARGIN
        } else {
            SCROLL_HORIZONTAL_LEFT_RIGHT_JUDGE_MARGIN
        };
        if st.cur.disp_x < st.offset_disp_x {
            None
        } else if st.cur.disp_x - st.offset_disp_x <= judge {
            Some(if st.offset_x >= SCROLL_ADD_MARGIN { ox - SCROLL_ADD_MARGIN } else { 0 })
        } else {
            Some(ox)
        }
    } else {
        Some(ox)
    }
}

/// The first character shown and its display column after `cmd` (see `hscroll_offset_x`): at
/// the row start both are 0; in box mode on another row the column stays and the character
/// is the one at that column; otherwise, where the first character changed from the one
/// before the command, its column is measured on `disp_row` (the widest row while the
/// horizontal scrollbar is in use, else the cursor's row) where that row is long enough.
pub open spec fn hscroll(st: HScrollState, cfg: Cfg, cmd: CmdType, row: Seq<char>, disp_row: Seq<char>) -> Option<(int, int)> {
    if st.cur.x == 0 {
        Some((0, 0))
    } else if st.sel_mode == SelMode::BoxSelect && st.cur_org_y != st.cur.y {
        Some((fit_len(cfg, row, st.offset_disp_x as nat, layout_end(row, false)), st.offset_disp_x as int))
    } else {
        match hscroll_offset_x(st, cfg, cmd, row) {
            Some(ox) => if ox != st.offset_x_org && disp_row.len() >= ox {
                Some((ox, row_cur_x_disp_x(cfg, disp_row.take(ox), 0, false).1 as int))
            } else {
                Some((ox, st.offset_disp_x as int))
            },
            None => None,
        }
    }
}

impl HScrollState {
    /// Adjust the first character shown and its display column after `cmd_type` (see
    /// `hscroll`); nothing else changes. `row` holds the characters of the cursor's row, and
    /// `disp_row` those of the row the display column is measured on.
    pub fn scroll_horizontal(&mut self, cfg: &Cfg, cmd_type: &CmdType, row: &[char], disp_row: &[char])
        requires
            hscroll_in_range(*old(self), *cfg, row@, disp_row@),
            hscroll(*old(self), *cfg, *cmd_type, row@, disp_row@) is Some,
        ensures
            final(self).offset_x == hscroll(*old(self), *cfg, *cmd_type, row@, disp_row@).unwrap().0,
            final(self).offset_disp_x == hscroll(*old(self), *cfg, *cmd_type, row@, disp_row@).unwrap().1,
            *final(self) == (HScrollState {
                offset_x: final(self).offset_x,
                offset_disp_x: final(self).offset_disp_x,
                ..*old(self)
            }),
    {
        if self.cur.x == 0 {
            self.offset_x = 0;
            self.offset_disp_x = 0;
            return;
        }
        proof {
            assert(row@.len() * max_char_width(*cfg) <= usize::MAX);
        }
        if self.sel_mode == SelMode::BoxSelect && self.cur_org_y != self.cur.y {
            self.offset_x = get_until_disp_x(cfg, row, self.offset_disp_x, false).0;
            return;
        }
        let ox = self.offset_x;
        let jump = match cmd_type {
            CmdType::ReplaceExec(_, _, _) | CmdType::CursorFileEnd | CmdType::CursorRowHome | CmdType::CursorRowEnd
            | CmdType::CursorRowHomeSelect | CmdType::CursorRowEndSelect | CmdType::InsertStr(_) | CmdType::DelNextChar
            | CmdType::DelPrevChar | CmdType::Undo | CmdType::Redo | CmdType::FindNext | CmdType::FindBack
            | CmdType::ReOpenFile | CmdType::Null => true,
            _ => false,
        };
        let right = matches!(cmd_type, CmdType::CursorRight | CmdType::CursorRightSelect | CmdType::MouseDragLeftRight(_, _));
        let left = matches!(cmd_type, CmdType::CursorLeft | CmdType::CursorLeftSelect | CmdType::MouseDragLeftLeft(_, _));
        let is_drag_right = matches!(cmd_type, CmdType::MouseDragLeftRight(_, _));
        let is_drag_left = matches!(cmd_type, CmdType::MouseDragLeftLeft(_, _));
        let new_ox = if self.cur_org_y != self.cur.y {
            if !(self.offset_disp_x <= self.cur.disp_x && self.cur.disp_x < self.offset_disp_x + self.col_len) {
                let pre = vstd::slice::slice_subrange(row, 0, self.cur.x);
                proof {
                    assert(pre@ == row@.take(self.cur.x as int));
                    assert(pre@.len() * max_char_width(*cfg) <= row@.len() * max_char_width(*cfg)) by (nonlinear_arith)
                        requires
                            pre@.len() <= row@.len(),
                    ;
                }
                get_x_offset(cfg, pre, self.col_len - X_MARGIN)
            } else {
                ox
            }
        } else if jump {
            let pre = vstd::slice::slice_subrange(row, 0, self.cur.x);
            proof {
                assert(pre@ == row@.take(self.cur.x as int));
                assert(pre@.len() * max_char_width(*cfg) <= row@.len() * max_char_width(*cfg)) by (nonlinear_arith)
                    requires
                        pre@.len() <= row@.len(),
                ;
            }
            get_x_offset(cfg, pre, self.col_len - X_MARGIN)
        } else if right && self.sel_mode != SelMode::BoxSelect {
            let judge = if is_drag_right {
                SCROLL_HORIZONTAL_MOUSE_DRAG_LEFT_JUDGE_MARGIN
            } else {
                SCROLL_HORIZONTAL_LEFT_RIGHT_JUDGE_MARGIN
            };
            if self.offset_disp_x + self.col_len < self.cur.disp_x + judge {
                let rest = vstd::slice::slice_subrange(row, ox, row.len());
                proof {
                    assert(rest@ == row@.skip(ox as int));
                    assert(rest@.len() <= row@.len());
                    assert(rest@.len() * max_char_width(*cfg) <= row@.len() * max_char_width(*cfg)) by (nonlinear_arith)
                        requires
                            rest@.len() <= row@.len(),
                    ;
                }
                let width = get_row_cur_x_disp_x(cfg, rest, self.offset_disp_x, true).1;
                if width > self.col_len { ox + SCROLL_ADD_MARGIN } else { ox }
            } else {
                ox
            }
        } else if left {
            let judge = if is_drag_left {
                SCROLL_HORIZONTAL_MOUSE_DRAG_LEFT_JUDGE_MARGIN
            } else {
                SCROLL_HORIZONTAL_LEFT_RIGHT_JUDGE_MARGIN
            };
            if self.cur.disp_x - self.offset_disp_x <= judge {
                if ox >= SCROLL_ADD_MARGIN { ox - SCROLL_ADD_MARGIN } else { 0 }
            } else {
                ox
            }
        } else {
            ox
        };
        self.offset_x = new_ox;
        if new_ox != self.offset_x_org {
            self.set_offset_disp_x(cfg, disp_row);
        }
    }

    /// Measure the display column of the first character shown on `disp_row`, where that row
    /// reaches it; otherwise the column stays.
    pub fn set_offset_disp_x(&mut self, cfg: &Cfg, disp_row: &[char])
        requires
            tab_ok(*cfg),
            disp_row@.len() * max_char_width(*cfg) + 1 <= usize::MAX,
        ensures
            final(self).offset_disp_x == (if disp_row@.len() >= old(self).offset_x {
                row_cur_x_disp_x(*cfg, disp_row@.take(old(self).offset_x as int), 0, false).1 as int
            } else {
                old(self).offset_disp_x as int
            }),
            *final(self) == (HScrollState { offset_disp_x: final(self).offset_disp_x, ..*old(self) }),
    {
        if disp_row.len() >= self.offset_x {
            let pre = vstd::slice::slice_subrange(disp_row, 0, self.offset_x);
            proof {
                assert(pre@ == disp_row@.take(self.offset_x as int));
                assert(pre@.len() * max_char_width(*cfg) <= disp_row@.len() * max_char_width(*cfg)) by (nonlinear_arith)
                    requires
                        pre@.len() <= disp_row@.len(),
                ;
            }
            self.offset_disp_x = get_row_cur_x_disp_x(cfg, pre, 0, false).1;
        }
    }
}

/// With moving the cursor by scrolling off, the mouse wheel moves the view by at most one row,
/// never above the top, and (from a view within the rows it can cover) never past them.
pub proof fn lemma_wheel_moves_one_row(st: ScrollState, cmd: CmdType)
    requires
        !st.move_cur_by_scrolling,
        cmd is MouseScrollDown || cmd is MouseScrollUp,
        scroll_offset(st, cmd) is Some,
    ensures
        0 <= scroll_offset(st, cmd).unwrap() <= st.offset_y + 1,
        disp_rows(st) is Some && st.offset_y <= disp_rows(st).unwrap() - st.row_len ==> st.offset_y - 1
            <= scroll_offset(st, cmd).unwrap(),
        disp_rows(st) is Some && st.offset_y <= disp_rows(st).unwrap() - st.row_len
            ==> scroll_offset(st, cmd).unwrap() <= if disp_rows(st).unwrap() > st.row_len {
            disp_rows(st).unwrap() - st.row_len
        } else {
            st.offset_y as int
        },
{
}

/// After a command that moves the cursor down or edits at it (arrows down, the end of the
/// file, typing, a new row, deleting, undo, redo, find, replace, a grep result), the view keeps
/// the cursor in sight: with no scrollbar laid out, a window of at least two rows that the text
/// fills, and the cursor on the text at or below the first row shown, the cursor row lies
/// among the rows shown, and those rows stay within the text where they were. After jumping to
/// the end of the file (the cursor on the last row, from a view within the text) the last
/// rows of the text are shown. The view moves only once the cursor reaches its last row, and
/// then so that one row of the text stays shown below the cursor.
pub proof fn lemma_cursor_stays_in_view(st: ScrollState, cmd: CmdType)
    requires
        scroll_in_range(st),
        cmd is CursorDown || cmd is CursorDownSelect || cmd is CursorFileEnd || cmd is InsertStr || cmd is InsertRow
            || cmd is DelNextChar || cmd is DelPrevChar || cmd is Undo || cmd is Redo || cmd is FindNext || cmd is FindBack
            || cmd is ReplaceExec || cmd is GrepResultProm,
        !(st.scrl_v.bar_len != USIZE_UNDEFINED && st.scrl_v.bar_len > 0),
        2 <= st.row_len <= st.len_rows,
        st.offset_y <= st.cur_y < st.len_rows,
        !(st.cur_y == 0 && st.move_cur_by_scrolling),
    ensures
        scroll_offset(st, cmd) is Some,
        scroll_offset(st, cmd).unwrap() <= st.cur_y < scroll_offset(st, cmd).unwrap() + st.row_len,
        st.offset_y + st.row_len <= st.len_rows ==> scroll_offset(st, cmd).unwrap() + st.row_len <= st.len_rows,
        cmd is CursorFileEnd && st.cur_y == st.len_rows - 1 && st.offset_y + st.row_len <= st.len_rows
            ==> scroll_offset(st, cmd).unwrap() == st.len_rows - st.row_len,
        st.cur_y + 1 < st.offset_y + st.row_len ==> scroll_offset(st, cmd).unwrap() == st.offset_y,
        st.cur_y + 1 >= st.offset_y + st.row_len && st.cur_y + 2 <= st.len_rows
            ==> scroll_offset(st, cmd).unwrap() + st.row_len == st.cur_y + 2,
{
}

} // verus!
