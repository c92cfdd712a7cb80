//! The windows of the editor area: each with its cursor, selection and scroll position, laid
//! out in a grid that can be split once.
use crate::cmd::WindowSplitType;
use crate::model::{Cur, ScrollbarV, SelMode, SelRange};
use crate::def::USIZE_UNDEFINED;
use vstd::prelude::*;

verus! {

/// The scroll position of a window: the first row and character shown, before and after the
/// last command, and the display column of the first character shown.
#[derive(Debug, Default, Clone, Copy, PartialEq, Eq, Structural)]
pub struct Offset {
    pub y: usize,
    pub y_org: usize,
    pub x: usize,
    pub x_org: usize,
    pub disp_x: usize,
}

/// A window onto the text, with the fields the editor reads of it: the cursor (and where it
/// was), the scroll position, the selection (and what it was), the display column kept for
/// vertical moves, the row length before the last command, the rows and columns it covers on
/// the screen, its size and its vertical scrollbar.
#[derive(Debug, Clone, Copy, PartialEq, Eq)]
pub struct Window {
    pub cur: Cur,
    pub cur_org: Cur,
    pub offset: Offset,
    pub sel: SelRange,
    pub sel_org: SelRange,
    pub updown_x: usize,
    pub row_len_org: usize,
    pub area_v: (usize, usize),
    pub area_h: (usize, usize),
    pub width: usize,
    pub height: usize,
    pub scrl_v: ScrollbarV,
}

/// A cursor at the start of the text.
pub open spec fn cur_start() -> Cur {
    Cur { y: 0, x: 0, disp_x: 0 }
}

/// No selection.
pub open spec fn sel_none() -> SelRange {
    SelRange { mode: SelMode::Normal, sy: USIZE_UNDEFINED, ey: USIZE_UNDEFINED, sx: USIZE_UNDEFINED, ex: USIZE_UNDEFINED, s_disp_x: USIZE_UNDEFINED, e_disp_x: USIZE_UNDEFINED }
}

/// A new window: cursor and scroll position at the start, nothing selected, no area yet, and
/// a scrollbar not yet laid out.
pub open spec fn window_default() -> Window {
    Window {
        cur: cur_start(),
        cur_org: cur_start(),
        offset: Offset { y: 0, y_org: 0, x: 0, x_org: 0, disp_x: 0 },
        sel: sel_none(),
        sel_org: sel_none(),
        updown_x: 0,
        row_len_org: 0,
        area_v: (0, 0),
        area_h: (0, 0),
        width: 0,
        height: 0,
        scrl_v: ScrollbarV {
            is_show: false,
            is_enable: false,
            row_posi: USIZE_UNDEFINED,
            row_posi_org: USIZE_UNDEFINED,
            bar_len: USIZE_UNDEFINED,
            move_len: USIZE_UNDEFINED,
        },
    }
}

impl Default for Window {
    fn default() -> (w: Window)
        ensures
            w == window_default(),
    {
        Window::new()
    }
}

impl Window {
    /// A new window (see `window_default`).
    pub fn new() -> (w: Window)
        ensures
            w == window_default(),
    {
        let c = Cur { y: 0, x: 0, disp_x: 0 };
        let s = SelRange::default();
        proof {
            assert(s == sel_none());
        }
        Window {
            cur: c,
            cur_org: c,
            offset: Offset { y: 0, y_org: 0, x: 0, x_org: 0, disp_x: 0 },
            sel: s,
            sel_org: s,
            updown_x: 0,
            row_len_org: 0,
            area_v: (0, 0),
            area_h: (0, 0),
            width: 0,
            height: 0,
            scrl_v: ScrollbarV::default(),
        }
    }
}

/// The windows of the editor area: rows of windows (`win_list[v][h]`), the current one, how
/// the area is split and where the split lines are, and the widest row of the text.
#[derive(Debug, Clone)]
pub struct WindowMgr {
    pub win_list: Vec<Vec<Window>>,
    pub win_v_idx: usize,
    pub win_h_idx: usize,
    pub split_type: WindowSplitType,
    pub split_line_v: usize,
    pub split_line_h: usize,
    pub row_max_width_idx: usize,
    pub row_max_width: usize,
    pub row_max_width_org: usize,
    pub row_max_chars: usize,
    pub row_width_chars_vec: Vec<(usize, usize)>,
}

/// The windows as plain values.
pub open spec fn win_view(l: Seq<Vec<Window>>) -> Seq<Seq<Window>> {
    Seq::new(l.len(), |i: int| l[i]@)
}

impl Default for WindowMgr {
    fn default() -> (m: WindowMgr)
        ensures
            win_view(m.win_list@) == seq![seq![window_default()]],
            m.win_v_idx == 0 && m.win_h_idx == 0,
            m.split_type == WindowSplitType::NotSplit,
            m.split_line_v == 0 && m.split_line_h == 0,
            m.row_max_width_idx == 0 && m.row_max_width == 0 && m.row_max_width_org == 0 && m.row_max_chars == 0,
            m.row_width_chars_vec@.len() == 0,
    {
        let row = vec![Window::new()];
        let l = vec![row];
        let m = WindowMgr {
            win_list: l,
            win_v_idx: 0,
            win_h_idx: 0,
            split_type: WindowSplitType::NotSplit,
            split_line_v: 0,
            split_line_h: 0,
            row_max_width_idx: 0,
            row_max_width: 0,
            row_max_width_org: 0,
            row_max_chars: 0,
            row_width_chars_vec: Vec::new(),
        };
        proof {
            assert(win_view(m.win_list@) =~= seq![seq![window_default()]]) by {
                assert(m.win_list@[0]@ =~= seq![window_default()]);
            }
        }
        m
    }
}

impl WindowMgr {
    /// The current window.
    pub fn curt_ref(&self) -> (w: &Window)
        requires
            self.win_v_idx < self.win_list@.len(),
            self.win_h_idx < self.win_list@[self.win_v_idx as int]@.len(),
        ensures
            *w == self.win_list@[self.win_v_idx as int]@[self.win_h_idx as int],
    {
        &self.win_list[self.win_v_idx][self.win_h_idx]
    }

    /// Back to one window: the first row of windows holds a single new window, the area is
    /// not split and the split lines are at 0; the other rows of windows stay.
    pub fn clear(&mut self)
        requires
            old(self).win_list@.len() > 0,
        ensures
            win_view(final(self).win_list@) == win_view(old(self).win_list@).update(0, seq![window_default()]),
            final(self).split_type == WindowSplitType::NotSplit,
            final(self).split_line_v == 0 && final(self).split_line_h == 0,
            final(self).win_v_idx == old(self).win_v_idx && final(self).win_h_idx == old(self).win_h_idx,
            final(self).row_max_width_idx == old(self).row_max_width_idx,
            final(self).row_max_width == old(self).row_max_width,
            final(self).row_max_width_org == old(self).row_max_width_org,
            final(self).row_max_chars == old(self).row_max_chars,
            final(self).row_width_chars_vec@ == old(self).row_width_chars_vec@,
    {
        let row = vec![Window::new()];
        let ghost old_list = self.win_list@;
        self.win_list.set(0, row);
        self.split_type = WindowSplitType::NotSplit;
        self.split_line_v = 0;
        self.split_line_h = 0;
        proof {
            assert(win_view(self.win_list@) =~= win_view(old_list).update(0, seq![window_default()])) by {
                assert(self.win_list@[0]@ =~= seq![window_default()]);
            }
        }
    }

    /// Split the area: when it is already split, go back to one window (`clear`); otherwise a
    /// vertical split adds a new window to the first row of windows, a horizontal split adds
    /// none, and the split kind is recorded.
    pub fn split_window(&mut self, split_type: &WindowSplitType)
        requires
            old(self).win_list@.len() > 0,
        ensures
            old(self).split_type != WindowSplitType::NotSplit ==> {
                &&& win_view(final(self).win_list@) == win_view(old(self).win_list@).update(0, seq![window_default()])
                &&& final(self).split_type == WindowSplitType::NotSplit
                &&& final(self).split_line_v == 0 && final(self).split_line_h == 0
            },
            old(self).split_type == WindowSplitType::NotSplit ==> {
                &&& win_view(final(self).win_list@) == (if *split_type == WindowSplitType::Vertical {
                    win_view(old(self).win_list@).update(0, old(self).win_list@[0]@.push(window_default()))
                } else {
                    win_view(old(self).win_list@)
                })
                &&& final(self).split_type == *split_type
                &&& final(self).split_line_v == old(self).split_line_v
                &&& final(self).split_line_h == old(self).split_line_h
            },
            final(self).win_v_idx == old(self).win_v_idx && final(self).win_h_idx == old(self).win_h_idx,
            final(self).row_max_width_idx == old(self).row_max_width_idx,
            final(self).row_max_width == old(self).row_max_width,
            final(self).row_max_width_org == old(self).row_max_width_org,
            final(self).row_max_chars == old(self).row_max_chars,
            final(self).row_width_chars_vec@ == old(self).row_width_chars_vec@,
    {
        if self.split_type != WindowSplitType::NotSplit {
            self.clear();
        } else {
            match split_type {
                WindowSplitType::Vertical => {
                    let ghost old_list = self.win_list@;
                    let mut row = self.win_list.remove(0);
                    row.push(Window::new());
                    self.win_list.insert(0, row);
                    proof {
                        assert(win_view(self.win_list@) =~= win_view(old_list).update(0, old_list[0]@.push(window_default())));
                    }
                },
                _ => {},
            }
            self.split_type = *split_type;
        }
    }
}

} // verus!
