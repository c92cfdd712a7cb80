//! Which part of the editor to redraw after a command, and which rows to restyle.
use crate::edit_cmd::{sel_end, sel_is_selected, sel_start};
use crate::keycmd::E_Cmd;
use crate::def::USIZE_UNDEFINED;
use crate::model::{Cur, E_DrawRange, SelMode, SelRange};
use vstd::prelude::*;

verus! {

/// What the redraw decision reads of the editor, before and after the command: the row-number
/// widths, the offsets, whether a key macro just ended, whether the horizontal scrollbar is
/// shown (now and before) and taken by the mouse (with where its bar was and how long it is),
/// whether the vertical one is taken (and its bar's row now and before), the selection (now
/// and before), the rows shown and the rows of the window, the cursor (now and before), the
/// rows of the text (now and before), whether the command edits, whether syntax highlighting
/// and box insertion are on, whether word completion is open (now and before), the rows its
/// list covers, whether the mouse is over the list, the text columns, the rows of the search
/// hits before the command, and the rows to restyle so far.
#[derive(Debug, Clone)]
pub struct DrawRangeState {
    pub rnw: usize,
    pub rnw_org: usize,
    pub offset_x: usize,
    pub offset_x_org: usize,
    pub offset_y: usize,
    pub offset_y_org: usize,
    pub key_macro_is_exec_end: bool,
    pub scrl_h_is_show: bool,
    pub scrl_h_is_show_org: bool,
    pub scrl_h_is_enable: bool,
    pub scrl_h_clm_posi_org: usize,
    pub scrl_h_bar_len: usize,
    pub scrl_v_is_enable: bool,
    pub scrl_v_row_posi: usize,
    pub scrl_v_row_posi_org: usize,
    pub sel: SelRange,
    pub sel_org: SelRange,
    pub row_disp_len: usize,
    pub row_len: usize,
    pub cur: Cur,
    pub cur_org: Cur,
    pub len_rows: usize,
    pub len_rows_org: usize,
    pub is_edit: bool,
    pub is_enable_syntax_highlight: bool,
    pub is_box_insert: bool,
    pub is_input_comple: bool,
    pub is_input_comple_org: bool,
    pub input_comple_rows: Option<(usize, usize)>,
    pub is_mouse_on_input_comple: bool,
    pub col_len: usize,
    pub search_org_rows: Vec<usize>,
    pub restyle_rows: Vec<usize>,
}

/// What the redraw decision gives: the range to redraw, whether the word-completion list is
/// to be closed, and the rows to restyle (each once).
pub struct DrawRangeOut {
    pub draw_range: E_DrawRange,
    pub clear_input_comple: bool,
    pub restyle_rows: Vec<usize>,
}

/// The range for the word-completion list and the cursor row: the rows the list covers
/// joined with the cursor's row, or nothing where the list covers no row.
pub open spec fn comple_range(st: DrawRangeState) -> E_DrawRange {
    match st.input_comple_rows {
        Some((sy, ey)) => E_DrawRange::TargetRange(
            if sy <= st.cur.y { sy } else { st.cur.y },
            if ey >= st.cur.y { ey } else { st.cur.y },
        ),
        None => E_DrawRange::Not,
    }
}

/// The rows from `a` up to `b` (a range with `a` beyond `b` holds none).
pub open spec fn rows_between(a: int, b: int) -> Set<usize> {
    Set::new(|y: usize| a <= y && y <= b)
}

/// Are the rows the view jumps over more than it shows?
pub open spec fn far_jump(st: DrawRangeState) -> bool {
    (if st.offset_y_org >= st.offset_y { st.offset_y_org - st.offset_y } else { st.offset_y - st.offset_y_org }) > st.row_disp_len
}

/// Is the command a left press or a left drag other than in box mode?
pub open spec fn is_press_or_drag(e: E_Cmd) -> bool {
    e is MouseDownLeft || e is MouseDragLeftLeft || e is MouseDragLeftRight || e is MouseDragLeftDown || e is MouseDragLeftUp
}

/// The decision after `e` (see `draw_range_of`): the range to redraw, how the rows to
/// restyle change (0 they stay, 1 they become the rows shown, 2 they become those of the
/// selection before and of the search hits shown), whether the word-completion list is
/// closed, and whether the decision stays clear of a row number below zero.
pub open spec fn draw_decision(st: DrawRangeState, e: E_Cmd) -> (E_DrawRange, int, bool, bool) {
    let lo = if st.cur.y <= st.cur_org.y { st.cur.y } else { st.cur_org.y };
    let hi = if st.cur.y >= st.cur_org.y { st.cur.y } else { st.cur_org.y };
    if e is Resize || (st.is_edit && st.is_enable_syntax_highlight) || st.rnw_org != st.rnw || st.offset_x_org != st.offset_x
        || st.key_macro_is_exec_end || st.scrl_h_is_show_org != st.scrl_h_is_show {
        (E_DrawRange::All, 0, false, true)
    } else if !st.is_edit && !sel_is_selected(st.sel) && sel_is_selected(st.sel_org) {
        (E_DrawRange::TargetRange(sel_start(st.sel_org).y, sel_end(st.sel_org).y), 0, false, true)
    } else if is_press_or_drag(e) && st.scrl_v_is_enable {
        if st.offset_y_org == st.offset_y && st.scrl_v_row_posi_org == st.scrl_v_row_posi {
            (E_DrawRange::Not, 0, false, true)
        } else {
            (E_DrawRange::All, 0, false, true)
        }
    } else if st.offset_y_org != st.offset_y {
        if far_jump(st) {
            (E_DrawRange::All, 0, false, true)
        } else if e is CursorUp || e is MouseScrollUp || e is MouseDragLeftUp {
            (E_DrawRange::ScrollUp(st.offset_y, (st.offset_y + 2) as usize), 0, false, true)
        } else if e is CursorDown || e is MouseScrollDown || e is MouseDragLeftDown {
            let last = st.len_rows - 1;
            let bottom = st.offset_y + st.row_disp_len - 1;
            let y = if last <= bottom { last } else { bottom };
            (E_DrawRange::ScrollDown((y - 2) as usize, y as usize), 0, false, y >= 2 && st.offset_y + st.row_disp_len >= 1)
        } else {
            (E_DrawRange::All, 0, false, true)
        }
    } else if (e is InsertRow || e is CursorDown || e is CursorUp || e is CursorRight || e is CursorLeft) && st.is_input_comple {
        (comple_range(st), 0, false, true)
    } else if e is CursorLeft || e is CursorRight || e is CursorLeftSelect || e is CursorRightSelect || e is CursorRowHome
        || e is CursorRowEnd || e is CursorRowHomeSelect || e is CursorRowEndSelect || e is MouseDragLeftBox {
        if st.sel.mode == SelMode::BoxSelect {
            (E_DrawRange::TargetRange(sel_start(st.sel).y, sel_end(st.sel).y), 0, false, true)
        } else if st.cur.y == st.cur_org.y {
            if e is CursorRightSelect || e is CursorLeftSelect || e is CursorRowHomeSelect || e is CursorRowEndSelect {
                (E_DrawRange::TargetRange(st.cur.y, st.cur.y), 0, false, true)
            } else {
                (E_DrawRange::MoveCur, 0, false, true)
            }
        } else {
            (E_DrawRange::TargetRange(lo, hi), 0, false, true)
        }
    } else if e is DelNextChar || e is DelPrevChar || e is Cut {
        if st.len_rows != st.len_rows_org {
            (E_DrawRange::After(lo), 0, false, true)
        } else {
            (E_DrawRange::TargetRange(lo, hi), 0, false, true)
        }
    } else if e is InsertRow {
        (E_DrawRange::After((st.cur.y - 1) as usize), 0, false, st.cur.y >= 1)
    } else if e is InsertStr && !st.is_input_comple && st.is_input_comple_org {
        (E_DrawRange::All, 0, false, true)
    } else if e is InsertStr {
        if st.is_enable_syntax_highlight || st.is_box_insert {
            (E_DrawRange::All, 0, false, true)
        } else if e->InsertStr_0@.len() == 0 {
            (E_DrawRange::After(lo), 0, false, true)
        } else {
            (E_DrawRange::TargetRange(st.cur.y, st.cur.y), 0, false, true)
        }
    } else if e is MouseDownLeft && st.is_input_comple {
        (E_DrawRange::All, 0, st.is_mouse_on_input_comple, true)
    } else if e is MouseMove && st.is_input_comple {
        (if st.is_mouse_on_input_comple { comple_range(st) } else { E_DrawRange::Not }, 0, false, true)
    } else if is_press_or_drag(e) && st.scrl_h_is_enable {
        if (e is MouseDragLeftLeft && st.scrl_h_clm_posi_org == 0) || (e is MouseDragLeftRight && st.scrl_h_clm_posi_org
            + st.scrl_h_bar_len == st.col_len) {
            (E_DrawRange::Not, 0, false, true)
        } else {
            (E_DrawRange::All, 0, false, true)
        }
    } else if e is MouseDownLeft || e is MouseDragLeftLeft || e is MouseDragLeftRight {
        (E_DrawRange::TargetRange(st.cur.y, st.cur.y), 0, false, true)
    } else if (e is MouseDragLeftUp || e is MouseDragLeftDown) && st.scrl_v_is_enable {
        (E_DrawRange::All, 0, false, true)
    } else if e is CursorDown || e is CursorDownSelect || e is MouseDragLeftDown {
        if st.cur_org.y == st.len_rows - 1 {
            (E_DrawRange::Not, 0, false, true)
        } else if e is CursorDown && st.sel.mode == SelMode::Normal {
            (E_DrawRange::MoveCur, 0, false, true)
        } else {
            (E_DrawRange::TargetRange((st.cur.y - 1) as usize, st.cur.y), 0, false, st.cur.y >= 1)
        }
    } else if e is CursorUp || e is CursorUpSelect || e is MouseDragLeftUp {
        if st.cur_org.y == 0 {
            (E_DrawRange::Not, 0, false, true)
        } else if e is CursorUp && st.sel.mode == SelMode::Normal {
            (E_DrawRange::MoveCur, 0, false, true)
        } else {
            (E_DrawRange::TargetRange(st.cur.y, if st.cur.y == 0 { 1 } else { (st.cur.y + 1) as usize }), 0, false, true)
        }
    } else if e is MouseScrollDown || e is MouseScrollUp {
        if st.offset_y == 0 || st.offset_y + st.row_disp_len >= st.len_rows - 1 {
            (E_DrawRange::Not, 0, false, true)
        } else {
            (E_DrawRange::All, 0, false, true)
        }
    } else if e is AllSelect {
        (E_DrawRange::All, 1, false, true)
    } else if e is Undo || e is Redo || e is CursorFileHome || e is CursorFileEnd || e is ReplaceExec || e is BoxSelectMode
        || e is InputComple {
        (E_DrawRange::All, 0, false, true)
    } else if e is FindNext || e is FindBack {
        (E_DrawRange::MoveCur, 0, false, true)
    } else if e is CancelState {
        (E_DrawRange::Targetpoint, 2, false, true)
    } else {
        (E_DrawRange::Not, 0, false, true)
    }
}

/// The rows shown: from the first row shown, the rows of the window, within the text.
pub open spec fn screen_rows(st: DrawRangeState) -> Set<usize> {
    Set::new(|y: usize| st.offset_y <= y && y < st.offset_y + st.row_disp_len && y < st.len_rows)
}

/// The rows to restyle after `e`: all those shown for a selection of everything; for
/// cancelling, the rows the selection covered (where one was made, else those so far) and the
/// search hits shown; and, unless the command edits, the rows of the range redrawn (all the
/// rows of the text for everything).
pub open spec fn restyle_spec(st: DrawRangeState, e: E_Cmd) -> Set<usize> {
    let d = draw_decision(st, e);
    let base = st.restyle_rows@.to_set();
    let mid = if d.1 == 1 {
        screen_rows(st)
    } else if d.1 == 2 {
        (if sel_is_selected(st.sel_org) { rows_between(st.sel_org.sy as int, st.sel_org.ey as int) } else { base }).union(
            st.search_org_rows@.to_set().filter(|y: usize| st.offset_y <= y && y < st.offset_y + st.row_len),
        )
    } else {
        base
    };
    if st.is_edit {
        mid
    } else {
        match d.0 {
            E_DrawRange::TargetRange(sy, ey) => mid.union(rows_between(sy as int, ey as int)),
            E_DrawRange::All => mid.union(Set::new(|y: usize| y < st.len_rows)),
            _ => mid,
        }
    }
}

/// Can the decision be made? The text has a row, the sizes stay well inside `usize`, and no
/// row number the decision gives falls below zero (where the original's subtraction would
/// fail).
pub open spec fn draw_range_ok(st: DrawRangeState, e: E_Cmd) -> bool {
    &&& st.len_rows >= 1
    &&& st.offset_y + st.row_disp_len + st.row_len + 2 <= usize::MAX
    &&& st.cur.y + 2 <= usize::MAX
    &&& st.cur_org.y + 1 <= usize::MAX
    &&& st.scrl_h_clm_posi_org + st.scrl_h_bar_len <= usize::MAX
    &&& (sel_is_selected(st.sel) || st.sel.mode == SelMode::BoxSelect) ==> st.sel.sy < usize::MAX && st.sel.ey < usize::MAX
    &&& sel_is_selected(st.sel_org) ==> st.sel_org.sy < usize::MAX && st.sel_org.ey < usize::MAX
    &&& (st.input_comple_rows matches Some((a, b)) ==> b < usize::MAX)
    &&& st.restyle_rows@.no_duplicates()
    &&& draw_decision(st, e).3
}

/// Adds row `y` to `v` where it is not there yet.
fn add_row(v: &mut Vec<usize>, y: usize)
    requires
        old(v)@.no_duplicates(),
    ensures
        final(v)@.no_duplicates(),
        final(v)@.to_set() == old(v)@.to_set().insert(y),
{
    let mut i: usize = 0;
    while i < v.len()
        invariant
            i <= v@.len(),
            v@ == old(v)@,
            v@.no_duplicates(),
            forall|k: int| 0 <= k < i ==> v@[k] != y,
        decreases v@.len() - i,
    {
        if v[i] == y {
            proof {
                assert(v@.to_set().insert(y) =~= v@.to_set());
            }
            return;
        }
        i = i + 1;
    }
    let ghost before = v@;
    v.push(y);
    proof {
        assert(v@.to_set() =~= before.to_set().insert(y)) by {
            assert forall|z: usize| #[trigger] v@.to_set().contains(z) <==> before.to_set().insert(y).contains(z) by {
                if v@.to_set().contains(z) {
                    let k = choose|k: int| 0 <= k < v@.len() && v@[k] == z;
                    if k < before.len() {
                        assert(before[k] == z);
                    }
                }
                if before.to_set().contains(z) {
                    let k = choose|k: int| 0 <= k < before.len() && before[k] == z;
                    assert(v@[k] == z);
                }
                if z == y {
                    assert(v@[before.len() as int] == y);
                }
            }
        }
    }
}

/// Adds the rows from `a` up to `b` to `v`, each once.
fn add_rows(v: &mut Vec<usize>, a: usize, b: usize)
    requires
        old(v)@.no_duplicates(),
        b < usize::MAX,
    ensures
        final(v)@.no_duplicates(),
        final(v)@.to_set() == old(v)@.to_set().union(rows_between(a as int, b as int)),
{
    let ghost start = v@.to_set();
    let mut y = a;
    while y <= b
        invariant
            v@.no_duplicates(),
            b < usize::MAX,
            a <= y,
            y <= b + 1 || y == a,
            v@.to_set() == start.union(rows_between(a as int, y as int - 1)),
        decreases b + 1 - y,
    {
        add_row(v, y);
        proof {
            assert(start.union(rows_between(a as int, y as int - 1)).insert(y) =~= start.union(rows_between(a as int, y as int)));
        }
        y = y + 1;
    }
    proof {
        if y == a && a > b {
            assert(rows_between(a as int, y as int - 1) =~= rows_between(a as int, b as int));
        } else {
            assert(y == b + 1);
        }
    }
}

/// Decide what to redraw after `e` and which rows to restyle (see `draw_decision`,
/// `restyle_spec`).
pub fn draw_range_of(st: &DrawRangeState, e: &E_Cmd) -> (r: DrawRangeOut)
    requires
        draw_range_ok(*st, *e),
    ensures
        r.draw_range == draw_decision(*st, *e).0,
        r.clear_input_comple == draw_decision(*st, *e).2,
        r.restyle_rows@.no_duplicates(),
        r.restyle_rows@.to_set() == restyle_spec(*st, *e),
{
    let (dr, kind, clear) = decide(st, e);
    let mut rows: Vec<usize> = Vec::new();
    if kind == 1 {
        let end = if st.offset_y + st.row_disp_len <= st.len_rows { st.offset_y + st.row_disp_len } else { st.len_rows };
        if end > st.offset_y {
            add_rows(&mut rows, st.offset_y, end - 1);
        }
        proof {
            assert(rows@.to_set() =~= screen_rows(*st));
        }
    } else if kind == 2 {
        if st.sel_org.sy != USIZE_UNDEFINED && st.sel_org.ey != USIZE_UNDEFINED {
            add_rows(&mut rows, st.sel_org.sy, st.sel_org.ey);
            proof {
                assert(rows@.to_set() =~= rows_between(st.sel_org.sy as int, st.sel_org.ey as int));
            }
        } else {
            rows = copy_rows(&st.restyle_rows);
        }
        let ghost mid0 = rows@.to_set();
        let mut i: usize = 0;
        while i < st.search_org_rows.len()
            invariant
                i <= st.search_org_rows@.len(),
                rows@.no_duplicates(),
                rows@.to_set() == mid0.union(st.search_org_rows@.take(i as int).to_set().filter(
                    |y: usize| st.offset_y <= y && y < st.offset_y + st.row_len,
                )),
                st.offset_y + st.row_len <= usize::MAX,
            decreases st.search_org_rows@.len() - i,
        {
            let y = st.search_org_rows[i];
            let ghost before = rows@.to_set();
            if st.offset_y <= y && y < st.offset_y + st.row_len {
                add_row(&mut rows, y);
            }
            proof {
                let f = |y: usize| st.offset_y <= y && y < st.offset_y + st.row_len;
                assert(st.search_org_rows@.take(i + 1) =~= st.search_org_rows@.take(i as int).push(y));
                st.search_org_rows@.take(i as int).lemma_push_to_set_commute(y);
                assert(rows@.to_set() =~= mid0.union(st.search_org_rows@.take(i + 1).to_set().filter(f)));
            }
            i = i + 1;
        }
        proof {
            assert(st.search_org_rows@.take(i as int) =~= st.search_org_rows@);
        }
    } else {
        rows = copy_rows(&st.restyle_rows);
    }
    if !st.is_edit {
        match dr {
            E_DrawRange::TargetRange(sy, ey) => {
                add_rows(&mut rows, sy, ey);
            },
            E_DrawRange::All => {
                let ghost before = rows@.to_set();
                add_rows(&mut rows, 0, st.len_rows - 1);
                proof {
                    assert(before.union(rows_between(0, st.len_rows - 1)) =~= before.union(Set::new(|y: usize| y < st.len_rows)));
                }
            },
            _ => {},
        }
    }
    DrawRangeOut { draw_range: dr, clear_input_comple: clear, restyle_rows: rows }
}

/// A copy of the rows.
fn copy_rows(v: &Vec<usize>) -> (r: Vec<usize>)
    ensures
        r@ == v@,
{
    let mut r: Vec<usize> = Vec::new();
    let mut i: usize = 0;
    while i < v.len()
        invariant
            i <= v@.len(),
            r@ == v@.take(i as int),
        decreases v@.len() - i,
    {
        r.push(v[i]);
        proof {
            assert(v@.take(i + 1) =~= v@.take(i as int).push(v@[i as int]));
        }
        i = i + 1;
    }
    proof {
        assert(v@.take(i as int) =~= v@);
    }
    r
}

/// The first three parts of `draw_decision`.
fn decide(st: &DrawRangeState, e: &E_Cmd) -> (r: (E_DrawRange, u8, bool))
    requires
        draw_range_ok(*st, *e),
    ensures
        r.0 == draw_decision(*st, *e).0,
        r.1 as int == draw_decision(*st, *e).1,
        r.2 == draw_decision(*st, *e).2,
        r.0 matches E_DrawRange::TargetRange(a, b) ==> b < usize::MAX,
{
    let cy = st.cur.y;
    let oy = st.cur_org.y;
    let lo = if cy <= oy { cy } else { oy };
    let hi = if cy >= oy { cy } else { oy };
    let sel_sel = st.sel.sy != USIZE_UNDEFINED && st.sel.ey != USIZE_UNDEFINED;
    let org_sel = st.sel_org.sy != USIZE_UNDEFINED && st.sel_org.ey != USIZE_UNDEFINED;
    let press_or_drag = matches!(e, E_Cmd::MouseDownLeft(_, _) | E_Cmd::MouseDragLeftLeft(_, _) | E_Cmd::MouseDragLeftRight(_, _) | E_Cmd::MouseDragLeftDown(_, _) | E_Cmd::MouseDragLeftUp(_, _));
    let is_resize = matches!(e, E_Cmd::Resize(_, _));
    if is_resize || (st.is_edit && st.is_enable_syntax_highlight) || st.rnw_org != st.rnw || st.offset_x_org != st.offset_x
        || st.key_macro_is_exec_end || st.scrl_h_is_show_org != st.scrl_h_is_show {
        return (E_DrawRange::All, 0, false);
    }
    if !st.is_edit && !sel_sel && org_sel {
        let (a, b) = sel_rows(&st.sel_org);
        return (E_DrawRange::TargetRange(a, b), 0, false);
    }
    if press_or_drag && st.scrl_v_is_enable {
        if st.offset_y_org == st.offset_y && st.scrl_v_row_posi_org == st.scrl_v_row_posi {
            return (E_DrawRange::Not, 0, false);
        }
        return (E_DrawRange::All, 0, false);
    }
    if st.offset_y_org != st.offset_y {
        let diff = if st.offset_y_org >= st.offset_y { st.offset_y_org - st.offset_y } else { st.offset_y - st.offset_y_org };
        if diff > st.row_disp_len {
            return (E_DrawRange::All, 0, false);
        }
        if matches!(e, E_Cmd::CursorUp | E_Cmd::MouseScrollUp | E_Cmd::MouseDragLeftUp(_, _)) {
            return (E_DrawRange::ScrollUp(st.offset_y, st.offset_y + 2), 0, false);
        }
        if matches!(e, E_Cmd::CursorDown | E_Cmd::MouseScrollDown | E_Cmd::MouseDragLeftDown(_, _)) {
            let last = st.len_rows - 1;
            let bottom = st.offset_y + st.row_disp_len - 1;
            let y = if last <= bottom { last } else { bottom };
            return (E_DrawRange::ScrollDown(y - 2, y), 0, false);
        }
        return (E_DrawRange::All, 0, false);
    }
    if matches!(e, E_Cmd::InsertRow | E_Cmd::CursorDown | E_Cmd::CursorUp | E_Cmd::CursorRight | E_Cmd::CursorLeft) && st.is_input_comple {
        return (comple_range_of(st), 0, false);
    }
    if matches!(e, E_Cmd::CursorLeft | E_Cmd::CursorRight | E_Cmd::CursorLeftSelect | E_Cmd::CursorRightSelect | E_Cmd::CursorRowHome | E_Cmd::CursorRowEnd | E_Cmd::CursorRowHomeSelect | E_Cmd::CursorRowEndSelect | E_Cmd::MouseDragLeftBox(_, _)) {
        if st.sel.mode == SelMode::BoxSelect {
            let (a, b) = sel_rows(&st.sel);
            return (E_DrawRange::TargetRange(a, b), 0, false);
        } else if cy == oy {
            if matches!(e, E_Cmd::CursorRightSelect | E_Cmd::CursorLeftSelect | E_Cmd::CursorRowHomeSelect | E_Cmd::CursorRowEndSelect) {
                return (E_DrawRange::TargetRange(cy, cy), 0, false);
            }
            return (E_DrawRange::MoveCur, 0, false);
        }
        return (E_DrawRange::TargetRange(lo, hi), 0, false);
    }
    if matches!(e, E_Cmd::DelNextChar | E_Cmd::DelPrevChar | E_Cmd::Cut) {
        if st.len_rows != st.len_rows_org {
            return (E_DrawRange::After(lo), 0, false);
        }
        return (E_DrawRange::TargetRange(lo, hi), 0, false);
    }
    if matches!(e, E_Cmd::InsertRow) {
        return (E_DrawRange::After(cy - 1), 0, false);
    }
    if let E_Cmd::InsertStr(t) = e {
        if !st.is_input_comple && st.is_input_comple_org {
            return (E_DrawRange::All, 0, false);
        }
        if st.is_enable_syntax_highlight || st.is_box_insert {
            return (E_DrawRange::All, 0, false);
        }
        let tv = crate::text::str_to_chars(t.as_str());
        if tv.len() == 0 {
            return (E_DrawRange::After(lo), 0, false);
        }
        return (E_DrawRange::TargetRange(cy, cy), 0, false);
    }
    if matches!(e, E_Cmd::MouseDownLeft(_, _)) && st.is_input_comple {
        return (E_DrawRange::All, 0, st.is_mouse_on_input_comple);
    }
    if matches!(e, E_Cmd::MouseMove(_, _)) && st.is_input_comple {
        if st.is_mouse_on_input_comple {
            return (comple_range_of(st), 0, false);
        }
        return (E_DrawRange::Not, 0, false);
    }
    if press_or_drag && st.scrl_h_is_enable {
        if (matches!(e, E_Cmd::MouseDragLeftLeft(_, _)) && st.scrl_h_clm_posi_org == 0)
            || (matches!(e, E_Cmd::MouseDragLeftRight(_, _)) && st.scrl_h_clm_posi_org + st.scrl_h_bar_len == st.col_len) {
            return (E_DrawRange::Not, 0, false);
        }
        return (E_DrawRange::All, 0, false);
    }
    if matches!(e, E_Cmd::MouseDownLeft(_, _) | E_Cmd::MouseDragLeftLeft(_, _) | E_Cmd::MouseDragLeftRight(_, _)) {
        return (E_DrawRange::TargetRange(cy, cy), 0, false);
    }
    if matches!(e, E_Cmd::MouseDragLeftUp(_, _) | E_Cmd::MouseDragLeftDown(_, _)) && st.scrl_v_is_enable {
        return (E_DrawRange::All, 0, false);
    }
    if matches!(e, E_Cmd::CursorDown | E_Cmd::CursorDownSelect | E_Cmd::MouseDragLeftDown(_, _)) {
        if oy == st.len_rows - 1 {
            return (E_DrawRange::Not, 0, false);
        } else if matches!(e, E_Cmd::CursorDown) && st.sel.mode == SelMode::Normal {
            return (E_DrawRange::MoveCur, 0, false);
        }
        return (E_DrawRange::TargetRange(cy - 1, cy), 0, false);
    }
    if matches!(e, E_Cmd::CursorUp | E_Cmd::CursorUpSelect | E_Cmd::MouseDragLeftUp(_, _)) {
        if oy == 0 {
            return (E_DrawRange::Not, 0, false);
        } else if matches!(e, E_Cmd::CursorUp) && st.sel.mode == SelMode::Normal {
            return (E_DrawRange::MoveCur, 0, false);
        }
        return (E_DrawRange::TargetRange(cy, if cy == 0 { 1 } else { cy + 1 }), 0, false);
    }
    if matches!(e, E_Cmd::MouseScrollDown | E_Cmd::MouseScrollUp) {
        if st.offset_y == 0 || st.offset_y + st.row_disp_len >= st.len_rows - 1 {
            return (E_DrawRange::Not, 0, false);
        }
        return (E_DrawRange::All, 0, false);
    }
    if matches!(e, E_Cmd::AllSelect) {
        return (E_DrawRange::All, 1, false);
    }
    if matches!(e, E_Cmd::Undo | E_Cmd::Redo | E_Cmd::CursorFileHome | E_Cmd::CursorFileEnd | E_Cmd::ReplaceExec(_, _, _) | E_Cmd::BoxSelectMode | E_Cmd::InputComple) {
        return (E_DrawRange::All, 0, false);
    }
    if matches!(e, E_Cmd::FindNext | E_Cmd::FindBack) {
        return (E_DrawRange::MoveCur, 0, false);
    }
    if matches!(e, E_Cmd::CancelState) {
        return (E_DrawRange::Targetpoint, 2, false);
    }
    (E_DrawRange::Not, 0, false)
}

/// The rows of the first and the last end of a selection.
fn sel_rows(sel: &SelRange) -> (r: (usize, usize))
    ensures
        r.0 == sel_start(*sel).y,
        r.1 == sel_end(*sel).y,
{
    if sel.sy < sel.ey || (sel.sy == sel.ey && sel.sx <= sel.ex) { (sel.sy, sel.ey) } else { (sel.ey, sel.sy) }
}

/// See `comple_range`.
fn comple_range_of(st: &DrawRangeState) -> (r: E_DrawRange)
    ensures
        r == comple_range(*st),
{
    match st.input_comple_rows {
        Some((sy, ey)) => E_DrawRange::TargetRange(if sy <= st.cur.y { sy } else { st.cur.y }, if ey >= st.cur.y { ey } else { st.cur.y }),
        None => E_DrawRange::Not,
    }
}

/// Undo and redo may change the text anywhere, and jumping to the start or end of the file,
/// replacing every hit, switching to box selection and opening word completion change what is
/// shown anywhere, so after each the whole editor area is drawn again. The one exception is a
/// state that marks the command as no edit while a selection just went away: then the rows
/// that selection covered are drawn again.
pub proof fn lemma_undo_redo_redraw_all(st: DrawRangeState, e: E_Cmd)
    requires
        e is Undo || e is Redo || e is CursorFileHome || e is CursorFileEnd || e is ReplaceExec || e is BoxSelectMode
            || e is InputComple,
    ensures
        st.is_edit || sel_is_selected(st.sel) || !sel_is_selected(st.sel_org) ==> draw_decision(st, e).0 == E_DrawRange::All,
        draw_decision(st, e).0 == E_DrawRange::All || draw_decision(st, e).0 == E_DrawRange::TargetRange(
            sel_start(st.sel_org).y,
            sel_end(st.sel_org).y,
        ),
        draw_decision(st, e).1 == 0,
        !draw_decision(st, e).2,
{
}

} // verus!
