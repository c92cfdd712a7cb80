//! An edit command as the editor carries it out: the selected range goes first, then the
//! command's own edit (inserting, pasting, breaking a row, deleting, cutting, editing box
//! rows, replacing), and the whole is recorded for undo.
use crate::buf::rope_text;
use crate::buf_edit::{breaks_before, is_break_end, is_line_start, lemma_breaks_before_mono, line_count, line_start};
use crate::cfg::Cfg;
use crate::def::USIZE_UNDEFINED;
use crate::edit::{
    cur_after_insert, cur_idx, cur_in_text, edit_in_range, edit_result, file_nl, inserted_text, lemma_breaks_before_le,
    insert_text_of, lemma_len_times_width, lemma_line_start_exists, row_before_cur, Editor,
};
use crate::edit_plan::{edit_plan, plan_edit};
use crate::history::{EvtProc, Proc};
use crate::keycmd::{E_Cmd, P_Cmd};
use crate::lang::Lang;
use crate::def::NEW_LINE_CRLF;
use crate::model::{ActType, Cur, RParts, SelMode, SelRange, NL};
use crate::mouse::MouseTarget;
use crate::text::{chars_to_string, str_to_chars, string_of};
use crate::util::{
    change_nl, crlf, first_nl, fit_len_from, get_row_cur_x_disp_x, prefix_width, get_row_x_opt, lemma_first_nl_from_bounds, max_char_width, nl_changed, replace_spec,
    row_cur_x_disp_x, row_x_opt, fit_len, layout_end, get_until_disp_x,
};
use crate::buf::TextBuffer;
use std::collections::BTreeSet;
use vstd::prelude::*;

verus! {

/// Is a range selected (both of its ends set)?
pub open spec fn sel_is_selected(sel: SelRange) -> bool {
    sel.sy != USIZE_UNDEFINED && sel.ey != USIZE_UNDEFINED
}

/// Is a range of some width selected?
pub open spec fn sel_is_selected_width(sel: SelRange) -> bool {
    sel_is_selected(sel) && !(sel.sy == sel.ey && sel.sx == sel.ex)
}

/// Does the selection run forwards (its start not after its end)?
pub open spec fn sel_forward(sel: SelRange) -> bool {
    sel.sy < sel.ey || (sel.sy == sel.ey && sel.sx <= sel.ex)
}

/// The first end of the selection in the text.
pub open spec fn sel_start(sel: SelRange) -> Cur {
    if sel_forward(sel) {
        Cur { y: sel.sy, x: sel.sx, disp_x: sel.s_disp_x }
    } else {
        Cur { y: sel.ey, x: sel.ex, disp_x: sel.e_disp_x }
    }
}

/// The last end of the selection in the text.
pub open spec fn sel_end(sel: SelRange) -> Cur {
    if sel_forward(sel) {
        Cur { y: sel.ey, x: sel.ex, disp_x: sel.e_disp_x }
    } else {
        Cur { y: sel.sy, x: sel.sx, disp_x: sel.s_disp_x }
    }
}

/// The selection with nothing selected, in the same mode.
pub open spec fn sel_cleared(sel: SelRange) -> SelRange {
    SelRange {
        mode: sel.mode,
        sy: USIZE_UNDEFINED,
        ey: USIZE_UNDEFINED,
        sx: USIZE_UNDEFINED,
        ex: USIZE_UNDEFINED,
        s_disp_x: USIZE_UNDEFINED,
        e_disp_x: USIZE_UNDEFINED,
    }
}

/// Does the selection lie on the text? Where a range is selected, both its ends are on the
/// text and the start comes first; a range of some width is a normal one (a box selection is
/// cut into its rows, which `DelBox` deletes).
pub open spec fn sel_in_text(s: Seq<char>, sel: SelRange) -> bool {
    &&& sel_is_selected(sel) ==> cur_in_text(s, sel_start(sel)) && cur_in_text(s, sel_end(sel))
        && cur_idx(s, sel_start(sel)) <= cur_idx(s, sel_end(sel))
    &&& sel_is_selected_width(sel) ==> sel.mode == SelMode::Normal
}

/// Does the command edit the text (and so replace a selected range)?
pub open spec fn is_edit_cmd(e: E_Cmd) -> bool {
    e is InsertStr || e is InsertRow || e is Cut || e is DelPrevChar || e is DelNextChar || e is InsertBox || e is DelBox
}

/// The cursor at row and column of `c`, at the display column of the characters before it
/// on its row.
pub open spec fn cur_at(cfg: Cfg, s: Seq<char>, c: Cur) -> Cur {
    Cur { y: c.y, x: c.x, disp_x: row_cur_x_disp_x(cfg, row_before_cur(s, c), 0, false).1 as usize }
}

/// Is the selected range deleted before the command's own edit?
pub open spec fn deletes_sel(sel: SelRange, e: E_Cmd) -> bool {
    sel_is_selected_width(sel) && is_edit_cmd(e)
}

/// The text and cursor after the selected range is deleted (where it is): the cursor goes to
/// where the range started.
pub open spec fn after_sel_del(cfg: Cfg, s: Seq<char>, cur: Cur, sel: SelRange, e: E_Cmd) -> (Seq<char>, Cur) {
    if deletes_sel(sel, e) {
        (s.take(cur_idx(s, sel_start(sel))) + s.skip(cur_idx(s, sel_end(sel))), cur_at(cfg, s, sel_start(sel)))
    } else {
        (s, cur)
    }
}

/// The selection after the command: cleared once its range was deleted (a cut clears it
/// whenever a range is selected), else as it was.
pub open spec fn sel_after(sel: SelRange, e: E_Cmd) -> SelRange {
    if deletes_sel(sel, e) || (e is Cut && sel_is_selected(sel)) {
        sel_cleared(sel)
    } else {
        sel
    }
}

/// The text a paste inserts: the clipboard with its line breaks made the file's.
pub open spec fn pasted_text(clip: Seq<char>, nl: Seq<char>) -> Seq<char> {
    nl_changed(clip, nl)
}

/// The text, cursor and inserted text after `t` goes in at the cursor (see `ins_str`).
pub open spec fn insert_result(cfg: Cfg, s: Seq<char>, cur: Cur, t: Seq<char>, nl: Seq<char>) -> (Seq<char>, Cur, Seq<char>) {
    let i = cur_idx(s, cur);
    (s.take(i) + t + s.skip(i), cur_after_insert(cfg, s, cur, t, file_nl(nl)), t)
}

/// Can one box row be deleted: its row is on the text, and its columns run forwards within it?
pub open spec fn box_del_ok(s: Seq<char>, sel: SelRange) -> bool {
    &&& sel.sy < line_count(s)
    &&& sel.sx <= sel.ex
    &&& line_start(s, sel.sy as nat) + sel.ex <= s.len()
}

/// The text after one box row is deleted.
pub open spec fn box_del_step(s: Seq<char>, sel: SelRange) -> Seq<char> {
    let ls = line_start(s, sel.sy as nat);
    s.take(ls + sel.sx) + s.skip(ls + sel.ex)
}

/// The text after the box rows from `k` on are deleted, the last first.
pub open spec fn box_del_from(s: Seq<char>, v: Seq<(SelRange, String)>, k: int) -> Seq<char>
    decreases v.len() - k,
{
    if k < 0 || k >= v.len() {
        s
    } else {
        box_del_step(box_del_from(s, v, k + 1), v[k].0)
    }
}

/// Can the box rows from `k` on be deleted, the last first?
pub open spec fn box_del_from_ok(s: Seq<char>, v: Seq<(SelRange, String)>, k: int) -> bool
    decreases v.len() - k,
{
    if k < 0 || k >= v.len() {
        true
    } else {
        box_del_from_ok(s, v, k + 1) && box_del_ok(box_del_from(s, v, k + 1), v[k].0)
    }
}

/// What the command does after the selected range went: the answer (0 go on, 1 nothing done,
/// 2 nothing selected to cut), the text, the cursor, the text the command's own edit
/// inserted or deleted (`None` where it ran none), and where that edit is recorded to start.
/// - With a range deleted, the deletion keys do nothing more.
/// - The delete key at the end of the text and the backspace key at its start do nothing.
/// - `InsertStr` inserts its text (see `inserted_text`), or with an empty text pastes the
///   clipboard (see `pasted_text`); `InsertRow` breaks the row; the deletion keys delete
///   (see `edit_result`).
/// - A cut of a selection goes on (its range is gone); with nothing selected it says so.
/// - `InsertBox` puts its texts in, one row each from the cursor's row, at the cursor's
///   display column (see `box_ins_step`), and the cursor stays at its row and column; with a
///   range still selected (one of no width) it inserts nothing.
/// - `DelBox` deletes its rows, the last first, and the cursor stays.
/// - `ReplaceExec` replaces the occurrences of its search text at the character positions of
///   its set with its replacement (see `rep_from`); the cursor goes after the last replacement
///   and the edit is recorded from the first one.
/// - Any other command does nothing.
pub open spec fn cmd_result(
    cfg: Cfg,
    s: Seq<char>,
    cur: Cur,
    sel: SelRange,
    e: E_Cmd,
    clip: Seq<char>,
    nl: Seq<char>,
) -> (int, Seq<char>, Cur, Option<Seq<char>>, Cur) {
    if deletes_sel(sel, e) && (e is DelNextChar || e is DelPrevChar) {
        (0, s, cur, None, cur)
    } else {
        match e {
            E_Cmd::DelNextChar => if cur_idx(s, cur) < s.len() {
                let r = edit_result(cfg, s, cur, e, nl);
                (0, r.0, r.1, Some(r.2), cur)
            } else {
                (1, s, cur, None, cur)
            },
            E_Cmd::DelPrevChar => if cur.x > 0 || cur.y > 0 {
                let r = edit_result(cfg, s, cur, e, nl);
                (0, r.0, r.1, Some(r.2), cur)
            } else {
                (1, s, cur, None, cur)
            },
            E_Cmd::InsertRow => {
                let r = edit_result(cfg, s, cur, e, nl);
                (0, r.0, r.1, Some(r.2), cur)
            },
            E_Cmd::InsertStr(t) => {
                let r = insert_result(cfg, s, cur, if t@.len() == 0 { pasted_text(clip, nl) } else { inserted_text(cfg, t@) }, nl);
                (0, r.0, r.1, Some(r.2), cur)
            },
            E_Cmd::Cut => if sel_is_selected(sel) { (0, s, cur, None, cur) } else { (2, s, cur, None, cur) },
            E_Cmd::DelBox(v) => (0, box_del_from(s, v@, 0), cur, Some(Seq::empty()), cur),
            E_Cmd::InsertBox(v) => if !deletes_sel(sel, e) && sel_is_selected(sel) {
                (0, s, cur, Some(Seq::empty()), cur)
            } else if v@.len() == 0 {
                let r = insert_result(cfg, s, cur, Seq::empty(), nl);
                (0, r.0, r.1, Some(r.2), cur)
            } else {
                let t = box_ins_upto(cfg, s, v@, v@.len() as int, cur.y as nat, cur.disp_x as nat, nl);
                (0, t, cur_at(cfg, t, cur), Some(Seq::empty()), cur)
            },
            E_Cmd::ReplaceExec(sr, rp, set) => {
                let t = rep_from(s, set@, sr@.len(), rp@, 0);
                (0, t, cur_of_idx(cfg, t, rep_end(s, set@, sr@.len(), t)), Some(Seq::empty()),
                    cur_of_idx(cfg, s, first_from(set@, 0, s.len() as int).unwrap()))
            },
            _ => (1, s, cur, None, cur),
        }
    }
}

/// `n` spaces.
pub open spec fn spaces(n: nat) -> Seq<char> {
    Seq::new(n, |i: int| ' ')
}

/// Where row `r` of `s` ends: where the next row starts, or the end of the text.
pub open spec fn row_end(s: Seq<char>, r: nat) -> int {
    if r + 1 < line_count(s) { line_start(s, r + 1) } else { s.len() as int }
}

/// Where on row `r` box text goes in at display column `dx`, and the spaces that come
/// before it: at the character standing at that column, or where the row is shorter, at its
/// end after spaces up to the column.
pub open spec fn box_row_place(cfg: Cfg, s: Seq<char>, r: nat, dx: nat) -> (int, nat) {
    let ls = line_start(s, r);
    let line = s.subrange(ls, row_end(s, r));
    match row_x_opt(cfg, line, dx, false, false) {
        Some(x) => (ls + x, 0),
        None => {
            let (n, w) = row_cur_x_disp_x(cfg, line, 0, false);
            (ls + n, if dx >= w { (dx - w) as nat } else { 0 })
        },
    }
}

/// The text after `t` goes in on row `r` at display column `dx` (see `box_row_place`); past
/// the last row, a new row holding `dx` spaces and `t` is added after a line break.
pub open spec fn box_ins_step(cfg: Cfg, s: Seq<char>, r: nat, dx: nat, t: Seq<char>, nl: Seq<char>) -> Seq<char> {
    if r < line_count(s) {
        let (i, pad) = box_row_place(cfg, s, r, dx);
        s.take(i) + spaces(pad) + t + s.skip(i)
    } else {
        s + file_nl(nl) + spaces(dx) + t
    }
}

/// The text after the first `k` box texts of `v` go in, one row each from row `sy`.
pub open spec fn box_ins_upto(cfg: Cfg, s: Seq<char>, v: Seq<(SelRange, String)>, k: int, sy: nat, dx: nat, nl: Seq<char>) -> Seq<char>
    decreases k,
{
    if k <= 0 || k > v.len() {
        s
    } else {
        box_ins_step(cfg, box_ins_upto(cfg, s, v, k - 1, sy, dx, nl), (sy + k - 1) as nat, dx, v[k - 1].1@, nl)
    }
}

/// One box text going in as `ins` at `at` makes the step `box_ins_step` describes.
proof fn lemma_box_step(cfg: Cfg, t0: Seq<char>, r: nat, dx: nat, t: Seq<char>, nl: Seq<char>, at: int, pad: nat, ins: Seq<char>, lc: nat)
    requires
        lc == line_count(t0),
        r < lc ==> at == box_row_place(cfg, t0, r, dx).0 && pad == box_row_place(cfg, t0, r, dx).1,
        r >= lc ==> at == t0.len() && pad == dx,
        0 <= at <= t0.len(),
        ins == (if r >= lc { file_nl(nl) } else { Seq::empty() }) + spaces(pad) + t,
    ensures
        t0.take(at) + ins + t0.skip(at) == box_ins_step(cfg, t0, r, dx, t, nl),
{
    if r < lc {
        let pl = box_row_place(cfg, t0, r, dx);
        assert(box_ins_step(cfg, t0, r, dx, t, nl) == t0.take(pl.0) + spaces(pl.1) + t + t0.skip(pl.0));
        assert(t0.take(at) + ins + t0.skip(at) =~= t0.take(at) + spaces(pad) + t + t0.skip(at));
    } else {
        assert(t0.take(at) =~= t0);
        assert(t0.skip(at) =~= Seq::<char>::empty());
        assert(t0.take(at) + ins + t0.skip(at) =~= t0 + file_nl(nl) + spaces(dx) + t);
    }
}

/// What the box texts of `v` from `k` on can add: each its text, the spaces and a line break.
pub open spec fn box_extra(v: Seq<(SelRange, String)>, k: int, dx: nat) -> nat
    decreases v.len() - k,
{
    if k < 0 || k >= v.len() {
        0
    } else {
        dx + v[k].1@.len() + 2 + box_extra(v, k + 1, dx)
    }
}

/// The text after the occurrences at the positions of `p` from `k` on (and up to the end of
/// the text) are replaced by `rep`, each `pl` characters long, the last first.
pub open spec fn rep_from(s: Seq<char>, p: Set<usize>, pl: nat, rep: Seq<char>, k: int) -> Seq<char>
    decreases s.len() + 1 - k,
{
    if k < 0 || k > s.len() {
        s
    } else if p.contains(k as usize) {
        let t = rep_from(s, p, pl, rep, k + 1);
        t.take(k) + rep + t.skip(k + pl)
    } else {
        rep_from(s, p, pl, rep, k + 1)
    }
}

/// The first position of `p` from `k` up to `n`.
pub open spec fn first_from(p: Set<usize>, k: int, n: int) -> Option<int>
    decreases n + 1 - k,
{
    if k < 0 || k > n {
        None
    } else if p.contains(k as usize) {
        Some(k)
    } else {
        first_from(p, k + 1, n)
    }
}

/// The last position of `p` from `k` up to `n`.
pub open spec fn last_in(p: Set<usize>, k: int, n: int) -> Option<int>
    decreases n + 1,
{
    if n < k || n < 0 {
        None
    } else if p.contains(n as usize) {
        Some(n)
    } else {
        last_in(p, k, n - 1)
    }
}

/// Where the text after the last replacement starts in the new text `t`.
pub open spec fn rep_end(s: Seq<char>, p: Set<usize>, pl: nat, t: Seq<char>) -> int {
    t.len() - (s.len() - (last_in(p, 0, s.len() as int).unwrap() + pl))
}

/// Can the positions of `p` be replaced: there is one, each occurrence lies on the text, and
/// no two overlap.
pub open spec fn rep_ok(s: Seq<char>, p: Set<usize>, pl: nat) -> bool {
    &&& exists|q: usize| p.contains(q)
    &&& forall|q: usize| #[trigger] p.contains(q) ==> q + pl <= s.len()
    &&& forall|q1: usize, q2: usize| #[trigger] p.contains(q1) && #[trigger] p.contains(q2) && q1 < q2 ==> q1 + pl <= q2
}

/// Does index `i` fall between the CR and the LF of a pair?
pub open spec fn splits_crlf(s: Seq<char>, i: int) -> bool {
    0 < i < s.len() && s[i - 1] == '\r' && s[i] == '\n'
}

/// The cursor at index `i`: on the row `i` lies on, at its column and display column.
pub open spec fn cur_of_idx(cfg: Cfg, s: Seq<char>, i: int) -> Cur {
    let y = breaks_before(s, i);
    let ls = line_start(s, y);
    Cur { y: y as usize, x: (i - ls) as usize, disp_x: row_cur_x_disp_x(cfg, s.subrange(ls, i), 0, false).1 as usize }
}

/// The sizes the command needs stay well inside `usize`.
pub open spec fn cmd_fits(cfg: Cfg, s: Seq<char>, e: E_Cmd, clip: Seq<char>) -> bool {
    &&& edit_in_range(cfg, s, 2 * clip.len() + 2)
    &&& match e {
        E_Cmd::InsertStr(t) => edit_in_range(cfg, s, inserted_text(cfg, t@).len()),
        _ => true,
    }
}

/// Is the editor in a state `edit_proc` can work on? The cursor and the selection lie on the
/// text; where the selected range goes first, the cursor left where it started is on the
/// text after it (so it is unless the range starts a row that follows a lone CR and LF
/// comes after the range); and the sizes fit (see `cmd_fits`).
pub open spec fn edit_proc_fits(cfg: Cfg, ed: Editor, e: E_Cmd, clip: Seq<char>) -> bool {
    let s = rope_text(ed.buf.text);
    let d = after_sel_del(cfg, s, ed.cur, ed.sel, e);
    &&& cur_in_text(s, ed.cur)
    &&& sel_in_text(s, ed.sel)
    &&& cur_in_text(d.0, d.1)
    &&& cmd_fits(cfg, s, e, clip)
    &&& (e matches E_Cmd::DelBox(v) ==> box_del_from_ok(d.0, v@, 0))
    &&& (e matches E_Cmd::InsertBox(v) ==> {
        &&& edit_in_range(cfg, s, box_extra(v@, 0, d.1.disp_x as nat) + 2)
        &&& d.1.y + v@.len() <= usize::MAX
        &&& cur_in_text(box_ins_upto(cfg, d.0, v@, v@.len() as int, d.1.y as nat, d.1.disp_x as nat, ed.h_file.nl@), d.1)
    })
    &&& (e matches E_Cmd::ReplaceExec(sr, rp, set) ==> {
        let t = rep_from(s, set@, sr@.len(), rp@, 0);
        &&& rep_ok(s, set@, sr@.len())
        &&& edit_in_range(cfg, t, 2)
        &&& !splits_crlf(s, first_from(set@, 0, s.len() as int).unwrap())
        &&& 0 <= rep_end(s, set@, sr@.len(), t)
        &&& !splits_crlf(t, rep_end(s, set@, sr@.len(), t))
    })
}

/// A paste of the clipboard never more than doubles it.
proof fn lemma_replace_len(s: Seq<char>, pat: Seq<char>, rep: Seq<char>, k: nat)
    requires
        pat.len() >= 1,
        k >= 1,
        rep.len() <= k,
    ensures
        replace_spec(s, pat, rep).len() <= s.len() * k,
    decreases s.len(),
{
    if pat.len() == 0 || s.len() < pat.len() {
        assert(s.len() <= s.len() * k) by (nonlinear_arith)
            requires
                k >= 1,
        ;
    } else if s.take(pat.len() as int) == pat {
        lemma_replace_len(s.skip(pat.len() as int), pat, rep, k);
        assert(rep.len() + (s.len() - pat.len()) * k <= s.len() * k) by (nonlinear_arith)
            requires
                rep.len() <= k,
                pat.len() >= 1,
                s.len() >= pat.len(),
                k >= 1,
        ;
    } else {
        lemma_replace_len(s.skip(1), pat, rep, k);
        assert(1 + (s.len() - 1) * k <= s.len() * k) by (nonlinear_arith)
            requires
                k >= 1,
                s.len() >= 1,
        ;
    }
}

proof fn lemma_pasted_len(clip: Seq<char>, nl: Seq<char>)
    ensures
        pasted_text(clip, nl).len() <= 2 * clip.len(),
{
    let lf = replace_spec(clip, crlf(), seq!['\n']);
    lemma_replace_len(clip, crlf(), seq!['\n'], 1);
    assert(clip.len() * 1 == clip.len());
    lemma_replace_len(lf, seq!['\n'], crlf(), 2);
    assert(lf.len() * 2 <= 2 * clip.len());
}

/// Is a range of some width selected?
fn sel_width(sel: &SelRange) -> (b: bool)
    ensures
        b == sel_is_selected_width(*sel),
{
    sel.sy != USIZE_UNDEFINED && sel.ey != USIZE_UNDEFINED && !(sel.sy == sel.ey && sel.sx == sel.ex)
}

/// The first and the last end of the selection.
pub(crate) fn sel_ends(sel: &SelRange) -> (r: (Cur, Cur))
    ensures
        r.0 == sel_start(*sel),
        r.1 == sel_end(*sel),
{
    let a = Cur { y: sel.sy, x: sel.sx, disp_x: sel.s_disp_x };
    let b = Cur { y: sel.ey, x: sel.ex, disp_x: sel.e_disp_x };
    if sel.sy < sel.ey || (sel.sy == sel.ey && sel.sx <= sel.ex) { (a, b) } else { (b, a) }
}

/// The selection with nothing selected, in the same mode.
pub(crate) fn sel_clear(sel: &SelRange) -> (r: SelRange)
    ensures
        r == sel_cleared(*sel),
{
    SelRange {
        mode: sel.mode,
        sy: USIZE_UNDEFINED,
        ey: USIZE_UNDEFINED,
        sx: USIZE_UNDEFINED,
        ex: USIZE_UNDEFINED,
        s_disp_x: USIZE_UNDEFINED,
        e_disp_x: USIZE_UNDEFINED,
    }
}

/// The answer the spec's code stands for.
pub open spec fn act_of(code: int, lang: Lang) -> spec_fn(ActType) -> bool {
    |a: ActType| if code == 0 {
        a == ActType::Next
    } else if code == 1 {
        a == ActType::Cancel
    } else {
        a matches ActType::Render(RParts::MsgBar(m)) && m@ == lang.no_sel_range@
    }
}

/// Does the set hold `k`?
fn set_has(set: &BTreeSet<usize>, k: usize) -> (b: bool)
    ensures
        b == set@.contains(k),
{
    broadcast use vstd::std_specs::btree::group_btree_axioms;
    broadcast use vstd::laws_cmp::group_laws_cmp;
    set.contains(&k)
}

/// Replacing from `k` on keeps the text before `j` where no position from `k` on comes
/// before `j`.
proof fn lemma_rep_prefix(s: Seq<char>, p: Set<usize>, pl: nat, rep: Seq<char>, k: int, j: int)
    requires
        0 <= k,
        0 <= j <= s.len(),
        s.len() <= usize::MAX,
        rep_ok(s, p, pl),
        forall|q: usize| #[trigger] p.contains(q) && q >= k ==> q >= j,
    ensures
        rep_from(s, p, pl, rep, k).len() >= j,
        rep_from(s, p, pl, rep, k).take(j) == s.take(j),
    decreases s.len() + 1 - k,
{
    if k > s.len() {
        assert(s.take(j) =~= s.take(j));
    } else if p.contains(k as usize) {
        let q = k as usize;
        assert(q + pl <= s.len());
        assert forall|r: usize| #[trigger] p.contains(r) && r >= k + 1 implies r >= k + pl by {
            assert(p.contains(q) && p.contains(r) && q < r);
        }
        lemma_rep_prefix(s, p, pl, rep, k + 1, k + pl);
        lemma_rep_prefix(s, p, pl, rep, k + 1, j);
        let t = rep_from(s, p, pl, rep, k + 1);
        let u = t.take(k) + rep + t.skip(k + pl);
        assert(u.take(j) =~= t.take(j));
    } else {
        lemma_rep_prefix(s, p, pl, rep, k + 1, j);
    }
}

/// The last position from `k` is the last one from `k + 1`, or `k` where there is none.
proof fn lemma_last_in_step(p: Set<usize>, k: int, n: int)
    requires
        0 <= k <= n <= usize::MAX,
    ensures
        last_in(p, k, n) == (if last_in(p, k + 1, n) is Some { last_in(p, k + 1, n) } else if p.contains(k as usize) {
            Some(k)
        } else {
            None
        }),
    decreases n - k,
{
    if n > k {
        lemma_last_in_step(p, k, n - 1);
    } else {
        reveal_with_fuel(last_in, 2);
        assert(last_in(p, k + 1, n) is None);
    }
}

/// A position of `p` from `k` up to `n` makes the first and the last one found.
proof fn lemma_first_last_some(p: Set<usize>, k: int, n: int, q: int)
    requires
        0 <= k <= q <= n,
        p.contains(q as usize),
    ensures
        first_from(p, k, n) is Some,
        last_in(p, k, n) is Some,
    decreases n - k,
{
    if k < q && !p.contains(k as usize) {
        lemma_first_last_some(p, k + 1, n, q);
    }
    lemma_last_some(p, k, n, q);
}

/// Counting the characters that fit never goes back before the start.
proof fn lemma_fit_len_from_ge(cfg: Cfg, s: Seq<char>, limit: nat, n: int, i: int)
    requires
        0 <= i,
    ensures
        i <= fit_len_from(cfg, s, limit, n, i),
        i <= n ==> fit_len_from(cfg, s, limit, n, i) <= n,
    decreases n - i,
{
    if 0 <= i < n && prefix_width(cfg, s, i + 1, 0) <= limit {
        lemma_fit_len_from_ge(cfg, s, limit, n, i + 1);
    }
}

/// The first position found lies within the bounds.
proof fn lemma_first_from_is(p: Set<usize>, k: int, n: int)
    requires
        first_from(p, k, n) is Some,
    ensures
        k <= first_from(p, k, n).unwrap() <= n,
    decreases n + 1 - k,
{
    if !(k < 0 || k > n) && !p.contains(k as usize) {
        lemma_first_from_is(p, k + 1, n);
    }
}

/// The last position found is a position of `p` within the bounds.
proof fn lemma_last_in_is(p: Set<usize>, k: int, n: int)
    requires
        last_in(p, k, n) is Some,
    ensures
        k <= last_in(p, k, n).unwrap() <= n,
        p.contains(last_in(p, k, n).unwrap() as usize),
    decreases n + 1,
{
    if !(n < k || n < 0) && !p.contains(n as usize) {
        lemma_last_in_is(p, k, n - 1);
    }
}

proof fn lemma_last_some(p: Set<usize>, k: int, n: int, q: int)
    requires
        0 <= k <= q <= n,
        p.contains(q as usize),
    ensures
        last_in(p, k, n) is Some,
    decreases n - q,
{
    if n > q && !p.contains(n as usize) {
        lemma_last_some(p, k, n - 1, q);
    }
}

/// A row that starts at `ls` and holds index `i` starts no later than `i`.
proof fn lemma_start_le(s: Seq<char>, i: int, ls: int)
    requires
        0 <= i <= s.len(),
        is_line_start(s, breaks_before(s, i), ls),
    ensures
        ls <= i,
{
    if ls > i {
        lemma_breaks_before_mono(s, i, ls - 1);
    }
}

/// The cursor at index `i` of the buffer (see `cur_of_idx`).
fn cur_at_idx(buf: &TextBuffer, cfg: &Cfg, i: usize) -> (c: Cur)
    requires
        i <= rope_text(buf.text).len(),
        !splits_crlf(rope_text(buf.text), i as int),
        edit_in_range(*cfg, rope_text(buf.text), 0),
    ensures
        c == cur_of_idx(*cfg, rope_text(buf.text), i as int),
{
    let ghost s = rope_text(buf.text);
    let y = buf.char_to_row(i);
    proof {
        lemma_breaks_before_mono(s, i as int, s.len() as int);
    }
    let ls = buf.line_to_char(y);
    proof {
        lemma_start_le(s, i as int, ls as int);
    }
    let mut row: Vec<char> = Vec::new();
    let mut k = ls;
    while k < i
        invariant
            ls <= k <= i <= s.len(),
            s == rope_text(buf.text),
            row@ == s.subrange(ls as int, k as int),
        decreases i - k,
    {
        let c = buf.char_idx(k);
        row.push(c);
        proof {
            assert(s.subrange(ls as int, k + 1) =~= s.subrange(ls as int, k as int).push(c));
        }
        k = k + 1;
    }
    let w = Editor::row_width(cfg, row.as_slice(), Ghost(s.len()));
    Cur { y, x: i - ls, disp_x: w }
}

impl Editor {
    /// The characters from index `a` up to `b` as a string.
    fn text_between(&self, a: usize, b: usize) -> (r: String)
        requires
            a <= b <= rope_text(self.buf.text).len(),
        ensures
            r@ == rope_text(self.buf.text).subrange(a as int, b as int),
    {
        let v = self.chars_between(a, b);
        chars_to_string(v.as_slice())
    }

    /// The cursor at `c`'s row and column, measured on the text (see `cur_at`).
    pub(crate) fn cur_measured(&self, cfg: &Cfg, c: Cur) -> (r: Cur)
        requires
            cur_in_text(rope_text(self.buf.text), c),
            edit_in_range(*cfg, rope_text(self.buf.text), 0),
        ensures
            r == cur_at(*cfg, rope_text(self.buf.text), c),
    {
        let n = self.buf.len_chars();
        let ls = self.buf.line_to_char(c.y);
        assert(ls + c.x <= n);
        let row = self.chars_between(ls, ls + c.x);
        let w = Self::row_width(cfg, row.as_slice(), Ghost(rope_text(self.buf.text).len()));
        Cur { y: c.y, x: c.x, disp_x: w }
    }
}

/// Longer texts bound shorter ones.
proof fn lemma_in_range_shorter(cfg: Cfg, a: Seq<char>, b: Seq<char>, xa: nat, xb: nat)
    requires
        a.len() + xa <= b.len() + xb,
        edit_in_range(cfg, b, xb),
    ensures
        edit_in_range(cfg, a, xa),
{
    lemma_len_times_width((a.len() + xa) as nat, (b.len() + xb) as nat, max_char_width(cfg));
}

/// Where the box rows from `j` on can be deleted, so can those from any later `k`.
proof fn lemma_box_ok_suffix(s: Seq<char>, v: Seq<(SelRange, String)>, j: int, k: int)
    requires
        0 <= j <= k,
        box_del_from_ok(s, v, j),
    ensures
        box_del_from_ok(s, v, k),
    decreases k - j,
{
    if j < k && j < v.len() {
        lemma_box_ok_suffix(s, v, j + 1, k);
    }
}

/// Where the box rows from `k` on can be deleted, the text gets no longer.
proof fn lemma_box_del_shorter(s: Seq<char>, v: Seq<(SelRange, String)>, k: int)
    requires
        box_del_from_ok(s, v, k),
    ensures
        box_del_from(s, v, k).len() <= s.len(),
    decreases v.len() - k,
{
    if 0 <= k < v.len() {
        lemma_box_del_shorter(s, v, k + 1);
        let t = box_del_from(s, v, k + 1);
        let y = v[k].0.sy as nat;
        if y == 0 {
            assert(is_line_start(t, 0, 0));
        } else {
            lemma_line_start_exists(t, y, t.len() as int);
        }
        assert(is_line_start(t, y, line_start(t, y)));
        assert(box_del_step(t, v[k].0).len() <= t.len());
    }
}

impl Editor {
    /// Delete the box rows of `v`, the last first (see `box_del_from`).
    fn del_box_rows(&mut self, v: &Vec<(SelRange, String)>)
        requires
            box_del_from_ok(rope_text(old(self).buf.text), v@, 0),
        ensures
            rope_text(final(self).buf.text) == box_del_from(rope_text(old(self).buf.text), v@, 0),
            final(self).cur == old(self).cur,
            final(self).sel == old(self).sel,
            final(self).h_file == old(self).h_file,
            final(self).e_cmd == old(self).e_cmd,
            final(self).history == old(self).history,
    {
        let ghost s0 = rope_text(self.buf.text);
        let mut k = v.len();
        while k > 0
            invariant
                k <= v@.len(),
                box_del_from_ok(s0, v@, 0),
                rope_text(self.buf.text) == box_del_from(s0, v@, k as int),
                self.cur == old(self).cur,
                self.sel == old(self).sel,
                self.h_file == old(self).h_file,
                self.e_cmd == old(self).e_cmd,
                self.history == old(self).history,
            decreases k,
        {
            k = k - 1;
            proof {
                lemma_box_ok_suffix(s0, v@, 0, k as int);
            }
            let sel = v[k].0;
            let n = self.buf.len_chars();
            let ls = self.buf.line_to_char(sel.sy);
            self.buf.remove(ls + sel.sx, ls + sel.ex);
        }
    }

    /// Where on row `r` box text goes in at display column `dx`, and the spaces before it (see
    /// `box_row_place`).
    fn box_place(&self, cfg: &Cfg, r: usize, dx: usize) -> (res: (usize, usize))
        requires
            r < line_count(rope_text(self.buf.text)),
            edit_in_range(*cfg, rope_text(self.buf.text), 0),
        ensures
            res.0 == box_row_place(*cfg, rope_text(self.buf.text), r as nat, dx as nat).0,
            res.1 == box_row_place(*cfg, rope_text(self.buf.text), r as nat, dx as nat).1,
            res.0 <= rope_text(self.buf.text).len(),
            res.1 <= dx,
    {
        let ghost t0 = rope_text(self.buf.text);
        let n = self.buf.len_chars();
        let lc = self.buf.len_rows();
        let ls = self.buf.line_to_char(r);
        let le = if r + 1 < lc { self.buf.line_to_char(r + 1) } else { n };
        proof {
            if r + 1 < lc && ls > le {
                lemma_breaks_before_mono(t0, le as int, ls as int);
            }
        }
        let line = self.chars_between(ls, le);
        proof {
            lemma_first_nl_from_bounds(line@, 0);
            lemma_fit_len_from_ge(*cfg, line@, dx as nat, first_nl(line@), 0);
            lemma_len_times_width(line@.len(), t0.len(), max_char_width(*cfg));
        }
        match get_row_x_opt(cfg, line.as_slice(), dx, false, false) {
            Some(x) => (ls + x, 0),
            None => {
                let (nn, w) = get_row_cur_x_disp_x(cfg, line.as_slice(), 0, false);
                (ls + nn, if dx >= w { dx - w } else { 0 })
            },
        }
    }

    /// Put the box texts of `v` in, one row each from the cursor's row, at the cursor's display
    /// column (see `box_ins_upto`); the cursor goes back to its row and column. Gives back
    /// the range each text took, in characters.
    fn insert_box_rows(&mut self, cfg: &Cfg, v: &Vec<(SelRange, String)>) -> (ranges: Vec<(SelRange, String)>)
        requires
            edit_in_range(*cfg, rope_text(old(self).buf.text), box_extra(v@, 0, old(self).cur.disp_x as nat) + 2),
            old(self).cur.y + v@.len() <= usize::MAX,
            cur_in_text(
                box_ins_upto(*cfg, rope_text(old(self).buf.text), v@, v@.len() as int, old(self).cur.y as nat, old(self).cur.disp_x as nat, old(self).h_file.nl@),
                old(self).cur,
            ),
        ensures
            rope_text(final(self).buf.text) == box_ins_upto(
                *cfg,
                rope_text(old(self).buf.text),
                v@,
                v@.len() as int,
                old(self).cur.y as nat,
                old(self).cur.disp_x as nat,
                old(self).h_file.nl@,
            ),
            final(self).cur == cur_at(*cfg, rope_text(final(self).buf.text), old(self).cur),
            final(self).sel == old(self).sel,
            final(self).h_file == old(self).h_file,
            final(self).e_cmd == old(self).e_cmd,
            final(self).history == old(self).history,
    {
        let ghost s0 = rope_text(self.buf.text);
        let cur0 = self.cur;
        let sy = self.cur.y;
        let dx = self.cur.disp_x;
        let nl = NL::get_nl(&self.h_file.nl);
        let ghost nls = file_nl(self.h_file.nl@);
        let mut ranges: Vec<(SelRange, String)> = Vec::new();
        let mut i: usize = 0;
        proof {
            assert(nl@ == nls);
            assert(NEW_LINE_CRLF@.len() == 2) by {
                reveal_strlit("\r\n");
            }
        }
        while i < v.len()
            invariant
                i <= v@.len(),
                sy == cur0.y,
                dx == cur0.disp_x,
                cur0 == old(self).cur,
                sy + v@.len() <= usize::MAX,
                nl@ == nls,
                nls.len() <= 2,
                nls == file_nl(old(self).h_file.nl@),
                edit_in_range(*cfg, s0, box_extra(v@, 0, dx as nat) + 2),
                rope_text(self.buf.text) == box_ins_upto(*cfg, s0, v@, i as int, sy as nat, dx as nat, old(self).h_file.nl@),
                rope_text(self.buf.text).len() + box_extra(v@, i as int, dx as nat) <= s0.len() + box_extra(v@, 0, dx as nat),
                self.cur == old(self).cur,
                self.sel == old(self).sel,
                self.h_file == old(self).h_file,
                self.e_cmd == old(self).e_cmd,
                self.history == old(self).history,
            decreases v@.len() - i,
        {
            let ghost t0 = rope_text(self.buf.text);
            let r = sy + i;
            let n = self.buf.len_chars();
            let lc = self.buf.len_rows();
            let text: &String = &v[i].1;
            proof {
                lemma_in_range_shorter(*cfg, t0, s0, 0, box_extra(v@, 0, dx as nat) + 2);
            }
            let (at, pad) = if r < lc {
                self.box_place(cfg, r, dx)
            } else {
                (n, dx)
            };
            let mut ins = String::new();
            if r >= lc {
                ins.push_str(nl.as_str());
            }
            let mut j: usize = 0;
            while j < pad
                invariant
                    j <= pad,
                    ins@ == (if r >= lc { nls } else { Seq::empty() }) + spaces(j as nat),
                decreases pad - j,
            {
                ins.push(' ');
                proof {
                    assert(spaces((j + 1) as nat) =~= spaces(j as nat).push(' '));
                }
                j = j + 1;
            }
            ins.push_str(text.as_str());
            self.buf.text_insert_at(at, ins.as_str());
            proof {
                lemma_box_step(*cfg, t0, r as nat, dx as nat, v@[i as int].1@, old(self).h_file.nl@, at as int, pad as nat, ins@, lc as nat);
                assert(box_ins_upto(*cfg, s0, v@, i + 1, sy as nat, dx as nat, old(self).h_file.nl@) == box_ins_step(*cfg, t0, r as nat, dx as nat, v@[i as int].1@, old(self).h_file.nl@));
            }
            ranges.push((
                SelRange { mode: SelMode::Normal, sy: r, ey: r, sx: at, ex: at, s_disp_x: dx, e_disp_x: dx },
                string_of(text.as_str()),
            ));
            i = i + 1;
        }
        assert(i == v@.len());

        proof {
            lemma_in_range_shorter(*cfg, rope_text(self.buf.text), s0, 0, box_extra(v@, 0, dx as nat) + 2);
        }
        let c = self.cur_measured(cfg, cur0);
        self.cur = c;
        ranges
    }

    /// Replace the occurrences of `sr` at the positions of `set` with `rp` (see `rep_from`),
    /// moving the cursor after the last one; gives back the cursor at the first one, on the
    /// text before.
    fn replace_at(&mut self, cfg: &Cfg, sr: &str, rp: &str, set: &BTreeSet<usize>) -> (r: Cur)
        requires
            ({
                let s = rope_text(old(self).buf.text);
                let t = rep_from(s, set@, sr@.len(), rp@, 0);
                &&& rep_ok(s, set@, sr@.len())
                &&& edit_in_range(*cfg, s, 2)
                &&& edit_in_range(*cfg, t, 2)
                &&& !splits_crlf(s, first_from(set@, 0, s.len() as int).unwrap())
                &&& 0 <= rep_end(s, set@, sr@.len(), t)
                &&& !splits_crlf(t, rep_end(s, set@, sr@.len(), t))
            }),
        ensures
            ({
                let s = rope_text(old(self).buf.text);
                let t = rep_from(s, set@, sr@.len(), rp@, 0);
                &&& rope_text(final(self).buf.text) == t
                &&& final(self).cur == cur_of_idx(*cfg, t, rep_end(s, set@, sr@.len(), t))
                &&& r == cur_of_idx(*cfg, s, first_from(set@, 0, s.len() as int).unwrap())
            }),
            final(self).sel == old(self).sel,
            final(self).h_file == old(self).h_file,
            final(self).e_cmd == old(self).e_cmd,
            final(self).history == old(self).history,
    {
        let ghost s0 = rope_text(self.buf.text);
        let ghost p = set@;
        let old_buf = TextBuffer { text: self.buf.text.clone() };
        let n = self.buf.len_chars();
        let srv = str_to_chars(sr);
        let pl = srv.len();
        proof {
            let m = s0.len() + 2;
            assert(m <= m * max_char_width(*cfg)) by (nonlinear_arith)
                requires
                    max_char_width(*cfg) >= 1,
            ;
            lemma_in_range_shorter(*cfg, s0, s0, 0, 2);
        }
        let mut k: usize = n + 1;
        let mut lo: Option<usize> = None;
        let mut hi: Option<usize> = None;
        while k > 0
            invariant
                k <= n + 1,
                n == s0.len(),
                pl == sr@.len(),
                rep_ok(s0, p, pl as nat),
                p == set@,
                rope_text(old_buf.text) == s0,
                rope_text(self.buf.text) == rep_from(s0, p, pl as nat, rp@, k as int),
                (lo is Some) == (first_from(p, k as int, n as int) is Some),
                lo is Some ==> lo.unwrap() == first_from(p, k as int, n as int).unwrap(),
                (hi is Some) == (last_in(p, k as int, n as int) is Some),
                hi is Some ==> hi.unwrap() == last_in(p, k as int, n as int).unwrap(),
                self.sel == old(self).sel,
                self.cur == old(self).cur,
                self.h_file == old(self).h_file,
                self.e_cmd == old(self).e_cmd,
                self.history == old(self).history,
            decreases k,
        {
            k = k - 1;
            proof {
                lemma_last_in_step(p, k as int, n as int);
            }
            if set_has(set, k) {
                proof {
                    assert(k + pl <= n);
                    assert forall|q: usize| #[trigger] p.contains(q) && q >= k + 1 implies q >= k + pl by {
                        assert(p.contains(k) && p.contains(q) && k < q);
                    }
                    lemma_rep_prefix(s0, p, pl as nat, rp@, k + 1, (k + pl) as int);
                }
                let ghost t = rope_text(self.buf.text);
                self.buf.remove(k, k + pl);
                self.buf.text_insert_at(k, rp);
                proof {
                    assert(rope_text(self.buf.text) =~= t.take(k as int) + rp@ + t.skip(k + pl));
                }
                lo = Some(k);
                if hi.is_none() {
                    hi = Some(k);
                }
            }
        }
        proof {
            let q = choose|q: usize| p.contains(q);
            lemma_first_last_some(p, 0, n as int, q as int);
            lemma_last_in_is(p, 0, n as int);
            lemma_first_from_is(p, 0, n as int);
            lemma_in_range_shorter(*cfg, rope_text(self.buf.text), rope_text(self.buf.text), 0, 2);
        }
        let mn = match lo { Some(m) => m, None => 0 };
        let mx = match hi { Some(m) => m, None => 0 };
        let cs = cur_at_idx(&old_buf, cfg, mn);
        let n2 = self.buf.len_chars();
        let end = n2 - (n - (mx + pl));
        let ce = cur_at_idx(&self.buf, cfg, end);
        self.cur = ce;
        cs
    }

    /// Carry out an edit command (see `after_sel_del`, `cmd_result`, `sel_after`): where it
    /// edits and a range of some width is selected, the range is deleted first and the
    /// cursor goes to where it started; then the command runs at the cursor, pasting
    /// `clipboard` for an empty `InsertStr`. Unless the command being handled is undo or
    /// redo, what was done is recorded for undo: the deleted range (with the cursor before
    /// it and the selection), and the command's own edit, a cut recording only the range
    /// (whose text the caller puts on the clipboard). A command that does nothing changes
    /// nothing. The view then follows the cursor through `ScrollState::scroll` and
    /// `HScrollState::scroll_horizontal`, which the caller runs.
    pub fn edit_proc(&mut self, cfg: &Cfg, e_cmd: &E_Cmd, clipboard: &str, lang: &Lang) -> (a: ActType)
        requires
            edit_proc_fits(*cfg, *old(self), *e_cmd, clipboard@),
        ensures
            ({
                let s0 = rope_text(old(self).buf.text);
                let d = after_sel_del(*cfg, s0, old(self).cur, old(self).sel, *e_cmd);
                let r = cmd_result(*cfg, d.0, d.1, old(self).sel, *e_cmd, clipboard@, old(self).h_file.nl@);
                &&& (act_of(r.0, *lang))(a)
                &&& r.0 == 0 ==> rope_text(final(self).buf.text) == r.1 && final(self).cur == r.2
                    && final(self).sel == sel_after(old(self).sel, *e_cmd)
                &&& r.0 != 0 ==> rope_text(final(self).buf.text) == s0 && final(self).cur == old(self).cur
                    && final(self).sel == old(self).sel
                &&& (r.0 != 0 || !edit_plan(*e_cmd, false, true, old(self).e_cmd).record_history)
                    ==> final(self).history.undo_vec@ == old(self).history.undo_vec@
                    && final(self).history.redo_vec@ == old(self).history.redo_vec@
                &&& r.0 == 0 && edit_plan(*e_cmd, false, true, old(self).e_cmd).record_history ==> {
                    let h0 = old(self).history.undo_vec@;
                    let h1 = final(self).history.undo_vec@;
                    let ep = h1.last();
                    &&& h1.len() == h0.len() + 1
                    &&& h1.take(h0.len() as int) == h0
                    &&& final(self).history.redo_vec@.len() == 0
                    &&& ep.sel_proc is Some <==> deletes_sel(old(self).sel, *e_cmd)
                    &&& ep.sel_proc is Some ==> {
                        let sp = ep.sel_proc.unwrap();
                        &&& sp.str@ == s0.subrange(cur_idx(s0, sel_start(old(self).sel)), cur_idx(s0, sel_end(old(self).sel)))
                        &&& sp.cur_s == (Cur { y: old(self).sel.sy, x: old(self).sel.sx, disp_x: old(self).sel.s_disp_x })
                        &&& sp.cur_e == old(self).cur
                        &&& sp.sel == old(self).sel
                        &&& (if *e_cmd is DelNextChar { sp.e_cmd is DelNextChar } else { sp.e_cmd is DelPrevChar })
                    }
                    &&& ep.proc is Some <==> (r.3 is Some && !(*e_cmd is Cut))
                    &&& ep.proc is Some ==> {
                        let p = ep.proc.unwrap();
                        &&& p.cur_s == r.4
                        &&& p.cur_e == final(self).cur
                        &&& p.str@ == r.3.unwrap()
                        &&& (*e_cmd is DelBox ==> p.box_sel_vec@.len() == (match *e_cmd { E_Cmd::DelBox(v) => v@.len(), _ => 0 }))
                        &&& (!(*e_cmd is DelBox || *e_cmd is InsertBox) ==> p.box_sel_vec@.len() == 0)
                        &&& (match *e_cmd {
                            E_Cmd::InsertStr(t) => p.e_cmd is InsertStr && p.e_cmd->InsertStr_0@ == t@,
                            E_Cmd::DelBox(_) => p.e_cmd is DelBox,
                            E_Cmd::InsertBox(_) => p.e_cmd is InsertBox,
                            E_Cmd::ReplaceExec(_, _, _) => p.e_cmd is ReplaceExec,
                            _ => p.e_cmd == *e_cmd,
                        })
                    }
                }
            }),
            final(self).h_file == old(self).h_file,
            final(self).e_cmd == old(self).e_cmd,
    {
        let ghost s0 = rope_text(self.buf.text);
        let plan = plan_edit(e_cmd, false, true, &self.e_cmd);
        let is_edit = matches!(e_cmd, E_Cmd::InsertStr(_) | E_Cmd::InsertRow | E_Cmd::Cut | E_Cmd::DelPrevChar | E_Cmd::DelNextChar | E_Cmd::InsertBox(_) | E_Cmd::DelBox(_));
        let is_cut = matches!(e_cmd, E_Cmd::Cut);
        let is_del = matches!(e_cmd, E_Cmd::DelNextChar | E_Cmd::DelPrevChar);
        let sw = sel_width(&self.sel) && is_edit;
        let cur0 = self.cur;
        let sel0 = self.sel;
        let mut sel_proc: Option<Proc> = None;
        proof {
            lemma_breaks_before_le(s0, s0.len() as int);
            lemma_in_range_shorter(*cfg, s0, s0, 0, (2 * clipboard@.len() + 2) as nat);
        }
        if sw {
            let (st, en) = sel_ends(&self.sel);
            let n0 = self.buf.len_chars();
            let la = self.buf.line_to_char(st.y);
            let lb = self.buf.line_to_char(en.y);
            let a = la + st.x;
            let b = lb + en.x;
            let removed = self.text_between(a, b);
            let c1 = self.cur_measured(cfg, st);
            self.buf.remove(a, b);
            self.cur = c1;
            let del_cmd = if matches!(e_cmd, E_Cmd::DelNextChar) { E_Cmd::DelNextChar } else { E_Cmd::DelPrevChar };
            sel_proc = Some(Proc {
                e_cmd: del_cmd,
                p_cmd: P_Cmd::Null,
                cur_s: Cur { y: sel0.sy, x: sel0.sx, disp_x: sel0.s_disp_x },
                cur_e: cur0,
                str: removed,
                box_sel_vec: Vec::new(),
                box_sel_redo_vec: Vec::new(),
                sel: sel0,
            });
            if !is_cut {
                self.sel = sel_clear(&sel0);
            }
        }
        let ghost s1 = rope_text(self.buf.text);
        proof {
            lemma_in_range_shorter(*cfg, s1, s0, (2 * clipboard@.len() + 2) as nat, (2 * clipboard@.len() + 2) as nat);
            lemma_breaks_before_le(s1, s1.len() as int);
        }
        let c1 = self.cur;
        let mut rec_s = c1;
        let mut bv_ins: Vec<(SelRange, String)> = Vec::new();
        let op: Option<(E_Cmd, String)> = if sw && is_del {
            None
        } else {
            match e_cmd {
                E_Cmd::DelNextChar => {
                    let n = self.buf.len_chars();
                    let ls = self.buf.line_to_char(self.cur.y);
                    if ls + self.cur.x < n {
                        let r = self.delete();
                        Some((E_Cmd::DelNextChar, r))
                    } else {
                        return ActType::Cancel;
                    }
                },
                E_Cmd::DelPrevChar => {
                    if self.cur.x > 0 || self.cur.y > 0 {
                        let r = self.backspace(cfg);
                        Some((E_Cmd::DelPrevChar, r))
                    } else {
                        return ActType::Cancel;
                    }
                },
                E_Cmd::InsertRow => {
                    proof {
                        lemma_in_range_shorter(*cfg, s1, s1, 2, (2 * clipboard@.len() + 2) as nat);
                        let m = s1.len() + 2;
                        assert(m <= m * max_char_width(*cfg)) by (nonlinear_arith)
                            requires
                                max_char_width(*cfg) >= 1,
                        ;
                    }
                    self.insert_row();
                    Some((E_Cmd::InsertRow, NL::get_nl(&self.h_file.nl)))
                },
                E_Cmd::InsertStr(t) => {
                    let tv = str_to_chars(t.as_str());
                    let ins = if tv.len() == 0 {
                        let mut c = string_of(clipboard);
                        change_nl(&mut c, self.h_file.nl.as_str());
                        proof {
                            lemma_pasted_len(clipboard@, self.h_file.nl@);
                        }
                        c
                    } else {
                        insert_text_of(cfg, t.as_str())
                    };
                    proof {
                        if t@.len() == 0 {
                            lemma_in_range_shorter(*cfg, s1, s0, ins@.len(), (2 * clipboard@.len() + 2) as nat);
                        } else {
                            assert(cmd_fits(*cfg, s0, *e_cmd, clipboard@));
                            assert(edit_in_range(*cfg, s0, inserted_text(*cfg, t@).len()));
                            lemma_in_range_shorter(*cfg, s1, s0, ins@.len(), ins@.len());
                        }
                    }
                    self.ins_str(cfg, ins.as_str());
                    Some((E_Cmd::InsertStr(string_of(t.as_str())), ins))
                },
                E_Cmd::Cut => {
                    if sel0.sy != USIZE_UNDEFINED && sel0.ey != USIZE_UNDEFINED {
                        self.sel = sel_clear(&sel0);
                        None
                    } else {
                        return ActType::Render(RParts::MsgBar(lang.no_sel_range.clone()));
                    }
                },
                E_Cmd::DelBox(v) => {
                    self.del_box_rows(v);
                    Some((E_Cmd::DelBox(v.clone()), String::new()))
                },
                E_Cmd::InsertBox(v) => {
                    let still_sel = !sw && self.sel.sy != USIZE_UNDEFINED && self.sel.ey != USIZE_UNDEFINED;
                    if still_sel {
                        Some((E_Cmd::InsertBox(v.clone()), String::new()))
                    } else if v.len() == 0 {
                        proof {
                            lemma_in_range_shorter(*cfg, s1, s0, 0, (2 * clipboard@.len() + 2) as nat);
                        }
                        proof {
                            reveal_strlit("");
                        }
                        self.ins_str(cfg, "");
                        Some((E_Cmd::InsertBox(v.clone()), String::new()))
                    } else {
                        proof {
                            lemma_in_range_shorter(*cfg, s1, s0, box_extra(v@, 0, c1.disp_x as nat) + 2, box_extra(v@, 0, c1.disp_x as nat) + 2);
                        }
                        let ranges = self.insert_box_rows(cfg, v);
                        bv_ins = ranges;
                        Some((E_Cmd::InsertBox(v.clone()), String::new()))
                    }
                },
                E_Cmd::ReplaceExec(sr, rp, set) => {
                    proof {
                        lemma_in_range_shorter(*cfg, s1, s1, 2, (2 * clipboard@.len() + 2) as nat);
                    }
                    let cs = self.replace_at(cfg, sr.as_str(), rp.as_str(), set);
                    rec_s = cs;
                    Some((E_Cmd::ReplaceExec(string_of(sr.as_str()), string_of(rp.as_str()), set.clone()), String::new()))
                },
                _ => {
                    return ActType::Cancel;
                },
            }
        };
        if plan.record_history {
            let proc = match op {
                Some((cmd, text)) => {
                    let bv = match e_cmd {
                        E_Cmd::DelBox(v) => v.clone(),
                        E_Cmd::InsertBox(_) => bv_ins,
                        _ => Vec::new(),
                    };
                    Some(Proc {
                        e_cmd: cmd,
                        p_cmd: P_Cmd::Null,
                        cur_s: rec_s,
                        cur_e: self.cur,
                        str: text,
                        box_sel_vec: bv,
                        box_sel_redo_vec: Vec::new(),
                        sel: SelRange {
                            mode: SelMode::Normal,
                            sy: c1.y,
                            sx: c1.x,
                            s_disp_x: c1.disp_x,
                            ey: self.cur.y,
                            ex: self.cur.x,
                            e_disp_x: self.cur.disp_x,
                        },
                    })
                },
                None => None,
            };
            self.history.record(EvtProc { sel_proc, proc });
        }
        ActType::Next
    }
}


/// The selection of row `y` whole, in mode `mode`: from the row's start to the end of its
/// characters, its line break (the first character of one) included, with their display width.
pub open spec fn row_sel(cfg: Cfg, s: Seq<char>, y: nat, mode: SelMode) -> SelRange {
    let (n, w) = row_cur_x_disp_x(cfg, row_chars(s, y), 0, true);
    SelRange { mode, sy: y as usize, ey: y as usize, sx: 0, ex: n as usize, s_disp_x: 0, e_disp_x: w as usize }
}

impl Editor {
    /// Select row `y` whole (see `row_sel`) and put the cursor at its start; the text, the
    /// selection mode and the history stay as they are.
    pub fn select_row(&mut self, cfg: &Cfg, y: usize)
        requires
            y < line_count(rope_text(old(self).buf.text)),
            edit_in_range(*cfg, rope_text(old(self).buf.text), 0),
        ensures
            final(self).sel == row_sel(*cfg, rope_text(old(self).buf.text), y as nat, old(self).sel.mode),
            final(self).cur == (Cur { y, x: 0, disp_x: 0 }),
            final(self).buf == old(self).buf,
            final(self).h_file == old(self).h_file,
            final(self).e_cmd == old(self).e_cmd,
            final(self).history == old(self).history,
            old(self).sel.mode == SelMode::Normal ==> sel_in_text(rope_text(old(self).buf.text), final(self).sel),
    {
        let ghost t0 = rope_text(self.buf.text);
        let n = self.buf.len_chars();
        let lc = self.buf.len_rows();
        let ls = self.buf.line_to_char(y);
        let le = if y + 1 < lc { self.buf.line_to_char(y + 1) } else { n };
        proof {
            if y + 1 < lc && ls > le {
                lemma_breaks_before_mono(t0, le as int, ls as int);
            }
        }
        let line = self.chars_between(ls, le);
        proof {
            lemma_first_nl_from_bounds(line@, 0);
            lemma_len_times_width(line@.len(), t0.len(), max_char_width(*cfg));
        }
        let (cur_x, width) = get_row_cur_x_disp_x(cfg, line.as_slice(), 0, true);
        self.sel = SelRange { mode: self.sel.mode, sy: y, ey: y, sx: 0, ex: cur_x, s_disp_x: 0, e_disp_x: width };
        self.cur = Cur { y, x: 0, disp_x: 0 };
        proof {
            assert(line_start(t0, y as nat) + cur_x <= t0.len());
        }
    }
}


/// The characters of row `y`, its line break included.
pub open spec fn row_chars(s: Seq<char>, y: nat) -> Seq<char> {
    s.subrange(line_start(s, y), row_end(s, y))
}

/// Does a box selection point past the end of row `y` at screen column `x` of the text area,
/// the row shown from its `offset_x`-th character on? (An empty row is never passed.)
pub open spec fn box_past_end(s: Seq<char>, y: nat, x: nat, offset_x: nat, mode: SelMode) -> bool {
    mode == SelMode::BoxSelect && row_chars(s, y).len() >= 1 && offset_x + x > row_chars(s, y).len() - 1
}

/// Where the mouse puts the cursor on row `y` at screen column `x` of the text area: in a box
/// selection past the end of the row, at that column as it is; else at the first character
/// that does not fit left of display column `offset_disp_x + x`, at the width of those before it.
pub open spec fn mouse_cur(cfg: Cfg, s: Seq<char>, y: nat, x: nat, offset_x: nat, offset_disp_x: nat, mode: SelMode) -> Cur {
    if box_past_end(s, y, x, offset_x, mode) {
        Cur { y: y as usize, x: x as usize, disp_x: x as usize }
    } else {
        let line = row_chars(s, y);
        let k = fit_len(cfg, line, offset_disp_x + x, layout_end(line, false));
        Cur { y: y as usize, x: k as usize, disp_x: prefix_width(cfg, line, k, 0) as usize }
    }
}

impl Editor {
    /// Put the cursor where the mouse points on row `y` at screen column `x` of the text area
    /// (see `mouse_cur`); where it lands on the text and `clear` asks for it (a press), the
    /// selection is cleared. The text and the history stay as they are.
    pub fn mouse_move_cur(&mut self, cfg: &Cfg, y: usize, x: usize, offset_x: usize, offset_disp_x: usize, clear: bool)
        requires
            y < line_count(rope_text(old(self).buf.text)),
            edit_in_range(*cfg, rope_text(old(self).buf.text), 0),
            offset_x + x <= usize::MAX,
            offset_disp_x + x <= usize::MAX,
        ensures
            final(self).cur == mouse_cur(*cfg, rope_text(old(self).buf.text), y as nat, x as nat, offset_x as nat, offset_disp_x as nat, old(self).sel.mode),
            final(self).sel == if clear && !box_past_end(rope_text(old(self).buf.text), y as nat, x as nat, offset_x as nat, old(self).sel.mode) {
                sel_cleared(old(self).sel)
            } else {
                old(self).sel
            },
            !box_past_end(rope_text(old(self).buf.text), y as nat, x as nat, offset_x as nat, old(self).sel.mode)
                ==> cur_in_text(rope_text(old(self).buf.text), final(self).cur),
            final(self).buf == old(self).buf,
            final(self).h_file == old(self).h_file,
            final(self).e_cmd == old(self).e_cmd,
            final(self).history == old(self).history,
    {
        let ghost t0 = rope_text(self.buf.text);
        let n = self.buf.len_chars();
        let lc = self.buf.len_rows();
        let ls = self.buf.line_to_char(y);
        let le = if y + 1 < lc { self.buf.line_to_char(y + 1) } else { n };
        proof {
            if y + 1 < lc && ls > le {
                lemma_breaks_before_mono(t0, le as int, ls as int);
            }
        }
        let line = self.chars_between(ls, le);
        proof {
            lemma_first_nl_from_bounds(line@, 0);
            lemma_len_times_width(line@.len(), t0.len(), max_char_width(*cfg));
        }
        if self.sel.mode == SelMode::BoxSelect && line.len() >= 1 && offset_x + x > line.len() - 1 {
            self.cur = Cur { y, x, disp_x: x };
        } else {
            let (k, w) = get_until_disp_x(cfg, line.as_slice(), offset_disp_x + x, false);
            proof {
                lemma_fit_len_from_ge(*cfg, line@, (offset_disp_x + x) as nat, first_nl(line@), 0);
            }
            self.cur = Cur { y, x: k, disp_x: w };
            if clear {
                self.sel = sel_clear(&self.sel);
            }
        }
    }
}

impl Editor {
    /// Carry out where a mouse step puts the cursor (see `ctrl_mouse`): nothing for `Stay`, the
    /// row selected whole for `SelectRow` (`select_row`), the cursor moved for `MoveCur`
    /// (`mouse_move_cur`), the text area shown from the `offset_x`-th character, at display
    /// column `offset_disp_x`.
    pub fn mouse_apply(&mut self, cfg: &Cfg, t: &MouseTarget, offset_x: usize, offset_disp_x: usize)
        requires
            edit_in_range(*cfg, rope_text(old(self).buf.text), 0),
            *t matches MouseTarget::SelectRow(y) ==> y < line_count(rope_text(old(self).buf.text)),
            *t matches MouseTarget::MoveCur(y, x, _) ==> y < line_count(rope_text(old(self).buf.text))
                && offset_x + x <= usize::MAX && offset_disp_x + x <= usize::MAX,
        ensures
            final(self).buf == old(self).buf,
            final(self).history == old(self).history,
            final(self).h_file == old(self).h_file,
            final(self).e_cmd == old(self).e_cmd,
            ({
                let s = rope_text(old(self).buf.text);
                match *t {
                    MouseTarget::Stay => final(self).cur == old(self).cur && final(self).sel == old(self).sel,
                    MouseTarget::SelectRow(y) => final(self).sel == row_sel(*cfg, s, y as nat, old(self).sel.mode)
                        && final(self).cur == (Cur { y, x: 0, disp_x: 0 }),
                    MouseTarget::MoveCur(y, x, clear) => {
                        let past = box_past_end(s, y as nat, x as nat, offset_x as nat, old(self).sel.mode);
                        &&& final(self).cur == mouse_cur(*cfg, s, y as nat, x as nat, offset_x as nat, offset_disp_x as nat, old(self).sel.mode)
                        &&& final(self).sel == if clear && !past { sel_cleared(old(self).sel) } else { old(self).sel }
                    },
                }
            }),
    {
        match t {
            MouseTarget::Stay => {},
            MouseTarget::SelectRow(y) => self.select_row(cfg, *y),
            MouseTarget::MoveCur(y, x, clear) => self.mouse_move_cur(cfg, *y, *x, offset_x, offset_disp_x, *clear),
        }
    }
}

} // verus!
