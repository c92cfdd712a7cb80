//! Editing the text of a tab at its cursor: inserting a string, breaking the row, deleting
//! the character under the cursor and the one before it.
use crate::buf::{rope_text, TextBuffer};
use crate::buf_edit::{breaks_before, is_break_end, is_line_start, lemma_breaks_before_mono, lemma_insert_then_remove, lemma_line_start_is, lemma_remove_then_insert, line_count, line_start};
use crate::cfg::Cfg;
use crate::def::{NEW_LINE_CRLF, NEW_LINE_CRLF_STR, NEW_LINE_LF};
use crate::header::HeaderFile;
use crate::history::{EvtProc, History, Proc};
use crate::keycmd::E_Cmd;
use crate::lang::Lang;
use crate::model::{ActType, Cur, SelRange, NL};
use crate::text::{str_to_chars, string_of};
use crate::util::{get_row_cur_x_disp_x, get_tab_str, max_char_width, row_cur_x_disp_x, tab_ok};
use crate::edit_cmd::{after_sel_del, cur_at, is_edit_cmd, sel_clear, sel_cleared, sel_end, sel_ends, sel_forward, sel_in_text, sel_is_selected_width, sel_start};
use vstd::prelude::*;

verus! {

/// What editing reads and changes of a tab: its text, its cursor, its selection, its file's header (whose
/// line break is the one inserted), the command being handled (`Null` where the edit comes
/// from elsewhere than the editor's keys) and the edit history.
pub struct Editor {
    pub buf: TextBuffer,
    pub cur: Cur,
    pub sel: SelRange,
    pub h_file: HeaderFile,
    pub e_cmd: E_Cmd,
    pub history: History<EvtProc>,
}

/// The characters of the line break of a file whose line break is named `nl`: CR LF for
/// "CRLF", LF otherwise.
pub open spec fn file_nl(nl: Seq<char>) -> Seq<char> {
    if nl == NEW_LINE_CRLF_STR@ {
        NEW_LINE_CRLF@
    } else {
        seq![NEW_LINE_LF]
    }
}

/// Does the line break `n` end at index `i` of `s`?
pub open spec fn nl_ends_at(s: Seq<char>, n: Seq<char>, i: int) -> bool {
    1 <= n.len() <= i + 1 <= s.len() && s.subrange(i + 1 - n.len(), i + 1) == n
}

/// Number of line breaks `n` of `s` that end before index `k`. Neither LF nor CR LF overlaps
/// itself, so over all of `s` this is one less than the number of pieces `s` splits into.
pub open spec fn nl_count(s: Seq<char>, n: Seq<char>, k: int) -> nat
    decreases k,
{
    if k <= 0 {
        0
    } else {
        nl_count(s, n, k - 1) + if nl_ends_at(s, n, k - 1) { 1nat } else { 0nat }
    }
}

/// Where the piece of `s.take(k)` after its last line break `n` starts (0 where it has none).
pub open spec fn piece_start(s: Seq<char>, n: Seq<char>, k: int) -> int
    decreases k,
{
    if k <= 0 {
        0
    } else if nl_ends_at(s, n, k - 1) {
        k
    } else {
        piece_start(s, n, k - 1)
    }
}

/// The characters of the cursor's row before the cursor.
pub open spec fn row_before_cur(s: Seq<char>, cur: Cur) -> Seq<char> {
    s.subrange(line_start(s, cur.y as nat), line_start(s, cur.y as nat) + cur.x)
}

/// The index of the cursor in the text.
pub open spec fn cur_idx(s: Seq<char>, cur: Cur) -> int {
    line_start(s, cur.y as nat) + cur.x
}

/// Is the cursor on a row of the text, no further right than the text goes?
pub open spec fn cur_in_text(s: Seq<char>, cur: Cur) -> bool {
    &&& cur.y < line_count(s)
    &&& cur_idx(s, cur) <= s.len()
}

/// The text and its widths stay well inside `usize` after `extra` more characters.
pub open spec fn edit_in_range(cfg: Cfg, s: Seq<char>, extra: nat) -> bool {
    &&& tab_ok(cfg)
    &&& (s.len() + extra) * max_char_width(cfg) + 1 <= usize::MAX
}

/// Where the cursor stands after `t` went in before it on a text whose line break is `n`:
/// as many rows down as `t` holds line breaks, after the last piece of `t` (after the row
/// before the cursor and all of `t` where `t` holds none), at the display column of the
/// characters before it on that row.
pub open spec fn cur_after_insert(cfg: Cfg, s: Seq<char>, cur: Cur, t: Seq<char>, n: Seq<char>) -> Cur {
    let c = nl_count(t, n, t.len() as int);
    let ps = piece_start(t, n, t.len() as int);
    let row = if c == 0 { row_before_cur(s, cur) + t } else { t.skip(ps) };
    Cur {
        y: (cur.y + c) as usize,
        x: (if c == 0 { cur.x + t.len() } else { t.len() - ps }) as usize,
        disp_x: row_cur_x_disp_x(cfg, row, 0, false).1 as usize,
    }
}

/// Where a line break that ends at `i` of `s` starts: a CR LF pair takes two characters.
pub open spec fn break_start(s: Seq<char>, i: int) -> int {
    if i >= 1 && s[i - 1] == '\r' && s[i] == '\n' {
        i - 1
    } else {
        i
    }
}

/// The text deleted by the delete key at index `i`: the CR LF pair where one starts there,
/// else the one character.
pub open spec fn del_end(s: Seq<char>, i: int) -> int {
    if s[i] == '\r' && i + 1 < s.len() && s[i + 1] == '\n' {
        i + 2
    } else {
        i + 1
    }
}

/// The characters the backspace key deletes: the one before the cursor, or at the start of
/// a row the line break that ends the row above (a CR LF pair as one).
pub open spec fn backspace_range(s: Seq<char>, cur: Cur) -> (int, int) {
    let ls = line_start(s, cur.y as nat);
    if cur.x > 0 {
        (ls + cur.x - 1, ls + cur.x)
    } else {
        (break_start(s, ls - 1), ls)
    }
}

/// Where the cursor stands after the backspace key: where the deleted text started, on the
/// row above where that was a line break, at the display column of what comes before it on
/// its row.
pub open spec fn cur_after_backspace(cfg: Cfg, s: Seq<char>, cur: Cur) -> Cur {
    let b = backspace_range(s, cur).0;
    let y = if cur.x > 0 { cur.y as nat } else { (cur.y - 1) as nat };
    let rs = line_start(s, y);
    Cur { y: y as usize, x: (b - rs) as usize, disp_x: row_cur_x_disp_x(cfg, s.subrange(rs, b), 0, false).1 as usize }
}

/// The number of breaks never exceeds the characters counted.
pub proof fn lemma_breaks_before_le(s: Seq<char>, k: int)
    requires
        0 <= k,
    ensures
        breaks_before(s, k) <= k,
    decreases k,
{
    if k > 0 {
        lemma_breaks_before_le(s, k - 1);
    }
}

/// The line before line `y` starts no later than the line break that ends it.
proof fn lemma_prev_line_start(s: Seq<char>, y: nat, ls: int, pls: int)
    requires
        y >= 1,
        is_line_start(s, y, ls),
        is_line_start(s, (y - 1) as nat, pls),
    ensures
        0 <= pls <= break_start(s, ls - 1),
{
    let b = break_start(s, ls - 1);
    assert(breaks_before(s, ls - 1) == y - 1);
    if b == ls - 2 {
        assert(!is_break_end(s, ls - 2));
        assert(breaks_before(s, ls - 2) == y - 1);
    }
    assert(breaks_before(s, b) == y - 1);
    if y - 1 > 0 && pls > b {
        lemma_breaks_before_mono(s, b, pls - 1);
        assert(breaks_before(s, pls) == breaks_before(s, pls - 1) + 1);
    }
}

/// Multiplying by the widest character keeps the order of lengths.
pub(crate) proof fn lemma_len_times_width(a: nat, b: nat, w: nat)
    requires
        a <= b,
    ensures
        a * w <= b * w,
{
    assert(a * w <= b * w) by (nonlinear_arith)
        requires
            a <= b,
    ;
}

/// Does the line break `n` end at index `i` of `t`?
fn nl_ends_at_idx(t: &[char], n: &[char], i: usize) -> (r: bool)
    ensures
        r == nl_ends_at(t@, n@, i as int),
{
    let nl = n.len();
    if nl == 0 || i >= t.len() || i + 1 < nl {
        return false;
    }
    let base = i + 1 - nl;
    let mut j: usize = 0;
    while j < nl
        invariant
            nl == n@.len(),
            1 <= nl <= i + 1 <= t@.len(),
            base == i + 1 - nl,
            j <= nl,
            forall|k: int| 0 <= k < j ==> t@[base + k] == n@[k],
        decreases nl - j,
    {
        if t[base + j] != n[j] {
            assert(t@.subrange(base as int, i + 1)[j as int] != n@[j as int]);
            return false;
        }
        j = j + 1;
    }
    assert(t@.subrange(base as int, i + 1) =~= n@);
    true
}

/// The number of line breaks `n` in `t` and where the piece after the last one starts.
fn nl_split(t: &[char], n: &[char]) -> (r: (usize, usize))
    ensures
        r.0 == nl_count(t@, n@, t@.len() as int),
        r.1 == piece_start(t@, n@, t@.len() as int),
        r.1 <= t@.len(),
        r.0 <= t@.len(),
{
    let mut c: usize = 0;
    let mut ps: usize = 0;
    let mut i: usize = 0;
    while i < t.len()
        invariant
            i <= t@.len(),
            c == nl_count(t@, n@, i as int),
            ps == piece_start(t@, n@, i as int),
            c <= i,
            ps <= i,
        decreases t@.len() - i,
    {
        if nl_ends_at_idx(t, n, i) {
            c = c + 1;
            ps = i + 1;
        }
        i = i + 1;
    }
    (c, ps)
}

impl Editor {
    /// The characters of the text from index `s` up to `e`.
    pub(crate) fn chars_between(&self, s: usize, e: usize) -> (v: Vec<char>)
        requires
            s <= e <= rope_text(self.buf.text).len(),
        ensures
            v@ == rope_text(self.buf.text).subrange(s as int, e as int),
    {
        let mut v: Vec<char> = Vec::new();
        let mut k = s;
        while k < e
            invariant
                s <= k <= e <= rope_text(self.buf.text).len(),
                v@ == rope_text(self.buf.text).subrange(s as int, k as int),
            decreases e - k,
        {
            let c = self.buf.char_idx(k);
            v.push(c);
            proof {
                assert(rope_text(self.buf.text).subrange(s as int, k + 1) =~= rope_text(self.buf.text).subrange(s as int, k as int).push(c));
            }
            k = k + 1;
        }
        v
    }

    /// The display column of the end of `row`.
    pub(crate) fn row_width(cfg: &Cfg, row: &[char], bound: Ghost<nat>) -> (w: usize)
        requires
            tab_ok(*cfg),
            row@.len() <= bound@,
            bound@ * max_char_width(*cfg) + 1 <= usize::MAX,
        ensures
            w == row_cur_x_disp_x(*cfg, row@, 0, false).1,
    {
        proof {
            lemma_len_times_width(row@.len(), bound@, max_char_width(*cfg));
        }
        get_row_cur_x_disp_x(cfg, row, 0, false).1
    }

    /// Insert `s` at the cursor; the cursor goes after it (see `cur_after_insert`), with the
    /// line breaks of `s` taken to be the file's.
    pub fn ins_str(&mut self, cfg: &Cfg, s: &str)
        requires
            cur_in_text(rope_text(old(self).buf.text), old(self).cur),
            edit_in_range(*cfg, rope_text(old(self).buf.text), s@.len()),
        ensures
            rope_text(final(self).buf.text) == rope_text(old(self).buf.text).take(cur_idx(rope_text(old(self).buf.text), old(self).cur))
                + s@ + rope_text(old(self).buf.text).skip(cur_idx(rope_text(old(self).buf.text), old(self).cur)),
            final(self).cur == cur_after_insert(*cfg, rope_text(old(self).buf.text), old(self).cur, s@, file_nl(old(self).h_file.nl@)),
            final(self).h_file == old(self).h_file,
            final(self).e_cmd == old(self).e_cmd,
            final(self).sel == old(self).sel,
            final(self).history == old(self).history,
    {
        let ghost s0 = rope_text(self.buf.text);
        let n0 = self.buf.len_chars();
        let ls = self.buf.line_to_char(self.cur.y);
        let i = ls + self.cur.x;
        let pre = self.chars_between(ls, i);
        let t = str_to_chars(s);
        let nl = NL::get_nl(&self.h_file.nl);
        let nv = str_to_chars(&nl);
        let (c, ps) = nl_split(t.as_slice(), nv.as_slice());
        proof {
            lemma_breaks_before_le(s0, s0.len() as int);
            assert(nv@ == file_nl(self.h_file.nl@));
            lemma_len_times_width(1, max_char_width(*cfg), s0.len() + t@.len());
            assert(s0.len() + t@.len() <= usize::MAX) by (nonlinear_arith)
                requires
                    1 * (s0.len() + t@.len()) <= max_char_width(*cfg) * (s0.len() + t@.len()),
                    (s0.len() + t@.len()) * max_char_width(*cfg) + 1 <= usize::MAX,
            ;
        }
        self.buf.insert(self.cur.y, self.cur.x, s);
        let tl = t.len();
        let (x, row) = if c == 0 {
            let mut row = pre;
            let mut j: usize = 0;
            while j < tl
                invariant
                    tl == t@.len(),
                    j <= tl,
                    row@ == s0.subrange(ls as int, i as int) + t@.take(j as int),
                decreases tl - j,
            {
                row.push(t[j]);
                proof {
                    assert(t@.take(j + 1) =~= t@.take(j as int).push(t@[j as int]));
                }
                j = j + 1;
            }
            proof {
                assert(t@.take(tl as int) =~= t@);
            }
            (self.cur.x + tl, row)
        } else {
            let mut row: Vec<char> = Vec::new();
            let mut j: usize = ps;
            while j < tl
                invariant
                    tl == t@.len(),
                    ps <= j <= tl,
                    row@ == t@.subrange(ps as int, j as int),
                decreases tl - j,
            {
                row.push(t[j]);
                proof {
                    assert(t@.subrange(ps as int, j + 1) =~= t@.subrange(ps as int, j as int).push(t@[j as int]));
                }
                j = j + 1;
            }
            proof {
                assert(t@.subrange(ps as int, tl as int) =~= t@.skip(ps as int));
            }
            (tl - ps, row)
        };
        let w = Self::row_width(cfg, row.as_slice(), Ghost((s0.len() + t@.len()) as nat));
        self.cur = Cur { y: self.cur.y + c, x, disp_x: w };
    }

    /// Break the row at the cursor with the file's line break; the cursor goes to the start
    /// of the new row.
    pub fn insert_row(&mut self)
        requires
            cur_in_text(rope_text(old(self).buf.text), old(self).cur),
            rope_text(old(self).buf.text).len() + 2 <= usize::MAX,
        ensures
            rope_text(final(self).buf.text) == rope_text(old(self).buf.text).take(cur_idx(rope_text(old(self).buf.text), old(self).cur))
                + file_nl(old(self).h_file.nl@) + rope_text(old(self).buf.text).skip(cur_idx(rope_text(old(self).buf.text), old(self).cur)),
            final(self).cur == (Cur { y: (old(self).cur.y + 1) as usize, x: 0, disp_x: 0 }),
            final(self).h_file == old(self).h_file,
            final(self).e_cmd == old(self).e_cmd,
            final(self).sel == old(self).sel,
            final(self).history == old(self).history,
    {
        let ghost s0 = rope_text(self.buf.text);
        proof {
            lemma_breaks_before_le(s0, s0.len() as int);
        }
        let nl = NL::get_nl(&self.h_file.nl);
        self.buf.insert(self.cur.y, self.cur.x, nl.as_str());
        self.cur = Cur { y: self.cur.y + 1, x: 0, disp_x: 0 };
    }

    /// Delete the character under the cursor (a CR LF pair as one); the cursor stays. Gives
    /// back the text deleted.
    pub fn delete(&mut self) -> (removed: String)
        requires
            cur_in_text(rope_text(old(self).buf.text), old(self).cur),
            cur_idx(rope_text(old(self).buf.text), old(self).cur) < rope_text(old(self).buf.text).len(),
        ensures
            ({
                let s0 = rope_text(old(self).buf.text);
                let i = cur_idx(s0, old(self).cur);
                &&& removed@ == s0.subrange(i, del_end(s0, i))
                &&& rope_text(final(self).buf.text) == s0.take(i) + s0.skip(del_end(s0, i))
            }),
            final(self).cur == old(self).cur,
            final(self).h_file == old(self).h_file,
            final(self).e_cmd == old(self).e_cmd,
            final(self).sel == old(self).sel,
            final(self).history == old(self).history,
    {
        let n0 = self.buf.len_chars();
        let ls = self.buf.line_to_char(self.cur.y);
        let i = ls + self.cur.x;
        let c = self.buf.char_idx(i);
        let e = if c == '\r' && i + 1 < n0 && self.buf.char_idx(i + 1) == '\n' { i + 2 } else { i + 1 };
        let v = self.chars_between(i, e);
        let mut removed = String::new();
        let mut j: usize = 0;
        while j < v.len()
            invariant
                j <= v@.len(),
                removed@ == v@.take(j as int),
            decreases v@.len() - j,
        {
            removed.push(v[j]);
            proof {
                assert(v@.take(j + 1) =~= v@.take(j as int).push(v@[j as int]));
            }
            j = j + 1;
        }
        proof {
            assert(v@.take(v@.len() as int) =~= v@);
        }
        self.buf.remove(i, e);
        removed
    }

    /// Delete the character before the cursor and move the cursor back over it. At the start
    /// of a row, the line break that ends the row above goes (a CR LF pair as one) and the
    /// cursor goes to the end of that row. Gives back the text deleted.
    pub fn backspace(&mut self, cfg: &Cfg) -> (removed: String)
        requires
            cur_in_text(rope_text(old(self).buf.text), old(self).cur),
            old(self).cur.x > 0 || old(self).cur.y > 0,
            edit_in_range(*cfg, rope_text(old(self).buf.text), 0),
        ensures
            ({
                let s0 = rope_text(old(self).buf.text);
                let (b, e) = backspace_range(s0, old(self).cur);
                &&& removed@ == s0.subrange(b, e)
                &&& rope_text(final(self).buf.text) == s0.take(b) + s0.skip(e)
                &&& final(self).cur == cur_after_backspace(*cfg, s0, old(self).cur)
            }),
            final(self).h_file == old(self).h_file,
            final(self).e_cmd == old(self).e_cmd,
            final(self).sel == old(self).sel,
            final(self).history == old(self).history,
    {
        let ghost s0 = rope_text(self.buf.text);
        let n0 = self.buf.len_chars();
        let ls = self.buf.line_to_char(self.cur.y);
        let i = ls + self.cur.x;
        let (s, e, ny, rs) = if self.cur.x > 0 {
            (i - 1, i, self.cur.y, ls)
        } else {
            proof {
                assert(is_line_start(s0, self.cur.y as nat, ls as int));
            }
            let last = self.buf.char_idx(ls - 1);
            let b = if ls >= 2 && last == '\n' && self.buf.char_idx(ls - 2) == '\r' { ls - 2 } else { ls - 1 };
            let pls = self.buf.line_to_char(self.cur.y - 1);
            proof {
                assert(is_line_start(s0, (self.cur.y - 1) as nat, pls as int));
                lemma_prev_line_start(s0, self.cur.y as nat, ls as int, pls as int);
                assert(b == break_start(s0, ls - 1));
            }
            (b, ls, self.cur.y - 1, pls)
        };
        let row = self.chars_between(rs, s);
        let v = self.chars_between(s, e);
        let mut removed = String::new();
        let mut j: usize = 0;
        while j < v.len()
            invariant
                j <= v@.len(),
                removed@ == v@.take(j as int),
            decreases v@.len() - j,
        {
            removed.push(v[j]);
            proof {
                assert(v@.take(j + 1) =~= v@.take(j as int).push(v@[j as int]));
            }
            j = j + 1;
        }
        proof {
            assert(v@.take(v@.len() as int) =~= v@);
        }
        let w = Self::row_width(cfg, row.as_slice(), Ghost(s0.len()));
        self.buf.remove(s, e);
        self.cur = Cur { y: ny, x: s - rs, disp_x: w };
        removed
    }
}

} // verus!

verus! {

/// The text `InsertStr` puts in for `s`: the configured tab text for a tab, else `s`.
pub open spec fn inserted_text(cfg: Cfg, s: Seq<char>) -> Seq<char> {
    if s == seq!['\t'] {
        cfg.general.editor.tab.tab@
    } else {
        s
    }
}

/// Can `edit_proc` carry out `e_cmd` on this text and cursor? An insertion of a string not
/// empty (an empty one pastes the clipboard, which the caller reads and passes on), a row
/// break, a deletion under the cursor where a character is under it, a deletion before the
/// cursor except at the very start, and any command that is no edit. Cut, box edits and
/// replacement work on a selection and are not carried out here.
pub open spec fn edit_proc_ok(cfg: Cfg, s: Seq<char>, cur: Cur, e_cmd: E_Cmd) -> bool {
    &&& cur_in_text(s, cur)
    &&& match e_cmd {
        E_Cmd::InsertStr(t) => t@.len() > 0 && edit_in_range(cfg, s, inserted_text(cfg, t@).len()),
        E_Cmd::InsertRow => edit_in_range(cfg, s, 2),
        E_Cmd::DelNextChar => cur_idx(s, cur) < s.len() && edit_in_range(cfg, s, 0),
        E_Cmd::DelPrevChar => (cur.x > 0 || cur.y > 0) && edit_in_range(cfg, s, 0),
        E_Cmd::Cut | E_Cmd::InsertBox(_) | E_Cmd::DelBox(_) | E_Cmd::ReplaceExec(_, _, _) => false,
        _ => true,
    }
}

/// The text, the cursor and the text inserted or deleted after `e_cmd` (see `edit_proc`) on
/// text `s` with the cursor at `cur`, in a file whose line break is named `nl`.
pub open spec fn edit_result(cfg: Cfg, s: Seq<char>, cur: Cur, e_cmd: E_Cmd, nl: Seq<char>) -> (Seq<char>, Cur, Seq<char>) {
    let i = cur_idx(s, cur);
    match e_cmd {
        E_Cmd::InsertStr(t) => {
            let ins = inserted_text(cfg, t@);
            (s.take(i) + ins + s.skip(i), cur_after_insert(cfg, s, cur, ins, file_nl(nl)), ins)
        },
        E_Cmd::InsertRow => (
            s.take(i) + file_nl(nl) + s.skip(i),
            Cur { y: (cur.y + 1) as usize, x: 0, disp_x: 0 },
            file_nl(nl),
        ),
        E_Cmd::DelNextChar => (s.take(i) + s.skip(del_end(s, i)), cur, s.subrange(i, del_end(s, i))),
        E_Cmd::DelPrevChar => {
            let (b, e) = backspace_range(s, cur);
            (s.take(b) + s.skip(e), cur_after_backspace(cfg, s, cur), s.subrange(b, e))
        },
        _ => (s, cur, Seq::empty()),
    }
}

/// The text `InsertStr` puts in for `t` (see `inserted_text`).
pub(crate) fn insert_text_of(cfg: &Cfg, t: &str) -> (r: String)
    ensures
        r@ == inserted_text(*cfg, t@),
{
    let tv = str_to_chars(t);
    let is_tab = tv.len() == 1 && tv[0] == '\t';
    proof {
        if is_tab {
            assert(t@ =~= seq!['\t']);
        }
    }
    if is_tab { get_tab_str(cfg) } else { string_of(t) }
}

} // verus!

verus! {

/// Is `c` a character that ends a line (alone or, for CR, before LF)?
pub open spec fn is_break_char(c: char) -> bool {
    c == '\n' || c == '\u{000B}' || c == '\u{000C}' || c == '\u{0085}' || c == '\u{2028}' || c == '\u{2029}' || c == '\r'
}

/// Where the break ends of two texts agree below `k`, they count as many breaks before it.
proof fn lemma_breaks_before_agree(a: Seq<char>, b: Seq<char>, k: int)
    requires
        forall|j: int| 0 <= j < k ==> is_break_end(a, j) == is_break_end(b, j),
    ensures
        breaks_before(a, k) == breaks_before(b, k),
    decreases k,
{
    if k > 0 {
        lemma_breaks_before_agree(a, b, k - 1);
    }
}

/// Every line below the count of breaks counted up to `m` starts somewhere up to `m`.
pub(crate) proof fn lemma_line_start_exists(s: Seq<char>, y: nat, m: int)
    requires
        1 <= y <= breaks_before(s, m),
        m <= s.len(),
    ensures
        exists|k: int| is_line_start(s, y, k),
    decreases m,
{
    if m > 0 && breaks_before(s, m - 1) >= y {
        lemma_line_start_exists(s, y, m - 1);
    } else if m > 0 {
        assert(is_line_start(s, y, m));
    }
}

/// Typing a character that is no line break and deleting it again with the backspace key
/// gives the text back, with the cursor on the same row and column, at the display column of
/// the characters before it on its row.
pub proof fn lemma_insert_char_then_backspace(cfg: Cfg, s0: Seq<char>, cur: Cur, c: char, nl: Seq<char>)
    requires
        cur_in_text(s0, cur),
        edit_in_range(cfg, s0, 1),
        !is_break_char(c),
    ensures
        ({
            let i = cur_idx(s0, cur);
            let s1 = s0.take(i) + seq![c] + s0.skip(i);
            let cur1 = cur_after_insert(cfg, s0, cur, seq![c], file_nl(nl));
            &&& cur_in_text(s1, cur1)
            &&& backspace_range(s1, cur1) == (i, i + 1)
            &&& s1.take(i) + s1.skip(i + 1) == s0
            &&& cur_after_backspace(cfg, s1, cur1) == (Cur {
                y: cur.y,
                x: cur.x,
                disp_x: row_cur_x_disp_x(cfg, row_before_cur(s0, cur), 0, false).1 as usize,
            })
        }),
{
    reveal_strlit("\r\n");
    let i = cur_idx(s0, cur);
    let ls = line_start(s0, cur.y as nat);
    let t = seq![c];
    let n = file_nl(nl);
    let s1 = s0.take(i) + t + s0.skip(i);
    if cur.y == 0 {
        assert(is_line_start(s0, 0, 0));
    } else {
        lemma_line_start_exists(s0, cur.y as nat, s0.len() as int);
    }
    assert(is_line_start(s0, cur.y as nat, ls));
    assert((t + s0.skip(i))[0] == c);
    lemma_line_start_kept(s0, cur.y as nat, ls, i, i, t);
    lemma_line_start_is(s1, cur.y as nat, ls);
    assert(NEW_LINE_CRLF@.len() == 2);
    if nl_ends_at(t, n, 0) {
        assert(n.len() == 1);
        assert(t.subrange(0, 1)[0] == n[0]);
        assert(n == seq![NEW_LINE_LF]);
    }
    assert(!nl_ends_at(t, n, 0));
    assert(nl_count(t, n, 1) == 0) by {
        reveal_with_fuel(nl_count, 2);
    }
    assert(piece_start(t, n, 1) == 0) by {
        reveal_with_fuel(piece_start, 2);
    }
    lemma_breaks_before_le(s0, s0.len() as int);
    assert(s0.len() + 1 <= (s0.len() + 1) * max_char_width(cfg)) by (nonlinear_arith)
        requires
            max_char_width(cfg) >= 1,
    ;
    if cur.y > 0 {
        lemma_breaks_before_mono(s1, ls, s1.len() as int);
    }
    assert(s1.subrange(ls, i) =~= s0.subrange(ls, i));
    assert(s1.take(i) + s1.skip(i + 1) =~= s0);
}

} // verus!

verus! {

/// Can the recorded edit be undone and redone? Its own edit, where it has one, is an insertion of a
/// string or a row or a deletion, not on box rows; the selected range deleted before it, where
/// there was one, was deleted by a deletion key.
pub open spec fn undo_kinds_ok(ep: EvtProc) -> bool {
    &&& ep.proc is Some ==> {
        let p = ep.proc.unwrap();
        &&& p.e_cmd is InsertStr || p.e_cmd is InsertRow || p.e_cmd is DelNextChar || p.e_cmd is DelPrevChar
        &&& p.box_sel_vec@.len() == 0
    }
    &&& ep.sel_proc is Some ==> (ep.sel_proc.unwrap().e_cmd is DelNextChar || ep.sel_proc.unwrap().e_cmd is DelPrevChar)
}

/// Where the text of a deleted selected range goes in again: at whichever of the two
/// recorded cursors has the smaller column.
pub open spec fn sel_undo_at(sp: Proc) -> Cur {
    if sp.cur_s.x > sp.cur_e.x { sp.cur_e } else { sp.cur_s }
}

/// Where the cursor ends after a deleted selected range is put back: for the delete key at
/// whichever recorded cursor has the larger column, for backspace at the cursor it was deleted from.
pub open spec fn sel_undo_cur(sp: Proc) -> Cur {
    if sp.e_cmd is DelNextChar && sp.cur_s.x > sp.cur_e.x { sp.cur_s } else { sp.cur_e }
}

/// The text after the recorded edit's own part is reverted (see `undo_result`).
pub open spec fn undo_proc_text(s: Seq<char>, ep: EvtProc) -> Seq<char> {
    match ep.proc {
        Some(p) => undo_result(s, p).0,
        None => s,
    }
}

/// Does the text agree with the record, so that its own edit (see `undo_fits`) and then the
/// deleted selected range can be put back, the latter's place being on the text by then?
pub open spec fn undo_evt_fits(s: Seq<char>, ep: EvtProc) -> bool {
    &&& ep.proc is Some ==> undo_fits(s, ep.proc.unwrap())
    &&& ep.sel_proc is Some ==> {
        let sp = ep.sel_proc.unwrap();
        let s1 = undo_proc_text(s, ep);
        &&& cur_in_text(s1, sel_undo_at(sp))
        &&& s1.len() + sp.str@.len() + 2 <= usize::MAX
    }
}

/// The text and cursor after reverting the record `ep` with the cursor at `cur`: first its own
/// edit (see `undo_result`), then the deleted selected range is put back at `sel_undo_at`, the
/// cursor going to `sel_undo_cur`.
pub open spec fn undo_evt_result(s: Seq<char>, cur: Cur, ep: EvtProc) -> (Seq<char>, Cur) {
    let c1 = match ep.proc {
        Some(p) => undo_result(s, p).1,
        None => cur,
    };
    let s1 = undo_proc_text(s, ep);
    match ep.sel_proc {
        Some(sp) => {
            let i = cur_idx(s1, sel_undo_at(sp));
            (s1.take(i) + sp.str@ + s1.skip(i), sel_undo_cur(sp))
        },
        None => (s1, c1),
    }
}

/// Does the text agree with the record of the last edit, so that it can be reverted? The
/// cursors the revert goes by are on the text: for an inserted string both, the string lying
/// between them; for an inserted row break the one it was made at, with the break under it;
/// for a deletion under the cursor the cursor it was made at, and for one before the cursor
/// the cursor it left.
pub open spec fn undo_fits(s: Seq<char>, p: Proc) -> bool {
    &&& s.len() + p.str@.len() + 2 <= usize::MAX
    &&& match p.e_cmd {
        E_Cmd::InsertStr(_) => cur_in_text(s, p.cur_s) && cur_in_text(s, p.cur_e) && cur_idx(s, p.cur_s) <= cur_idx(s, p.cur_e),
        E_Cmd::InsertRow => cur_in_text(s, p.cur_s) && cur_idx(s, p.cur_s) < s.len(),
        E_Cmd::DelNextChar => cur_in_text(s, p.cur_s),
        _ => cur_in_text(s, p.cur_e),
    }
}

/// The text and cursor after reverting the recorded edit `p`: an inserted string (the
/// selection from where it started to where it ended) is deleted and an inserted row break
/// deleted under the cursor, the cursor going back to where the edit started; deleted text is
/// inserted again where the cursor was after the deletion, and the cursor goes back to where
/// it was before it.
pub open spec fn undo_result(s: Seq<char>, p: Proc) -> (Seq<char>, Cur) {
    let i = cur_idx(s, p.cur_s);
    let e = cur_idx(s, p.cur_e);
    match p.e_cmd {
        E_Cmd::InsertStr(_) => (s.take(i) + s.skip(e), p.cur_s),
        E_Cmd::InsertRow => (s.take(i) + s.skip(del_end(s, i)), p.cur_s),
        E_Cmd::DelNextChar => (s.take(i) + p.str@ + s.skip(i), p.cur_s),
        _ => (s.take(e) + p.str@ + s.skip(e), p.cur_s),
    }
}

impl Editor {
    /// Revert the last edit (see `undo_evt_result`) and move it to the edits that can be redone;
    /// with nothing to undo, the message that says so, and nothing changes.
    pub fn undo(&mut self, lang: &Lang) -> (a: ActType)
        requires
            old(self).history.undo_vec@.len() > 0 ==> undo_kinds_ok(old(self).history.undo_vec@.last())
                && undo_evt_fits(rope_text(old(self).buf.text), old(self).history.undo_vec@.last()),
        ensures
            old(self).history.undo_vec@.len() == 0 ==> (a matches ActType::Render(crate::model::RParts::MsgBar(m))
                && m@ == lang.no_undo_operation@) && rope_text(final(self).buf.text) == rope_text(old(self).buf.text)
                && final(self).cur == old(self).cur && final(self).history.undo_vec@ == old(self).history.undo_vec@
                && final(self).history.redo_vec@ == old(self).history.redo_vec@,
            old(self).history.undo_vec@.len() > 0 ==> ({
                let r = undo_evt_result(rope_text(old(self).buf.text), old(self).cur, old(self).history.undo_vec@.last());
                &&& a == ActType::Next
                &&& rope_text(final(self).buf.text) == r.0
                &&& final(self).cur == r.1
                &&& final(self).history.undo_vec@ == old(self).history.undo_vec@.drop_last()
                &&& final(self).history.redo_vec@ == old(self).history.redo_vec@.push(old(self).history.undo_vec@.last())
            }),
            final(self).h_file == old(self).h_file,
            final(self).e_cmd == old(self).e_cmd,
            final(self).sel == old(self).sel,
    {
        let n = self.history.undo_vec.len();
        if n == 0 {
            return self.history.undo(lang);
        }
        let ghost s0 = rope_text(self.buf.text);
        let has_proc = self.history.undo_vec[n - 1].proc.is_some();
        if has_proc {
            let (kind, cur_s, cur_e) = match &self.history.undo_vec[n - 1].proc {
                Some(p) => {
                    let k: u8 = match p.e_cmd {
                        E_Cmd::InsertStr(_) => 0,
                        E_Cmd::InsertRow => 1,
                        E_Cmd::DelNextChar => 2,
                        _ => 3,
                    };
                    (k, p.cur_s, p.cur_e)
                },
                None => (0, self.cur, self.cur),
            };
            if kind == 0 {
                let ls = self.buf.line_to_char(cur_s.y);
                let i = ls + cur_s.x;
                let le = self.buf.line_to_char(cur_e.y);
                let e = le + cur_e.x;
                self.buf.remove(i, e);
            } else if kind == 1 {
                let ls = self.buf.line_to_char(cur_s.y);
                let i = ls + cur_s.x;
                let c = self.buf.char_idx(i);
                let n0 = self.buf.len_chars();
                let j = if c == '\r' && i + 1 < n0 && self.buf.char_idx(i + 1) == '\n' { i + 2 } else { i + 1 };
                self.buf.remove(i, j);
            } else {
                let at = if kind == 2 {
                    let ls = self.buf.line_to_char(cur_s.y);
                    ls + cur_s.x
                } else {
                    let le = self.buf.line_to_char(cur_e.y);
                    le + cur_e.x
                };
                match &self.history.undo_vec[n - 1].proc {
                    Some(p) => {
                        self.buf.text_insert_at(at, p.str.as_str());
                    },
                    None => {},
                }
            }
            self.cur = cur_s;
        }
        match &self.history.undo_vec[n - 1].sel_proc {
            Some(sp) => {
                let at = if sp.cur_s.x > sp.cur_e.x { sp.cur_e } else { sp.cur_s };
                let ls = self.buf.line_to_char(at.y);
                self.buf.text_insert_at(ls + at.x, sp.str.as_str());
                self.cur = if matches!(sp.e_cmd, E_Cmd::DelNextChar) && sp.cur_s.x > sp.cur_e.x { sp.cur_s } else { sp.cur_e };
            },
            None => {},
        }
        self.history.undo(lang)
    }
}

} // verus!

verus! {

/// Replacing the text from `i` to `j` (at or after the start `ls` of row `y`) with `m` leaves
/// the row starting where it did, unless the row begins right after a lone CR, at `i`, and
/// the replacement puts LF there (the two would then make one line break).
proof fn lemma_line_start_kept(s0: Seq<char>, y: nat, ls: int, i: int, j: int, m: Seq<char>)
    requires
        is_line_start(s0, y, ls),
        ls <= i <= j <= s0.len(),
        i > ls || y == 0 || s0[ls - 1] != '\r' || (m + s0.skip(j)).len() == 0 || (m + s0.skip(j))[0] != '\n',
    ensures
        is_line_start(s0.take(i) + m + s0.skip(j), y, ls),
{
    let s1 = s0.take(i) + m + s0.skip(j);
    assert forall|k: int| 0 <= k < i implies #[trigger] s1[k] == s0[k] by {}
    if y > 0 {
        assert forall|k: int| 0 <= k < ls implies is_break_end(s1, k) == is_break_end(s0, k) by {
            if k + 1 < i {
                assert(s1[k + 1] == s0[k + 1]);
            } else if k + 1 == ls && i == ls && s0[k] == '\r' {
                if ls < s1.len() {
                    assert(s1[ls] == (m + s0.skip(j))[0]);
                }
            }
        }
        lemma_breaks_before_agree(s1, s0, ls);
    }
}

/// With no line break ending from `a` up to `b`, as many breaks end before `b` as before `a`.
proof fn lemma_breaks_before_flat(s: Seq<char>, a: int, b: int)
    requires
        0 <= a <= b,
        forall|k: int| a <= k < b ==> !#[trigger] is_break_end(s, k),
    ensures
        breaks_before(s, b) == breaks_before(s, a),
    decreases b - a,
{
    if a < b {
        lemma_breaks_before_flat(s, a, b - 1);
    }
}

/// A text with no LF holds no line break of a file.
proof fn lemma_nl_count_zero(t: Seq<char>, n: Seq<char>, k: int)
    requires
        n.len() >= 1,
        n.last() == '\n',
        forall|q: int| 0 <= q < t.len() ==> t[q] != '\n',
        k <= t.len(),
    ensures
        nl_count(t, n, k) == 0,
    decreases k,
{
    if k > 0 {
        lemma_nl_count_zero(t, n, k - 1);
        if nl_ends_at(t, n, k - 1) {
            assert(t.subrange(k - n.len(), k)[n.len() - 1] == n.last());
        }
    }
}

/// An undo right after a selected range was deleted (by a cut, or before an edit whose own
/// part is already undone) puts the range back where it was and the cursor where it was: for
/// a forward range whose start column is not right of the cursor's, the cursor on the text,
/// unless the range starts a row that follows a lone CR and LF comes after it (the CR and the
/// LF would make one line break).
pub proof fn lemma_undo_reverts_sel_del(cfg: Cfg, s0: Seq<char>, cur: Cur, sel: SelRange, e_cmd: E_Cmd, sp: Proc)
    requires
        sel_in_text(s0, sel),
        sel_is_selected_width(sel),
        sel_forward(sel),
        is_edit_cmd(e_cmd),
        sel.sx <= cur.x,
        s0.len() + 2 <= usize::MAX,
        sel.sx > 0 || sel.sy == 0 || s0[line_start(s0, sel.sy as nat) - 1] != '\r'
            || cur_idx(s0, sel_end(sel)) == s0.len() || s0[cur_idx(s0, sel_end(sel))] != '\n',
        sp.str@ == s0.subrange(cur_idx(s0, sel_start(sel)), cur_idx(s0, sel_end(sel))),
        sp.cur_s == (Cur { y: sel.sy, x: sel.sx, disp_x: sel.s_disp_x }),
        sp.cur_e == cur,
        sp.e_cmd is DelNextChar || sp.e_cmd is DelPrevChar,
    ensures
        ({
            let d = after_sel_del(cfg, s0, cur, sel, e_cmd);
            let ep = EvtProc { sel_proc: Some(sp), proc: None };
            &&& undo_evt_fits(d.0, ep)
            &&& undo_evt_result(d.0, d.1, ep) == (s0, cur)
        }),
{
    let y = sel.sy as nat;
    let ls = line_start(s0, y);
    let a = cur_idx(s0, sel_start(sel));
    let b = cur_idx(s0, sel_end(sel));
    if y == 0 {
        assert(is_line_start(s0, 0, 0));
    } else {
        lemma_line_start_exists(s0, y, s0.len() as int);
    }
    assert(is_line_start(s0, y, ls));
    let s1 = s0.take(a) + s0.skip(b);
    assert(s0.skip(b).len() == 0 || s0.skip(b)[0] == s0[b]);
    lemma_line_start_kept(s0, y, ls, a, b, Seq::empty());
    assert(s0.take(a) + Seq::<char>::empty() + s0.skip(b) =~= s1);
    lemma_line_start_is(s1, y, ls);
    if y > 0 {
        lemma_breaks_before_mono(s1, ls, s1.len() as int);
    }
    assert(s1.take(a) + sp.str@ + s1.skip(a) =~= s0);
}

/// A redo of a deleted selected range, on the text the deletion was made on (as the undo of
/// `lemma_undo_reverts_sel_del` leaves it), deletes the same range again and leaves the cursor
/// where the deletion did.
pub proof fn lemma_redo_reapplies_sel_del(cfg: Cfg, s0: Seq<char>, cur: Cur, sel: SelRange, e_cmd: E_Cmd, sp: Proc, nl: Seq<char>)
    requires
        sel_in_text(s0, sel),
        sel_is_selected_width(sel),
        is_edit_cmd(e_cmd),
        edit_in_range(cfg, s0, 0),
        sp.sel == sel,
    ensures
        ({
            let ep = EvtProc { sel_proc: Some(sp), proc: None };
            &&& redo_evt_fits(cfg, s0, ep)
            &&& redo_evt_result(cfg, s0, cur, ep, nl) == after_sel_del(cfg, s0, cur, sel, e_cmd)
        }),
{
}

/// Does the row the backspace key leaves the cursor on keep its start? It does unless that
/// row begins right after a lone CR, the deletion starts at the row's start, and LF follows
/// the deleted text (the CR and the LF would then make one line break).
pub open spec fn backspace_keeps_row(s: Seq<char>, cur: Cur) -> bool {
    let (b, e) = backspace_range(s, cur);
    let y = if cur.x > 0 { cur.y as nat } else { (cur.y - 1) as nat };
    let rs = line_start(s, y);
    b > rs || y == 0 || s[rs - 1] != '\r' || e == s.len() || s[e] != '\n'
}

/// Undoing the backspace key (see `lemma_undo_reverts_edit`).
proof fn lemma_undo_reverts_backspace(cfg: Cfg, s0: Seq<char>, cur: Cur, nl: Seq<char>, p: Proc)
    requires
        edit_proc_ok(cfg, s0, cur, E_Cmd::DelPrevChar),
        backspace_keeps_row(s0, cur),
        p.e_cmd is DelPrevChar,
        p.cur_s == cur,
        p.cur_e == edit_result(cfg, s0, cur, E_Cmd::DelPrevChar, nl).1,
        p.str@ == edit_result(cfg, s0, cur, E_Cmd::DelPrevChar, nl).2,
    ensures
        undo_fits(edit_result(cfg, s0, cur, E_Cmd::DelPrevChar, nl).0, p),
        undo_result(edit_result(cfg, s0, cur, E_Cmd::DelPrevChar, nl).0, p) == (s0, cur),
{
    let i = cur_idx(s0, cur);
    let ls = line_start(s0, cur.y as nat);
    let s1 = edit_result(cfg, s0, cur, E_Cmd::DelPrevChar, nl).0;
    if cur.y == 0 {
        assert(is_line_start(s0, 0, 0));
    } else {
        lemma_line_start_exists(s0, cur.y as nat, s0.len() as int);
    }
    assert(is_line_start(s0, cur.y as nat, ls));
        let (bb, ee) = backspace_range(s0, cur);
        let y1: nat = if cur.x > 0 { cur.y as nat } else { (cur.y - 1) as nat };
        let rs = line_start(s0, y1);
        if cur.x == 0 {
            if y1 == 0 {
                assert(is_line_start(s0, 0, 0));
            } else {
                lemma_line_start_exists(s0, y1, ls - 1);
            }
            assert(is_line_start(s0, y1, rs));
            lemma_prev_line_start(s0, cur.y as nat, ls, rs);
        }
        assert(is_line_start(s0, y1, rs));
        assert(rs <= bb <= ee <= s0.len());
        assert(s0.skip(ee).len() == 0 || s0.skip(ee)[0] == s0[ee]);
        lemma_line_start_kept(s0, y1, rs, bb, ee, Seq::empty());
        assert(s0.take(bb) + Seq::<char>::empty() + s0.skip(ee) =~= s1);
        lemma_line_start_is(s1, y1, rs);
        if y1 > 0 {
            lemma_breaks_before_mono(s1, rs, s1.len() as int);
        }
        lemma_remove_then_insert(s0, bb, ee);
        assert(s0.len() + 2 <= usize::MAX) by (nonlinear_arith)
            requires
                s0.len() * max_char_width(cfg) + 1 <= usize::MAX,
                max_char_width(cfg) >= 3,
        ;
}

/// Undoing an edit that `edit_proc` made and recorded gives the text and the cursor back:
/// - a string with no line break typed at the cursor;
/// - a row break, where the cursor is on its row's text (no line break before it on the row),
///   unless a CR stands right before the cursor and the break would join it (LF after the
///   lone CR that ends the row above, or CR LF after a CR within the row);
/// - a deletion under the cursor, unless it made a row that begins after a lone CR start
///   with LF;
/// - a deletion before the cursor, on the same condition (see `backspace_keeps_row`).
pub proof fn lemma_undo_reverts_edit(cfg: Cfg, s0: Seq<char>, cur: Cur, e_cmd: E_Cmd, nl: Seq<char>, p: Proc)
    requires
        edit_proc_ok(cfg, s0, cur, e_cmd),
        e_cmd is InsertStr || e_cmd is InsertRow || e_cmd is DelNextChar || e_cmd is DelPrevChar,
        e_cmd is InsertStr ==> forall|q: int| 0 <= q < inserted_text(cfg, e_cmd->InsertStr_0@).len()
            ==> !is_break_char(#[trigger] inserted_text(cfg, e_cmd->InsertStr_0@)[q]),
        e_cmd is InsertRow ==> (forall|k: int| line_start(s0, cur.y as nat) <= k < cur_idx(s0, cur) ==> !#[trigger] is_break_end(s0, k))
            && (cur_idx(s0, cur) == 0 || s0[cur_idx(s0, cur) - 1] != '\r'
            || (if nl == NEW_LINE_CRLF_STR@ { cur.x == 0 } else { cur.x > 0 })),
        e_cmd is DelNextChar ==> cur.x > 0 || cur.y == 0 || s0[cur_idx(s0, cur) - 1] != '\r'
            || del_end(s0, cur_idx(s0, cur)) == s0.len() || s0[del_end(s0, cur_idx(s0, cur))] != '\n',
        p.e_cmd is InsertStr <==> e_cmd is InsertStr,
        p.e_cmd is InsertRow <==> e_cmd is InsertRow,
        p.e_cmd is DelNextChar <==> e_cmd is DelNextChar,
        p.e_cmd is DelPrevChar <==> e_cmd is DelPrevChar,
        e_cmd is DelPrevChar ==> backspace_keeps_row(s0, cur),
        p.cur_s == cur,
        p.cur_e == edit_result(cfg, s0, cur, e_cmd, nl).1,
        p.str@ == edit_result(cfg, s0, cur, e_cmd, nl).2,
    ensures
        undo_fits(edit_result(cfg, s0, cur, e_cmd, nl).0, p),
        undo_result(edit_result(cfg, s0, cur, e_cmd, nl).0, p) == (s0, cur),
{
    reveal_strlit("\r\n");
    reveal_strlit("CRLF");
    let i = cur_idx(s0, cur);
    let ls = line_start(s0, cur.y as nat);
    let n = file_nl(nl);
    let r = edit_result(cfg, s0, cur, e_cmd, nl);
    let s1 = r.0;
    if cur.y == 0 {
        assert(is_line_start(s0, 0, 0));
    } else {
        lemma_line_start_exists(s0, cur.y as nat, s0.len() as int);
    }
    assert(is_line_start(s0, cur.y as nat, ls));
    lemma_breaks_before_le(s0, s0.len() as int);
    assert(NEW_LINE_CRLF@.len() == 2);
    assert(max_char_width(cfg) >= 3);
    match e_cmd {
        E_Cmd::InsertStr(t) => {
            let ins = inserted_text(cfg, t@);
            assert((s0.len() + ins.len()) * 1 <= (s0.len() + ins.len()) * max_char_width(cfg)) by (nonlinear_arith)
                requires
                    max_char_width(cfg) >= 1,
            ;
            assert(s0.len() + 2 * ins.len() + 2 <= usize::MAX) by (nonlinear_arith)
                requires
                    (s0.len() + ins.len()) * max_char_width(cfg) + 1 <= usize::MAX,
                    max_char_width(cfg) >= 3,
            ;
            assert(n.last() == '\n');
            lemma_nl_count_zero(ins, n, ins.len() as int);
            lemma_line_start_kept(s0, cur.y as nat, ls, i, i, ins);
            lemma_line_start_is(s1, cur.y as nat, ls);
            if cur.y > 0 {
                lemma_breaks_before_mono(s1, ls, s1.len() as int);
            }
            lemma_insert_then_remove(s0, i, ins);
        },
        E_Cmd::InsertRow => {
            assert(n.last() == '\n');
            assert(n.len() == 1 || n.len() == 2);
            assert(n.len() == 2 ==> n[0] == '\r');
            assert((s0.len() + 2) * 3 <= (s0.len() + 2) * max_char_width(cfg)) by (nonlinear_arith)
                requires
                    max_char_width(cfg) >= 3,
            ;
            assert((n + s0.skip(i))[0] == n[0]);
            lemma_line_start_kept(s0, cur.y as nat, ls, i, i, n);
            lemma_line_start_is(s1, cur.y as nat, ls);
            assert forall|k: int| 0 <= k < i implies is_break_end(s1, k) == is_break_end(s0, k) by {
                assert(s1[k] == s0[k]);
                if k + 1 < i {
                    assert(s1[k + 1] == s0[k + 1]);
                } else {
                    assert(s1[i] == n[0]);
                }
            }
            lemma_breaks_before_agree(s1, s0, i);
            if cur.y > 0 {
                lemma_breaks_before_flat(s0, ls, i);
            } else {
                lemma_breaks_before_flat(s0, 0, i);
            }
            assert(breaks_before(s1, i) == cur.y);
            let e = i + n.len();
            assert(s1[e - 1] == '\n');
            if n.len() == 2 {
                assert(s1[i] == '\r' && s1[i + 1] == '\n');
                assert(!is_break_end(s1, i));
                assert(breaks_before(s1, i + 1) == cur.y);
            }
            assert(breaks_before(s1, e) == cur.y + 1);
            assert(is_line_start(s1, (cur.y + 1) as nat, e));
            lemma_line_start_is(s1, (cur.y + 1) as nat, e);
            lemma_breaks_before_mono(s1, e, s1.len() as int);
            assert(s1.len() + 2 * n.len() + 2 <= usize::MAX);
            assert(del_end(s1, i) == e);
            lemma_insert_then_remove(s0, i, n);
        },
        E_Cmd::DelPrevChar => {
            lemma_undo_reverts_backspace(cfg, s0, cur, nl, p);
        },
        _ => {
            let j = del_end(s0, i);
            lemma_line_start_kept(s0, cur.y as nat, ls, i, j, Seq::empty());
            assert(s0.take(i) + Seq::<char>::empty() + s0.skip(j) =~= s1);
            lemma_line_start_is(s1, cur.y as nat, ls);
            if cur.y > 0 {
                lemma_breaks_before_mono(s1, ls, s1.len() as int);
            }
            lemma_remove_then_insert(s0, i, j);
            assert(s0.len() + 2 <= usize::MAX) by (nonlinear_arith)
                requires
                    s0.len() * max_char_width(cfg) + 1 <= usize::MAX,
                    max_char_width(cfg) >= 3,
                    s0.len() >= 1,
            ;
        },
    }
}

} // verus!

verus! {

/// The text and cursor after the selected range recorded as deleted before the edit (where
/// one was) is deleted again: the cursor goes to where the range starts.
pub open spec fn redo_sel(cfg: Cfg, s: Seq<char>, cur: Cur, ep: EvtProc) -> (Seq<char>, Cur) {
    match ep.sel_proc {
        Some(sp) => (
            s.take(cur_idx(s, sel_start(sp.sel))) + s.skip(cur_idx(s, sel_end(sp.sel))),
            cur_at(cfg, s, sel_start(sp.sel)),
        ),
        None => (s, cur),
    }
}

/// Does the text agree with the record, so that it can be redone? The recorded selected
/// range lies on the text, and the edit's own command can run again from the cursor it
/// started at on the text left after the range is deleted (see `edit_proc_ok`).
pub open spec fn redo_evt_fits(cfg: Cfg, s: Seq<char>, ep: EvtProc) -> bool {
    &&& ep.sel_proc is Some ==> {
        let sel = ep.sel_proc.unwrap().sel;
        &&& cur_in_text(s, sel_start(sel))
        &&& cur_in_text(s, sel_end(sel))
        &&& cur_idx(s, sel_start(sel)) <= cur_idx(s, sel_end(sel))
        &&& edit_in_range(cfg, s, 0)
    }
    &&& ep.proc is Some ==> edit_proc_ok(cfg, redo_sel(cfg, s, Cur { y: 0, x: 0, disp_x: 0 }, ep).0, ep.proc.unwrap().cur_s,
        redo_cmd(ep.proc.unwrap()))
}

/// The text and cursor after redoing the record `ep` with the cursor at `cur`: the recorded
/// selected range is deleted again (see `redo_sel`), then the edit's own command runs again
/// from the cursor it started at (see `redo_cmd`, `edit_result`).
pub open spec fn redo_evt_result(cfg: Cfg, s: Seq<char>, cur: Cur, ep: EvtProc, nl: Seq<char>) -> (Seq<char>, Cur) {
    let d = redo_sel(cfg, s, cur, ep);
    match ep.proc {
        Some(p) => {
            let r = edit_result(cfg, d.0, p.cur_s, redo_cmd(p), nl);
            (r.0, r.1)
        },
        None => d,
    }
}

/// The command a redo runs again for the recorded edit `p`: the insertion of the text it
/// inserted, or the same row break or deletion.
pub open spec fn redo_cmd(p: Proc) -> E_Cmd {
    match p.e_cmd {
        E_Cmd::InsertStr(_) => E_Cmd::InsertStr(p.str),
        E_Cmd::InsertRow => E_Cmd::InsertRow,
        E_Cmd::DelNextChar => E_Cmd::DelNextChar,
        _ => E_Cmd::DelPrevChar,
    }
}

impl Editor {
    /// Re-apply the last undone edit (see `redo_evt_result`): the selected range it deleted
    /// first is deleted again, clearing the selection, then from the cursor it started at its
    /// command runs again; it moves back to the edits that can be undone. With nothing to
    /// redo, the message that says so, and nothing changes.
    pub fn redo(&mut self, cfg: &Cfg, lang: &Lang) -> (a: ActType)
        requires
            old(self).history.redo_vec@.len() > 0 ==> undo_kinds_ok(old(self).history.redo_vec@.last())
                && redo_evt_fits(*cfg, rope_text(old(self).buf.text), old(self).history.redo_vec@.last()),
        ensures
            old(self).history.redo_vec@.len() == 0 ==> (a matches ActType::Render(crate::model::RParts::MsgBar(m))
                && m@ == lang.no_redo_operation@) && rope_text(final(self).buf.text) == rope_text(old(self).buf.text)
                && final(self).cur == old(self).cur && final(self).history.undo_vec@ == old(self).history.undo_vec@
                && final(self).history.redo_vec@ == old(self).history.redo_vec@,
            old(self).history.redo_vec@.len() > 0 ==> ({
                let r = redo_evt_result(*cfg, rope_text(old(self).buf.text), old(self).cur, old(self).history.redo_vec@.last(),
                    old(self).h_file.nl@);
                &&& a == ActType::Next
                &&& rope_text(final(self).buf.text) == r.0
                &&& final(self).cur == r.1
                &&& final(self).history.redo_vec@ == old(self).history.redo_vec@.drop_last()
                &&& final(self).history.undo_vec@ == old(self).history.undo_vec@.push(old(self).history.redo_vec@.last())
            }),
            final(self).h_file == old(self).h_file,
            final(self).e_cmd == old(self).e_cmd,
            final(self).sel == if old(self).history.redo_vec@.len() > 0 && old(self).history.redo_vec@.last().sel_proc is Some {
                sel_cleared(old(self).history.redo_vec@.last().sel_proc.unwrap().sel)
            } else {
                old(self).sel
            },
    {
        let n = self.history.redo_vec.len();
        if n == 0 {
            return self.history.redo(lang);
        }
        let ghost ep = self.history.redo_vec@.last();
        let sel_opt: Option<SelRange> = match &self.history.redo_vec[n - 1].sel_proc {
            Some(sp) => Some(sp.sel),
            None => None,
        };
        assert(sel_opt is Some <==> ep.sel_proc is Some);
        match sel_opt {
            Some(sel) => {
                assert(sel == ep.sel_proc.unwrap().sel);
                let (c1, c2) = sel_ends(&sel);
                let c = self.cur_measured(cfg, c1);
                let _len = self.buf.len_chars();
                let a = self.buf.line_to_char(c1.y) + c1.x;
                let b = self.buf.line_to_char(c2.y) + c2.x;
                self.buf.remove(a, b);
                self.cur = c;
                self.sel = sel_clear(&sel);
            },
            None => {},
        }
        let (kind, cur_s, text) = match &self.history.redo_vec[n - 1].proc {
            Some(p) => {
                let k: u8 = match p.e_cmd {
                    E_Cmd::InsertStr(_) => 0,
                    E_Cmd::InsertRow => 1,
                    E_Cmd::DelNextChar => 2,
                    _ => 3,
                };
                (k, p.cur_s, string_of(p.str.as_str()))
            },
            None => {
                return self.history.redo(lang);
            },
        };
        self.cur = cur_s;
        if kind == 0 {
            let ins = insert_text_of(cfg, text.as_str());
            self.ins_str(cfg, ins.as_str());
        } else if kind == 1 {
            proof {
                let len = rope_text(self.buf.text).len() + 2;
                assert(len <= len * max_char_width(*cfg)) by (nonlinear_arith)
                    requires
                        max_char_width(*cfg) >= 1,
                ;
            }
            self.insert_row();
        } else if kind == 2 {
            let _ = self.delete();
        } else {
            let _ = self.backspace(cfg);
        }
        self.history.redo(lang)
    }
}

/// A redo right after an undo re-applies the edit the undo reverted: the text and the cursor
/// are those the edit made (for the edits `lemma_undo_reverts_edit` covers).
pub proof fn lemma_redo_reapplies_edit(cfg: Cfg, s0: Seq<char>, cur: Cur, e_cmd: E_Cmd, nl: Seq<char>, p: Proc)
    requires
        edit_proc_ok(cfg, s0, cur, e_cmd),
        e_cmd is InsertStr || e_cmd is InsertRow || e_cmd is DelNextChar || e_cmd is DelPrevChar,
        e_cmd is InsertStr ==> forall|q: int| 0 <= q < inserted_text(cfg, e_cmd->InsertStr_0@).len()
            ==> !is_break_char(#[trigger] inserted_text(cfg, e_cmd->InsertStr_0@)[q]),
        e_cmd is InsertRow ==> (forall|k: int| line_start(s0, cur.y as nat) <= k < cur_idx(s0, cur) ==> !#[trigger] is_break_end(s0, k))
            && (cur_idx(s0, cur) == 0 || s0[cur_idx(s0, cur) - 1] != '\r'
            || (if nl == NEW_LINE_CRLF_STR@ { cur.x == 0 } else { cur.x > 0 })),
        e_cmd is DelNextChar ==> cur.x > 0 || cur.y == 0 || s0[cur_idx(s0, cur) - 1] != '\r'
            || del_end(s0, cur_idx(s0, cur)) == s0.len() || s0[del_end(s0, cur_idx(s0, cur))] != '\n',
        p.e_cmd is InsertStr <==> e_cmd is InsertStr,
        p.e_cmd is InsertRow <==> e_cmd is InsertRow,
        p.e_cmd is DelNextChar <==> e_cmd is DelNextChar,
        p.e_cmd is DelPrevChar <==> e_cmd is DelPrevChar,
        e_cmd is DelPrevChar ==> backspace_keeps_row(s0, cur),
        p.cur_s == cur,
        p.cur_e == edit_result(cfg, s0, cur, e_cmd, nl).1,
        p.str@ == edit_result(cfg, s0, cur, e_cmd, nl).2,
        e_cmd is InsertStr ==> p.str@.len() > 0,
    ensures
        ({
            let u = undo_result(edit_result(cfg, s0, cur, e_cmd, nl).0, p);
            &&& edit_proc_ok(cfg, u.0, p.cur_s, redo_cmd(p))
            &&& edit_result(cfg, u.0, p.cur_s, redo_cmd(p), nl) == edit_result(cfg, s0, cur, e_cmd, nl)
        }),
{
    lemma_undo_reverts_edit(cfg, s0, cur, e_cmd, nl, p);
    match e_cmd {
        E_Cmd::InsertStr(t) => {
            let ins = inserted_text(cfg, t@);
            if p.str@ == seq!['\t'] {
                assert(ins == seq!['\t']);
                if t@ != seq!['\t'] {
                    assert(ins == t@);
                }
            }
            assert(inserted_text(cfg, p.str@) == ins);
        },
        _ => {},
    }
}

} // verus!
