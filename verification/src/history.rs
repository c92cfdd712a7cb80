//! The undo and redo history of the editor: the edits done, last on top, and the edits undone,
//! last undone on top.
use crate::keycmd::{E_Cmd, P_Cmd};
use crate::lang::Lang;
use crate::model::{ActType, Cur, RParts, SelRange};
use vstd::prelude::*;

verus! {

/// The edits that can be undone and those that can be redone.
pub struct History<T> {
    pub undo_vec: Vec<T>,
    pub redo_vec: Vec<T>,
}

impl<T> History<T> {
    /// An empty history.
    pub fn new() -> (h: History<T>)
        ensures
            h.undo_vec@.len() == 0,
            h.redo_vec@.len() == 0,
    {
        History { undo_vec: Vec::new(), redo_vec: Vec::new() }
    }

    /// The number of edits that can be undone.
    pub fn len_undo(&self) -> (n: usize)
        ensures
            n == self.undo_vec@.len(),
    {
        self.undo_vec.len()
    }

    /// The number of edits that can be redone.
    pub fn len_redo(&self) -> (n: usize)
        ensures
            n == self.redo_vec@.len(),
    {
        self.redo_vec.len()
    }

    /// The edit an undo reverts: the last one done.
    pub fn get_undo_last(&self) -> (r: Option<&T>)
        ensures
            self.undo_vec@.len() == 0 ==> r is None,
            self.undo_vec@.len() > 0 ==> r == Some(&self.undo_vec@.last()),
    {
        let n = self.undo_vec.len();
        if n == 0 { None } else { Some(&self.undo_vec[n - 1]) }
    }

    /// The edit a redo re-applies: the last one undone.
    pub fn get_redo_last(&self) -> (r: Option<&T>)
        ensures
            self.redo_vec@.len() == 0 ==> r is None,
            self.redo_vec@.len() > 0 ==> r == Some(&self.redo_vec@.last()),
    {
        let n = self.redo_vec.len();
        if n == 0 { None } else { Some(&self.redo_vec[n - 1]) }
    }

    /// Records an edit: it can be undone next, and nothing can be redone any more.
    pub fn record(&mut self, ep: T)
        ensures
            final(self).undo_vec@ == old(self).undo_vec@.push(ep),
            final(self).redo_vec@.len() == 0,
    {
        self.redo_vec.clear();
        self.undo_vec.push(ep);
    }

    /// After the editor reverted the last edit: it moves from the undo side to the redo side.
    /// With nothing to undo, the message that says so, and nothing changes.
    pub fn undo(&mut self, lang: &Lang) -> (a: ActType)
        ensures
            old(self).undo_vec@.len() == 0 ==> (a matches ActType::Render(RParts::MsgBar(m)) && m@ == lang.no_undo_operation@)
                && final(self).undo_vec@ == old(self).undo_vec@ && final(self).redo_vec@ == old(self).redo_vec@,
            old(self).undo_vec@.len() > 0 ==> a == ActType::Next
                && final(self).undo_vec@ == old(self).undo_vec@.drop_last()
                && final(self).redo_vec@ == old(self).redo_vec@.push(old(self).undo_vec@.last()),
    {
        match self.undo_vec.pop() {
            Some(ep) => {
                self.redo_vec.push(ep);
                ActType::Next
            },
            None => ActType::Render(RParts::MsgBar(lang.no_undo_operation.clone())),
        }
    }

    /// After the editor re-applied the last undone edit: it moves from the redo side to the
    /// undo side. With nothing to redo, the message that says so, and nothing changes.
    pub fn redo(&mut self, lang: &Lang) -> (a: ActType)
        ensures
            old(self).redo_vec@.len() == 0 ==> (a matches ActType::Render(RParts::MsgBar(m)) && m@ == lang.no_redo_operation@)
                && final(self).undo_vec@ == old(self).undo_vec@ && final(self).redo_vec@ == old(self).redo_vec@,
            old(self).redo_vec@.len() > 0 ==> a == ActType::Next
                && final(self).redo_vec@ == old(self).redo_vec@.drop_last()
                && final(self).undo_vec@ == old(self).undo_vec@.push(old(self).redo_vec@.last()),
    {
        match self.redo_vec.pop() {
            Some(ep) => {
                self.undo_vec.push(ep);
                ActType::Next
            },
            None => ActType::Render(RParts::MsgBar(lang.no_redo_operation.clone())),
        }
    }
}

/// One edit as the history keeps it: the command, the cursor before and after it, the text it
/// removed or inserted, the box-selection pieces, and the selection.
#[derive(Debug, Clone, PartialEq, Eq)]
pub struct Proc {
    pub e_cmd: E_Cmd,
    pub p_cmd: P_Cmd,
    pub cur_s: Cur,
    pub cur_e: Cur,
    pub str: String,
    pub box_sel_vec: Vec<(SelRange, String)>,
    pub box_sel_redo_vec: Vec<(SelRange, String)>,
    pub sel: SelRange,
}

/// What one command did: the deletion of the selection, if any, and the edit, if any.
#[derive(Debug, Clone, PartialEq, Eq)]
pub struct EvtProc {
    pub sel_proc: Option<Proc>,
    pub proc: Option<Proc>,
}

/// The edit that reverts one: an inserted row or string is deleted (a string from the
/// selection it was pasted over, or as a box), deleted text is inserted again (as a string or
/// a box), and a replacement is replaced back.
#[derive(Debug, Clone, Copy, PartialEq, Eq, Structural)]
pub enum UndoEdit {
    DelNextChar,
    DelNextCharOfSel,
    DelBox,
    InsertStr,
    InsertBox,
    ReplaceBack,
}

/// Can an edit be undone? Rows and strings inserted, text deleted and replacements can.
pub open spec fn is_undoable(e: E_Cmd) -> bool {
    e is InsertRow || e is InsertStr || e is DelNextChar || e is DelPrevChar || e is ReplaceExec
}

/// The edit that reverts `p` (see `UndoEdit`).
pub open spec fn undo_edit(p: Proc) -> UndoEdit {
    match p.e_cmd {
        E_Cmd::InsertRow => UndoEdit::DelNextChar,
        E_Cmd::InsertStr(_) => if p.box_sel_vec@.len() == 0 { UndoEdit::DelNextCharOfSel } else { UndoEdit::DelBox },
        E_Cmd::DelNextChar | E_Cmd::DelPrevChar => if p.box_sel_vec@.len() == 0 { UndoEdit::InsertStr } else { UndoEdit::InsertBox },
        _ => UndoEdit::ReplaceBack,
    }
}

/// The edit that reverts `p`.
pub fn undo_exec_edit(p: &Proc) -> (u: UndoEdit)
    requires
        is_undoable(p.e_cmd),
    ensures
        u == undo_edit(*p),
{
    match &p.e_cmd {
        E_Cmd::InsertRow => UndoEdit::DelNextChar,
        E_Cmd::InsertStr(_) => if p.box_sel_vec.len() == 0 { UndoEdit::DelNextCharOfSel } else { UndoEdit::DelBox },
        E_Cmd::DelNextChar | E_Cmd::DelPrevChar => if p.box_sel_vec.len() == 0 { UndoEdit::InsertStr } else { UndoEdit::InsertBox },
        _ => UndoEdit::ReplaceBack,
    }
}

/// Where the cursor goes before an edit is reverted: to where an insertion, cut or
/// replacement started; for a deletion, to the start of the deleted text (the earlier end of a
/// deleted selection, where the deletion started forwards, where it ended backwards);
/// otherwise it stays at `cur`. `sel_selected` tells whether the edit had a selection.
pub open spec fn undo_init_cur(p: Proc, sel_selected: bool, cur: Cur) -> Cur {
    match p.e_cmd {
        E_Cmd::InsertStr(_) | E_Cmd::InsertRow | E_Cmd::Cut | E_Cmd::ReplaceExec(_, _, _) => p.cur_s,
        E_Cmd::DelNextChar | E_Cmd::DelPrevChar => if sel_selected {
            if p.cur_s.x > p.cur_e.x { p.cur_e } else { p.cur_s }
        } else if p.e_cmd is DelNextChar {
            p.cur_s
        } else {
            p.cur_e
        },
        _ => cur,
    }
}

/// Where the cursor goes after an edit is reverted: for a forward deletion, to where the
/// deletion started (the later end of a deleted selection); for a backward deletion, to where
/// it started (its end with a selection); for a replacement, to where it started; otherwise it
/// stays at `cur`.
pub open spec fn undo_finalize_cur(p: Proc, sel_selected: bool, cur: Cur) -> Cur {
    match p.e_cmd {
        E_Cmd::DelNextChar => if sel_selected {
            if p.cur_s.x > p.cur_e.x { p.cur_s } else { p.cur_e }
        } else {
            p.cur_s
        },
        E_Cmd::DelPrevChar => if sel_selected { p.cur_e } else { p.cur_s },
        E_Cmd::ReplaceExec(_, _, _) => p.cur_s,
        _ => cur,
    }
}

/// The cursor before an edit is reverted (see `undo_init_cur`).
pub fn undo_init(p: &Proc, sel_selected: bool, cur: Cur) -> (c: Cur)
    ensures
        c == undo_init_cur(*p, sel_selected, cur),
{
    match &p.e_cmd {
        E_Cmd::InsertStr(_) | E_Cmd::InsertRow | E_Cmd::Cut | E_Cmd::ReplaceExec(_, _, _) => p.cur_s,
        E_Cmd::DelNextChar | E_Cmd::DelPrevChar => if sel_selected {
            if p.cur_s.x > p.cur_e.x { p.cur_e } else { p.cur_s }
        } else if matches!(p.e_cmd, E_Cmd::DelNextChar) {
            p.cur_s
        } else {
            p.cur_e
        },
        _ => cur,
    }
}

/// The cursor after an edit is reverted (see `undo_finalize_cur`).
pub fn undo_finalize(p: &Proc, sel_selected: bool, cur: Cur) -> (c: Cur)
    ensures
        c == undo_finalize_cur(*p, sel_selected, cur),
{
    match &p.e_cmd {
        E_Cmd::DelNextChar => if sel_selected {
            if p.cur_s.x > p.cur_e.x { p.cur_s } else { p.cur_e }
        } else {
            p.cur_s
        },
        E_Cmd::DelPrevChar => if sel_selected { p.cur_e } else { p.cur_s },
        E_Cmd::ReplaceExec(_, _, _) => p.cur_s,
        _ => cur,
    }
}

/// Before an edit is done again: the cursor where it started, and for deletions and cuts the
/// selection it had (otherwise the selection `sel` stays).
pub fn redo_exec_state(p: &Proc, sel: SelRange) -> (r: (Cur, SelRange))
    ensures
        r.0 == p.cur_s,
        r.1 == (if p.e_cmd is DelNextChar || p.e_cmd is DelPrevChar || p.e_cmd is Cut { p.sel } else { sel }),
{
    match &p.e_cmd {
        E_Cmd::DelNextChar | E_Cmd::DelPrevChar | E_Cmd::Cut => (p.cur_s, p.sel),
        _ => (p.cur_s, sel),
    }
}

/// The history after an undo (as `History::undo` leaves it).
pub open spec fn undone<T>(u: Seq<T>, r: Seq<T>) -> (Seq<T>, Seq<T>) {
    if u.len() == 0 { (u, r) } else { (u.drop_last(), r.push(u.last())) }
}

/// The history after a redo (as `History::redo` leaves it).
pub open spec fn redone<T>(u: Seq<T>, r: Seq<T>) -> (Seq<T>, Seq<T>) {
    if r.len() == 0 { (u, r) } else { (u.push(r.last()), r.drop_last()) }
}

/// A redo right after an undo re-applies what the undo reverted: the history is back where it
/// was, and so is it after an undo right after a redo.
pub proof fn lemma_undo_redo_round_trip<T>(u: Seq<T>, r: Seq<T>)
    ensures
        u.len() > 0 ==> redone(undone(u, r).0, undone(u, r).1) == (u, r),
        r.len() > 0 ==> undone(redone(u, r).0, redone(u, r).1) == (u, r),
{
    if u.len() > 0 {
        assert(u.drop_last().push(u.last()) =~= u);
        assert(r.push(u.last()).drop_last() =~= r);
    }
    if r.len() > 0 {
        assert(r.drop_last().push(r.last()) =~= r);
        assert(u.push(r.last()).drop_last() =~= u);
    }
}

} // verus!
