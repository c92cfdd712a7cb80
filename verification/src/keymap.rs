//! The key-binding map: which command a key gives where a part of the screen has the focus,
//! built from the key-binding file and the editor's fixed bindings, and the lookup of a key
//! press through it.
use crate::keycmd::{is_keycmd_of, is_unbound_keycmd, opt_keys, C_Cmd, E_Cmd, KeyCmd, Keybind, P_Cmd};
use crate::keys::{key_when_of_name, Key, KeyWhen, Keys};
use crate::text::{str_eq, string_of};
use vstd::prelude::*;

verus! {

/// The editor's own bindings, made for every key-binding file.
#[derive(Debug, Clone, Copy, PartialEq, Eq, Structural)]
pub enum FixedBind {
    /// Tab in the editor inserts a tab character.
    EditTab,
    EditScrollDown,
    EditScrollUp,
    EditNull,
    PromScrollDown,
    PromScrollUp,
    PromNull,
    CtxNull,
    CtxLeft,
    CtxRight,
    CtxUp,
    CtxDown,
    CtxConfirm,
}

/// What a binding makes of a key: the command a command word names for a focus word of the
/// key-binding file, or one of the fixed bindings.
#[derive(Debug, Clone, PartialEq, Eq)]
pub enum KeyBound {
    Word { cmd: String, when: String },
    Fixed(FixedBind),
}

/// The command of a fixed binding.
pub open spec fn is_fixed_keycmd(c: KeyCmd, f: FixedBind) -> bool {
    match f {
        FixedBind::EditTab => c matches KeyCmd::Edit(E_Cmd::InsertStr(s)) && s@ == seq!['\t'],
        FixedBind::EditScrollDown => c == KeyCmd::Edit(E_Cmd::MouseScrollDown),
        FixedBind::EditScrollUp => c == KeyCmd::Edit(E_Cmd::MouseScrollUp),
        FixedBind::EditNull => c == KeyCmd::Edit(E_Cmd::Null),
        FixedBind::PromScrollDown => c == KeyCmd::Prom(P_Cmd::MouseScrollDown),
        FixedBind::PromScrollUp => c == KeyCmd::Prom(P_Cmd::MouseScrollUp),
        FixedBind::PromNull => c == KeyCmd::Prom(P_Cmd::Null),
        FixedBind::CtxNull => c == KeyCmd::CtxMenu(C_Cmd::Null),
        FixedBind::CtxLeft => c == KeyCmd::CtxMenu(C_Cmd::CursorLeft),
        FixedBind::CtxRight => c == KeyCmd::CtxMenu(C_Cmd::CursorRight),
        FixedBind::CtxUp => c == KeyCmd::CtxMenu(C_Cmd::CursorUp),
        FixedBind::CtxDown => c == KeyCmd::CtxMenu(C_Cmd::CursorDown),
        FixedBind::CtxConfirm => c == KeyCmd::CtxMenu(C_Cmd::Confirm),
    }
}

/// Is `c` the command a binding gives?
pub open spec fn is_bound_keycmd(c: KeyCmd, b: KeyBound) -> bool {
    match b {
        KeyBound::Word { cmd, when } => is_keycmd_of(c, cmd@, when@),
        KeyBound::Fixed(f) => is_fixed_keycmd(c, f),
    }
}

/// The command of a binding, made anew.
pub fn bound_keycmd(b: &KeyBound) -> (c: KeyCmd)
    ensures
        is_bound_keycmd(c, *b),
{
    match b {
        KeyBound::Word { cmd, when } => KeyCmd::cmd_when_to_keycmd(cmd.as_str(), when.as_str()),
        KeyBound::Fixed(f) => match f {
            FixedBind::EditTab => {
                let mut s = String::new();
                s.push('\t');
                KeyCmd::Edit(E_Cmd::InsertStr(s))
            },
            FixedBind::EditScrollDown => KeyCmd::Edit(E_Cmd::MouseScrollDown),
            FixedBind::EditScrollUp => KeyCmd::Edit(E_Cmd::MouseScrollUp),
            FixedBind::EditNull => KeyCmd::Edit(E_Cmd::Null),
            FixedBind::PromScrollDown => KeyCmd::Prom(P_Cmd::MouseScrollDown),
            FixedBind::PromScrollUp => KeyCmd::Prom(P_Cmd::MouseScrollUp),
            FixedBind::PromNull => KeyCmd::Prom(P_Cmd::Null),
            FixedBind::CtxNull => KeyCmd::CtxMenu(C_Cmd::Null),
            FixedBind::CtxLeft => KeyCmd::CtxMenu(C_Cmd::CursorLeft),
            FixedBind::CtxRight => KeyCmd::CtxMenu(C_Cmd::CursorRight),
            FixedBind::CtxUp => KeyCmd::CtxMenu(C_Cmd::CursorUp),
            FixedBind::CtxDown => KeyCmd::CtxMenu(C_Cmd::CursorDown),
            FixedBind::CtxConfirm => KeyCmd::CtxMenu(C_Cmd::Confirm),
        },
    }
}

/// The bindings in the order they were made; a later binding of the same key and focus
/// replaces an earlier one, as inserting into a map does.
pub struct KeyCmdMap {
    pub entries: Vec<(Keys, KeyWhen, KeyBound)>,
}

/// The position of the binding that counts for `keys` where `when` has the focus: the last one
/// made for them among the first `n` bindings.
pub open spec fn find_bound(es: Seq<(Keys, KeyWhen, KeyBound)>, keys: Keys, when: KeyWhen, n: int) -> Option<int>
    decreases n,
{
    if n <= 0 {
        None
    } else if es[n - 1].0 == keys && es[n - 1].1 == when {
        Some(n - 1)
    } else {
        find_bound(es, keys, when, n - 1)
    }
}

/// The binding that counts for `keys` where `when` has the focus.
pub open spec fn lookup_bound(m: Seq<(Keys, KeyWhen, KeyBound)>, keys: Keys, when: KeyWhen) -> Option<KeyBound> {
    match find_bound(m, keys, when, m.len() as int) {
        Some(i) => Some(m[i].2),
        None => None,
    }
}

proof fn lemma_find_bound_range(es: Seq<(Keys, KeyWhen, KeyBound)>, keys: Keys, when: KeyWhen, n: int)
    requires
        0 <= n <= es.len(),
    ensures
        find_bound(es, keys, when, n) matches Some(i) ==> 0 <= i < n,
    decreases n,
{
    if n > 0 {
        lemma_find_bound_range(es, keys, when, n - 1);
    }
}

/// A binding as plain values: the command word and focus word, or the fixed binding.
pub enum BoundText {
    Word(Seq<char>, Seq<char>),
    Fixed(FixedBind),
}

/// A binding as plain values.
pub open spec fn bound_text(b: KeyBound) -> BoundText {
    match b {
        KeyBound::Word { cmd, when } => BoundText::Word(cmd@, when@),
        KeyBound::Fixed(f) => BoundText::Fixed(f),
    }
}

/// The bindings as plain values.
pub open spec fn entries_text(es: Seq<(Keys, KeyWhen, KeyBound)>) -> Seq<(Keys, KeyWhen, BoundText)> {
    Seq::new(es.len(), |i: int| (es[i].0, es[i].1, bound_text(es[i].2)))
}

/// The bindings a key-binding file line makes: a key bound for all parts of the screen counts
/// for all of them, the editor and the prompt, each with the command word read for that focus;
/// otherwise for the focus it names. A focus the file cannot name makes none.
pub open spec fn line_bindings(keys: Keys, cmd: Seq<char>, when: Seq<char>) -> Seq<(Keys, KeyWhen, BoundText)> {
    if when == "allFocus"@ {
        seq![
            (keys, KeyWhen::All, BoundText::Word(cmd, "allFocus"@)),
            (keys, KeyWhen::Editor, BoundText::Word(cmd, "editorFocus"@)),
            (keys, KeyWhen::Prom, BoundText::Word(cmd, "promptFocus"@)),
        ]
    } else {
        match key_when_of_name(when) {
            Some(w) => seq![(keys, w, BoundText::Word(cmd, when))],
            None => Seq::empty(),
        }
    }
}

/// The bindings of a key-binding file's lines, in order, before the fixed bindings.
pub open spec fn file_bindings(lines: Seq<(Keys, Keybind)>) -> Seq<(Keys, KeyWhen, BoundText)>
    decreases lines.len(),
{
    if lines.len() == 0 {
        Seq::empty()
    } else {
        file_bindings(lines.drop_last()) + line_bindings(lines.last().0, lines.last().1.cmd@, lines.last().1.when@)
    }
}

/// The editor's fixed bindings, made after those of the file.
pub open spec fn fixed_bindings() -> Seq<(Keys, KeyWhen, BoundText)> {
    seq![
        (Keys::Raw(Key::Tab), KeyWhen::Editor, BoundText::Fixed(FixedBind::EditTab)),
        (Keys::MouseScrollDown, KeyWhen::Editor, BoundText::Fixed(FixedBind::EditScrollDown)),
        (Keys::MouseScrollDown, KeyWhen::Prom, BoundText::Fixed(FixedBind::PromScrollDown)),
        (Keys::MouseScrollUp, KeyWhen::Editor, BoundText::Fixed(FixedBind::EditScrollUp)),
        (Keys::MouseScrollUp, KeyWhen::Prom, BoundText::Fixed(FixedBind::PromScrollUp)),
        (Keys::Null, KeyWhen::Editor, BoundText::Fixed(FixedBind::EditNull)),
        (Keys::Null, KeyWhen::Prom, BoundText::Fixed(FixedBind::PromNull)),
        (Keys::Null, KeyWhen::CtxMenu, BoundText::Fixed(FixedBind::CtxNull)),
        (Keys::Raw(Key::Left), KeyWhen::CtxMenu, BoundText::Fixed(FixedBind::CtxLeft)),
        (Keys::Raw(Key::Right), KeyWhen::CtxMenu, BoundText::Fixed(FixedBind::CtxRight)),
        (Keys::Raw(Key::Up), KeyWhen::CtxMenu, BoundText::Fixed(FixedBind::CtxUp)),
        (Keys::Raw(Key::Down), KeyWhen::CtxMenu, BoundText::Fixed(FixedBind::CtxDown)),
        (Keys::Raw(Key::Enter), KeyWhen::CtxMenu, BoundText::Fixed(FixedBind::CtxConfirm)),
    ]
}

/// Appends a binding.
fn push_bind(es: &mut Vec<(Keys, KeyWhen, KeyBound)>, keys: Keys, when: KeyWhen, b: KeyBound)
    ensures
        final(es)@ == old(es)@.push((keys, when, b)),
{
    es.push((keys, when, b));
}

impl KeyCmdMap {
    /// The command bound to `keys` where `when` has the focus (the last binding made for them),
    /// or `None`.
    pub fn get(&self, keys: &Keys, when: KeyWhen) -> (r: Option<KeyCmd>)
        ensures
            lookup_bound(self.entries@, *keys, when) is None <==> r is None,
            r matches Some(c) ==> is_bound_keycmd(c, lookup_bound(self.entries@, *keys, when).unwrap()),
    {
        let n = self.entries.len();
        let mut i: usize = n;
        proof {
            lemma_find_bound_range(self.entries@, *keys, when, n as int);
        }
        while i > 0
            invariant
                n == self.entries@.len(),
                i <= n,
                find_bound(self.entries@, *keys, when, n as int) == find_bound(self.entries@, *keys, when, i as int),
            decreases i,
        {
            let e = &self.entries[i - 1];
            if e.0 == *keys && e.1 == when {
                return Some(bound_keycmd(&e.2));
            }
            i = i - 1;
        }
        None
    }
}

impl Keybind {
    /// The key-binding map of the file's lines (each with its key already read) followed by
    /// the fixed bindings (see `file_bindings` and `fixed_bindings`).
    pub fn init_key_cmd_map(lines: &Vec<(Keys, Keybind)>) -> (m: KeyCmdMap)
        ensures
            entries_text(m.entries@) == file_bindings(lines@) + fixed_bindings(),
    {
        let mut es: Vec<(Keys, KeyWhen, KeyBound)> = Vec::new();
        let n = lines.len();
        let mut i: usize = 0;
        proof {
            assert(lines@.take(0) =~= Seq::<(Keys, Keybind)>::empty());
            assert(entries_text(es@) =~= Seq::<(Keys, KeyWhen, BoundText)>::empty());
        }
        while i < n
            invariant
                n == lines@.len(),
                i <= n,
                entries_text(es@) == file_bindings(lines@.take(i as int)),
            decreases n - i,
        {
            let keys = lines[i].0;
            let cmd = &lines[i].1.cmd;
            let when = &lines[i].1.when;
            let ghost before = es@;
            proof {
                assert(lines@.take(i + 1).drop_last() =~= lines@.take(i as int));
                assert(lines@.take(i + 1).last() == lines@[i as int]);
                reveal_strlit("allFocus");
                reveal_strlit("editorFocus");
                reveal_strlit("promptFocus");
            }
            if str_eq(when.as_str(), "allFocus") {
                push_bind(&mut es, keys, KeyWhen::All, KeyBound::Word { cmd: cmd.clone(), when: string_of("allFocus") });
                push_bind(&mut es, keys, KeyWhen::Editor, KeyBound::Word { cmd: cmd.clone(), when: string_of("editorFocus") });
                push_bind(&mut es, keys, KeyWhen::Prom, KeyBound::Word { cmd: cmd.clone(), when: string_of("promptFocus") });
            } else {
                match KeyWhen::from_str_when(when.as_str()) {
                    Ok(w) => {
                        push_bind(&mut es, keys, w, KeyBound::Word { cmd: cmd.clone(), when: when.clone() });
                    },
                    Err(_) => {},
                }
            }
            proof {
                assert(entries_text(es@) =~= entries_text(before) + line_bindings(keys, cmd@, when@));
            }
            i = i + 1;
        }
        proof {
            assert(lines@.take(n as int) =~= lines@);
        }
        let fixed: Vec<(Keys, KeyWhen, FixedBind)> = vec![
            (Keys::Raw(Key::Tab), KeyWhen::Editor, FixedBind::EditTab),
            (Keys::MouseScrollDown, KeyWhen::Editor, FixedBind::EditScrollDown),
            (Keys::MouseScrollDown, KeyWhen::Prom, FixedBind::PromScrollDown),
            (Keys::MouseScrollUp, KeyWhen::Editor, FixedBind::EditScrollUp),
            (Keys::MouseScrollUp, KeyWhen::Prom, FixedBind::PromScrollUp),
            (Keys::Null, KeyWhen::Editor, FixedBind::EditNull),
            (Keys::Null, KeyWhen::Prom, FixedBind::PromNull),
            (Keys::Null, KeyWhen::CtxMenu, FixedBind::CtxNull),
            (Keys::Raw(Key::Left), KeyWhen::CtxMenu, FixedBind::CtxLeft),
            (Keys::Raw(Key::Right), KeyWhen::CtxMenu, FixedBind::CtxRight),
            (Keys::Raw(Key::Up), KeyWhen::CtxMenu, FixedBind::CtxUp),
            (Keys::Raw(Key::Down), KeyWhen::CtxMenu, FixedBind::CtxDown),
            (Keys::Raw(Key::Enter), KeyWhen::CtxMenu, FixedBind::CtxConfirm),
        ];
        let ghost file_part = entries_text(es@);
        let ghost fx = Seq::new(fixed@.len(), |k: int| (fixed@[k].0, fixed@[k].1, BoundText::Fixed(fixed@[k].2)));
        proof {
            assert(fx =~= fixed_bindings());
            assert(fx.take(0) =~= Seq::<(Keys, KeyWhen, BoundText)>::empty());
            assert(file_part + fx.take(0) =~= file_part);
        }
        let fl = fixed.len();
        let mut j: usize = 0;
        while j < fl
            invariant
                fl == fixed@.len(),
                fx == Seq::new(fixed@.len(), |k: int| (fixed@[k].0, fixed@[k].1, BoundText::Fixed(fixed@[k].2))),
                j <= fl,
                entries_text(es@) == file_part + fx.take(j as int),
            decreases fl - j,
        {
            let ghost before = es@;
            let (k, w, f) = fixed[j];
            push_bind(&mut es, k, w, KeyBound::Fixed(f));
            proof {
                assert(entries_text(es@) =~= entries_text(before).push((k, w, BoundText::Fixed(f))));
                assert(fx.take(j + 1) =~= fx.take(j as int).push(fx[j as int]));
                assert(file_part + fx.take(j + 1) =~= (file_part + fx.take(j as int)).push(fx[j as int]));
            }
            j = j + 1;
        }
        proof {
            assert(fx.take(fl as int) =~= fx);
        }
        KeyCmdMap { entries: es }
    }

    /// The command of a key press or mouse event where `keywhen` has the focus: the command
    /// the map binds to the event for that focus, unless there is none or it is unsupported,
    /// in which case the part of the screen decides by the event (see `keys_to_keycmd_pressed`).
    pub fn keys_to_keycmd(map: &KeyCmdMap, keys: &Keys, keys_org_opt: Option<&Keys>, keywhen: KeyWhen, term_width: u16) -> (c: KeyCmd)
        ensures
            lookup_bound(map.entries@, *keys, keywhen) matches Some(b) ==> (is_bound_keycmd(c, b) && !(c is Unsupported))
                || (is_bound_keycmd(KeyCmd::Unsupported, b) && is_unbound_keycmd(c, *keys, opt_keys(keys_org_opt), keywhen, term_width)),
            lookup_bound(map.entries@, *keys, keywhen) is None ==> is_unbound_keycmd(c, *keys, opt_keys(keys_org_opt), keywhen, term_width),
    {
        let bound = map.get(keys, keywhen);
        Keybind::keys_to_keycmd_pressed(keys, keys_org_opt, keywhen, bound, term_width)
    }
}

} // verus!
