//! Key and mouse input as the editor sees it.
use crate::text::str_eq;
use vstd::prelude::*;
use vstd::string::StringExecFns;

verus! {

/// A key without modifiers.
#[derive(Debug, Copy, Clone, PartialEq, Eq, Hash, Structural)]
pub enum Key {
    Char(char),
    BackTab,
    Insert,
    Esc,
    Backspace,
    Tab,
    Enter,
    Delete,
    Null,
    PageUp,
    PageDown,
    Home,
    End,
    Up,
    Down,
    Left,
    Right,
    F(u8),
}

/// A key with its modifier, a mouse event at (row, column), or a resize to (columns, rows).
#[derive(Debug, Copy, Clone, PartialEq, Eq, Hash, Structural)]
pub enum Keys {
    Raw(Key),
    Ctrl(Key),
    Alt(Key),
    Shift(Key),
    MouseDownLeft(u16, u16),
    MouseUpLeft(u16, u16),
    MouseDragLeft(u16, u16),
    MouseAltDownLeft(u16, u16),
    MouseAltDragLeft(u16, u16),
    MouseDownRight(u16, u16),
    MouseDragRight(u16, u16),
    MouseMove(u16, u16),
    MouseScrollUp,
    MouseScrollDown,
    Resize(u16, u16),
    Null,
    Unsupported,
}

/// The part of the screen that has the focus when a key binding applies.
#[derive(Debug, Clone, Copy, PartialEq, Eq, Hash, Structural)]
pub enum KeyWhen {
    All,
    Editor,
    MenuBar,
    FileBar,
    StatusBar,
    Prom,
    CtxMenu,
}

/// The name under which a focus is written out.
pub open spec fn key_when_name(k: KeyWhen) -> Seq<char> {
    match k {
        KeyWhen::Editor => "editorFocus"@,
        KeyWhen::MenuBar => "menuBarFocus"@,
        KeyWhen::FileBar => "fileBarFocus"@,
        KeyWhen::StatusBar => "statusBarFocus"@,
        KeyWhen::Prom => "promptFocus"@,
        KeyWhen::All => "allFocus"@,
        KeyWhen::CtxMenu => "ctxMenuFocus"@,
    }
}

/// The focus a key-binding file names; the file bar is named `headerBarFocus` there, and the
/// menu bar and context menu cannot be named.
pub open spec fn key_when_of_name(s: Seq<char>) -> Option<KeyWhen> {
    if s == "allFocus"@ {
        Some(KeyWhen::All)
    } else if s == "editorFocus"@ {
        Some(KeyWhen::Editor)
    } else if s == "headerBarFocus"@ {
        Some(KeyWhen::FileBar)
    } else if s == "statusBarFocus"@ {
        Some(KeyWhen::StatusBar)
    } else if s == "promptFocus"@ {
        Some(KeyWhen::Prom)
    } else {
        None
    }
}

impl KeyWhen {
    /// Read the focus a key-binding file names; `Err(())` for any other word.
    pub fn from_str_when(s: &str) -> (r: Result<KeyWhen, ()>)
        ensures
            r == (match key_when_of_name(s@) {
                Some(k) => Ok::<KeyWhen, ()>(k),
                None => Err(()),
            }),
    {
        if str_eq(s, "allFocus") {
            Ok(KeyWhen::All)
        } else if str_eq(s, "editorFocus") {
            Ok(KeyWhen::Editor)
        } else if str_eq(s, "headerBarFocus") {
            Ok(KeyWhen::FileBar)
        } else if str_eq(s, "statusBarFocus") {
            Ok(KeyWhen::StatusBar)
        } else if str_eq(s, "promptFocus") {
            Ok(KeyWhen::Prom)
        } else {
            Err(())
        }
    }

    /// The name of the focus.
    pub fn to_string(&self) -> (s: String)
        ensures
            s@ == key_when_name(*self),
    {
        match self {
            KeyWhen::Editor => String::from_str("editorFocus"),
            KeyWhen::MenuBar => String::from_str("menuBarFocus"),
            KeyWhen::FileBar => String::from_str("fileBarFocus"),
            KeyWhen::StatusBar => String::from_str("statusBarFocus"),
            KeyWhen::Prom => String::from_str("promptFocus"),
            KeyWhen::All => String::from_str("allFocus"),
            KeyWhen::CtxMenu => String::from_str("ctxMenuFocus"),
        }
    }
}

/// Reading back the written name of the focus gives the focus for the whole editor, the
/// editor, the status bar and the prompt; the names of the menu bar, file bar and context
/// menu are not read.
pub proof fn lemma_key_when_round_trip(k: KeyWhen)
    ensures
        (k == KeyWhen::All || k == KeyWhen::Editor || k == KeyWhen::StatusBar || k == KeyWhen::Prom) ==> key_when_of_name(
            key_when_name(k),
        ) == Some(k),
        (k == KeyWhen::MenuBar || k == KeyWhen::FileBar || k == KeyWhen::CtxMenu) ==> key_when_of_name(key_when_name(k)) is None,
{
    reveal_strlit("allFocus");
    reveal_strlit("editorFocus");
    reveal_strlit("headerBarFocus");
    reveal_strlit("statusBarFocus");
    reveal_strlit("promptFocus");
    reveal_strlit("menuBarFocus");
    reveal_strlit("fileBarFocus");
    reveal_strlit("ctxMenuFocus");
    assert("allFocus"@[0] != "editorFocus"@[0]);
    assert("allFocus"@[0] != "headerBarFocus"@[0]);
    assert("allFocus"@[0] != "statusBarFocus"@[0]);
    assert("allFocus"@[0] != "promptFocus"@[0]);
    assert("allFocus"@[0] != "menuBarFocus"@[0]);
    assert("allFocus"@[0] != "fileBarFocus"@[0]);
    assert("allFocus"@[0] != "ctxMenuFocus"@[0]);
    assert("editorFocus"@[0] != "headerBarFocus"@[0]);
    assert("editorFocus"@[0] != "statusBarFocus"@[0]);
    assert("editorFocus"@[0] != "promptFocus"@[0]);
    assert("editorFocus"@[0] != "menuBarFocus"@[0]);
    assert("editorFocus"@[0] != "fileBarFocus"@[0]);
    assert("editorFocus"@[0] != "ctxMenuFocus"@[0]);
    assert("headerBarFocus"@[0] != "statusBarFocus"@[0]);
    assert("headerBarFocus"@[0] != "promptFocus"@[0]);
    assert("headerBarFocus"@[0] != "menuBarFocus"@[0]);
    assert("headerBarFocus"@[0] != "fileBarFocus"@[0]);
    assert("headerBarFocus"@[0] != "ctxMenuFocus"@[0]);
    assert("statusBarFocus"@[0] != "promptFocus"@[0]);
    assert("statusBarFocus"@[0] != "menuBarFocus"@[0]);
    assert("statusBarFocus"@[0] != "fileBarFocus"@[0]);
    assert("statusBarFocus"@[0] != "ctxMenuFocus"@[0]);
    assert("promptFocus"@[0] != "menuBarFocus"@[0]);
    assert("promptFocus"@[0] != "fileBarFocus"@[0]);
    assert("promptFocus"@[0] != "ctxMenuFocus"@[0]);
}

/// A key as the terminal reports it.
#[derive(Debug, Copy, Clone, PartialEq, Eq, Hash, Structural)]
pub enum TermKeyCode {
    Backspace,
    Enter,
    Left,
    Right,
    Up,
    Down,
    Home,
    End,
    PageUp,
    PageDown,
    Tab,
    BackTab,
    Delete,
    Insert,
    F(u8),
    Char(char),
    Null,
    Esc,
}

/// A mouse button.
#[derive(Debug, Copy, Clone, PartialEq, Eq, Hash, Structural)]
pub enum TermMouseButton {
    Left,
    Right,
    Middle,
}

/// What the mouse did.
#[derive(Debug, Copy, Clone, PartialEq, Eq, Hash, Structural)]
pub enum TermMouseKind {
    Down(TermMouseButton),
    Up(TermMouseButton),
    Drag(TermMouseButton),
    Moved,
    ScrollDown,
    ScrollUp,
}

/// The modifier bit of Shift.
pub const MODIFIER_SHIFT: u8 = 1;
/// The modifier bit of Control.
pub const MODIFIER_CONTROL: u8 = 2;
/// The modifier bit of Alt.
pub const MODIFIER_ALT: u8 = 4;

/// An input event of the terminal: a key with its modifier bits, a mouse event at a column
/// and row with its modifier bits, or a resize to (columns, rows).
#[derive(Debug, Copy, Clone, PartialEq, Eq, Hash, Structural)]
pub enum TermEvent {
    Key { code: TermKeyCode, modifiers: u8 },
    Mouse { kind: TermMouseKind, column: u16, row: u16, modifiers: u8 },
    Resize(u16, u16),
}

/// The editor's key for a key code of the terminal.
pub open spec fn key_of_code(c: TermKeyCode) -> Key {
    match c {
        TermKeyCode::Char(ch) => Key::Char(ch),
        TermKeyCode::BackTab => Key::BackTab,
        TermKeyCode::Insert => Key::Insert,
        TermKeyCode::Esc => Key::Esc,
        TermKeyCode::Backspace => Key::Backspace,
        TermKeyCode::Tab => Key::Tab,
        TermKeyCode::Enter => Key::Enter,
        TermKeyCode::Delete => Key::Delete,
        TermKeyCode::Null => Key::Null,
        TermKeyCode::PageUp => Key::PageUp,
        TermKeyCode::PageDown => Key::PageDown,
        TermKeyCode::Home => Key::Home,
        TermKeyCode::End => Key::End,
        TermKeyCode::Up => Key::Up,
        TermKeyCode::Down => Key::Down,
        TermKeyCode::Left => Key::Left,
        TermKeyCode::Right => Key::Right,
        TermKeyCode::F(i) => Key::F(i),
    }
}

/// The keys an input event stands for. A key counts with exactly one modifier (Control, Alt or
/// Shift) or none; any other combination is unsupported. A left press or drag with exactly Alt
/// held is a box selection; mouse events the editor does not handle are `Null`.
pub open spec fn keys_of_event(e: TermEvent) -> Keys {
    match e {
        TermEvent::Key { code, modifiers } => {
            let k = key_of_code(code);
            if modifiers == MODIFIER_CONTROL {
                Keys::Ctrl(k)
            } else if modifiers == MODIFIER_ALT {
                Keys::Alt(k)
            } else if modifiers == MODIFIER_SHIFT {
                Keys::Shift(k)
            } else if modifiers == 0 {
                Keys::Raw(k)
            } else {
                Keys::Unsupported
            }
        },
        TermEvent::Mouse { kind, column, row, modifiers } => match kind {
            TermMouseKind::Down(TermMouseButton::Left) => if modifiers == MODIFIER_ALT {
                Keys::MouseAltDownLeft(row, column)
            } else {
                Keys::MouseDownLeft(row, column)
            },
            TermMouseKind::Drag(TermMouseButton::Left) => if modifiers == MODIFIER_ALT {
                Keys::MouseAltDragLeft(row, column)
            } else {
                Keys::MouseDragLeft(row, column)
            },
            TermMouseKind::Up(TermMouseButton::Left) => Keys::MouseUpLeft(row, column),
            TermMouseKind::Down(TermMouseButton::Right) => Keys::MouseDownRight(row, column),
            TermMouseKind::Drag(TermMouseButton::Right) => Keys::MouseDragRight(row, column),
            TermMouseKind::ScrollUp => Keys::MouseScrollUp,
            TermMouseKind::ScrollDown => Keys::MouseScrollDown,
            TermMouseKind::Moved => Keys::MouseMove(row, column),
            _ => Keys::Null,
        },
        TermEvent::Resize(x, y) => Keys::Resize(x, y),
    }
}

/// The editor's key for a key code of the terminal.
pub fn key_from_code(c: TermKeyCode) -> (k: Key)
    ensures
        k == key_of_code(c),
{
    match c {
        TermKeyCode::Char(ch) => Key::Char(ch),
        TermKeyCode::BackTab => Key::BackTab,
        TermKeyCode::Insert => Key::Insert,
        TermKeyCode::Esc => Key::Esc,
        TermKeyCode::Backspace => Key::Backspace,
        TermKeyCode::Tab => Key::Tab,
        TermKeyCode::Enter => Key::Enter,
        TermKeyCode::Delete => Key::Delete,
        TermKeyCode::Null => Key::Null,
        TermKeyCode::PageUp => Key::PageUp,
        TermKeyCode::PageDown => Key::PageDown,
        TermKeyCode::Home => Key::Home,
        TermKeyCode::End => Key::End,
        TermKeyCode::Up => Key::Up,
        TermKeyCode::Down => Key::Down,
        TermKeyCode::Left => Key::Left,
        TermKeyCode::Right => Key::Right,
        TermKeyCode::F(i) => Key::F(i),
    }
}

} // verus!
