//! Key commands: what a key binding or an unbound key or mouse event does in each part of the
//! screen.
use crate::cmd::to_ascii_upper;
use crate::cmd::ascii_upper;
use crate::def::USIZE_UNDEFINED;
use crate::keys::{key_from_code, keys_of_event, Key, KeyWhen, Keys, TermEvent, TermMouseButton, TermMouseKind, MODIFIER_ALT, MODIFIER_CONTROL, MODIFIER_SHIFT};
use crate::model::{Direction, FileType, OpenFileType, SelRange};
use crate::text::str_eq;
use std::collections::BTreeSet;
use vstd::prelude::*;

verus! {

/// One entry of a key-binding file: a key, a command word and a focus word.
#[derive(Debug, Clone, PartialEq, Eq)]
pub struct Keybind {
    pub key: String,
    pub cmd: String,
    pub when: String,
}

/// A command for one part of the screen.
#[derive(Debug, Clone, PartialEq, Eq, Hash)]
pub enum KeyCmd {
    Edit(E_Cmd),
    Prom(P_Cmd),
    MenuBar(M_Cmd),
    CtxMenu(C_Cmd),
    FileBar(F_Cmd),
    StatusBar(S_Cmd),
    Unsupported,
    Null,
}

impl Default for KeyCmd {
    fn default() -> (k: KeyCmd)
        ensures
            k == KeyCmd::Null,
    {
        KeyCmd::Null
    }
}

/// Commands of the prompt.
#[derive(PartialEq, PartialOrd, Eq, Hash, Ord, Debug, Clone)]
#[allow(non_camel_case_types)]
pub enum P_Cmd {
    FindNext,
    FindBack,
    CursorLeft,
    CursorRight,
    CursorUp,
    CursorDown,
    CursorRowHome,
    CursorRowEnd,
    CursorLeftSelect,
    CursorRightSelect,
    CursorRowHomeSelect,
    CursorRowEndSelect,
    MouseMove(usize, usize),
    MouseDownLeft(usize, usize),
    MouseDragLeft(usize, usize),
    MouseScrollUp,
    MouseScrollDown,
    InsertStr(String),
    DelPrevChar,
    DelNextChar,
    Cut,
    Copy,
    Undo,
    Redo,
    NextContent,
    BackContent,
    Cancel,
    Confirm,
    FindCaseSensitive,
    FindRegex,
    Resize(usize, usize),
    CloseFile,
    Null,
}

impl Default for P_Cmd {
    fn default() -> (c: P_Cmd)
        ensures
            c == P_Cmd::Null,
    {
        P_Cmd::Null
    }
}

/// Commands of the editor.
#[derive(Debug, Clone, PartialEq, Eq, Hash)]
#[allow(non_camel_case_types)]
pub enum E_Cmd {
    FindNext,
    FindBack,
    CursorLeft,
    CursorRight,
    CursorUp,
    CursorDown,
    CursorRowHome,
    CursorRowEnd,
    CursorLeftSelect,
    CursorRightSelect,
    CursorUpSelect,
    CursorDownSelect,
    CursorRowHomeSelect,
    CursorRowEndSelect,
    MouseDownLeft(usize, usize),
    MouseUpLeft(usize, usize),
    MouseDragLeftLeft(usize, usize),
    MouseDragLeftRight(usize, usize),
    MouseDragLeftUp(usize, usize),
    MouseDragLeftDown(usize, usize),
    MouseScrollUp,
    MouseScrollDown,
    DelPrevChar,
    DelNextChar,
    Cut,
    Copy,
    Undo,
    Redo,
    CursorFileHome,
    CursorFileEnd,
    CursorPageDown,
    CursorPageUp,
    AllSelect,
    InsertStr(String),
    InsertBox(Vec<(SelRange, String)>),
    DelBox(Vec<(SelRange, String)>),
    InsertRow,
    Format(FileType),
    Find,
    ReplaceExec(String, String, BTreeSet<usize>),
    ReplacePrompt,
    MoveRow,
    Grep,
    GrepResult,
    Encoding,
    CreateNewFile,
    OpenFile(OpenFileType),
    CloseFile,
    CloseAllFile,
    SaveFile,
    StartEndRecordKey,
    ExecRecordKey,
    MouseMove(usize, usize),
    MouseDownLeftBox(usize, usize),
    MouseDragLeftBox(usize, usize),
    MouseModeSwitch,
    Help,
    OpenMenuFile,
    OpenMenuConvert,
    OpenMenuEdit,
    OpenMenuSearch,
    OpenMenuMacro,
    CtxtMenu(usize, usize),
    BoxSelectMode,
    CancelState,
    ReOpenFile,
    SwitchTabRight,
    SwitchTabLeft,
    InputComple,
    Resize(usize, usize),
    SwitchDispScale,
    SwitchDispRowNo,
    Null,
}

/// Commands of the menu bar.
#[derive(Debug, Clone, Copy, PartialEq, Eq, Hash, Structural)]
#[allow(non_camel_case_types)]
pub enum M_Cmd {
    MouseMove(usize, usize),
    MouseDownLeft(usize, usize),
    MenuWidget(usize, usize),
    CursorDown,
    CursorUp,
    CursorRight,
    CursorLeft,
    Confirm,
    Null,
}

/// Commands of the context menu.
#[derive(Debug, Clone, Copy, PartialEq, Eq, Hash, Structural)]
#[allow(non_camel_case_types)]
pub enum C_Cmd {
    MouseMove(usize, usize),
    MouseDownLeft(usize, usize),
    CtxMenu(usize, usize),
    CursorDown,
    CursorUp,
    CursorRight,
    CursorLeft,
    Confirm,
    Null,
}

/// Commands of the file bar.
#[derive(Debug, Clone, Copy, PartialEq, Eq, Hash, Structural)]
#[allow(non_camel_case_types)]
pub enum F_Cmd {
    MouseDownLeft(usize, usize),
    MouseUpLeft(usize, usize),
    MouseDragLeftUp(usize, usize),
    MouseDragLeftDown(usize, usize),
    MouseDragLeftRight(usize, usize),
    MouseDragLeftLeft(usize, usize),
}

/// Commands of the status bar.
#[derive(Debug, Clone, Copy, PartialEq, Eq, Hash, Structural)]
#[allow(non_camel_case_types)]
pub enum S_Cmd {
    MouseDownLeft(usize, usize),
}

/// Is `c` the editor command that the word `s` of a key-binding file names? Unknown words
/// name `Null`; `paste` inserts an empty string (the clipboard is read later).
pub open spec fn is_edit_cmd_of_str(c: E_Cmd, s: Seq<char>) -> bool {
    if s == "findNext"@ {
        c == E_Cmd::FindNext
    } else if s == "findBack"@ {
        c == E_Cmd::FindBack
    } else if s == "cursorLeft"@ {
        c == E_Cmd::CursorLeft
    } else if s == "cursorRight"@ {
        c == E_Cmd::CursorRight
    } else if s == "cursorUp"@ {
        c == E_Cmd::CursorUp
    } else if s == "cursorDown"@ {
        c == E_Cmd::CursorDown
    } else if s == "cursorRowHome"@ {
        c == E_Cmd::CursorRowHome
    } else if s == "cursorRowEnd"@ {
        c == E_Cmd::CursorRowEnd
    } else if s == "cursorLeftSelect"@ {
        c == E_Cmd::CursorLeftSelect
    } else if s == "cursorRightSelect"@ {
        c == E_Cmd::CursorRightSelect
    } else if s == "cursorUpSelect"@ {
        c == E_Cmd::CursorUpSelect
    } else if s == "cursorDownSelect"@ {
        c == E_Cmd::CursorDownSelect
    } else {
        is_edit_cmd_of_str_1(c, s)
    }
}

/// The remaining words of `is_edit_cmd_of_str`.
pub open spec fn is_edit_cmd_of_str_1(c: E_Cmd, s: Seq<char>) -> bool {
    if s == "cursorRowHomeSelect"@ {
        c == E_Cmd::CursorRowHomeSelect
    } else if s == "cursorRowEndSelect"@ {
        c == E_Cmd::CursorRowEndSelect
    } else if s == "deleteNextChar"@ {
        c == E_Cmd::DelNextChar
    } else if s == "deletePrevChar"@ {
        c == E_Cmd::DelPrevChar
    } else if s == "paste"@ {
        c matches E_Cmd::InsertStr(x) && x@.len() == 0
    } else if s == "cutSelect"@ {
        c == E_Cmd::Cut
    } else if s == "copySelect"@ {
        c == E_Cmd::Copy
    } else if s == "undo"@ {
        c == E_Cmd::Undo
    } else if s == "redo"@ {
        c == E_Cmd::Redo
    } else if s == "cursorFileHome"@ {
        c == E_Cmd::CursorFileHome
    } else if s == "cursorFileEnd"@ {
        c == E_Cmd::CursorFileEnd
    } else if s == "cursorPageUp"@ {
        c == E_Cmd::CursorPageUp
    } else {
        is_edit_cmd_of_str_2(c, s)
    }
}

/// The remaining words of `is_edit_cmd_of_str`.
pub open spec fn is_edit_cmd_of_str_2(c: E_Cmd, s: Seq<char>) -> bool {
    if s == "cursorPageDown"@ {
        c == E_Cmd::CursorPageDown
    } else if s == "allSelect"@ {
        c == E_Cmd::AllSelect
    } else if s == "boxSelectModeStart"@ {
        c == E_Cmd::BoxSelectMode
    } else if s == "insertLine"@ {
        c == E_Cmd::InsertRow
    } else if s == "formatJSON"@ {
        c == E_Cmd::Format(FileType::JSON)
    } else if s == "formatXML"@ {
        c == E_Cmd::Format(FileType::XML)
    } else if s == "formatHTML"@ {
        c == E_Cmd::Format(FileType::HTML)
    } else if s == "find"@ {
        c == E_Cmd::Find
    } else if s == "replace"@ {
        c == E_Cmd::ReplacePrompt
    } else if s == "moveLine"@ {
        c == E_Cmd::MoveRow
    } else if s == "grep"@ {
        c == E_Cmd::Grep
    } else if s == "closeFile"@ {
        c == E_Cmd::CloseFile
    } else {
        is_edit_cmd_of_str_3(c, s)
    }
}

/// The remaining words of `is_edit_cmd_of_str`.
pub open spec fn is_edit_cmd_of_str_3(c: E_Cmd, s: Seq<char>) -> bool {
    if s == "createNewFile"@ {
        c == E_Cmd::CreateNewFile
    } else if s == "openFile"@ {
        c == E_Cmd::OpenFile(OpenFileType::Normal)
    } else if s == "encoding"@ {
        c == E_Cmd::Encoding
    } else if s == "closeAllFile"@ {
        c == E_Cmd::CloseAllFile
    } else if s == "saveFile"@ {
        c == E_Cmd::SaveFile
    } else if s == "startEndRecordKey"@ {
        c == E_Cmd::StartEndRecordKey
    } else if s == "execRecordKey"@ {
        c == E_Cmd::ExecRecordKey
    } else if s == "mouseOpeSwitch"@ {
        c == E_Cmd::MouseModeSwitch
    } else if s == "help"@ {
        c == E_Cmd::Help
    } else if s == "openMenuFile"@ {
        c == E_Cmd::OpenMenuFile
    } else if s == "openMenuConvert"@ {
        c == E_Cmd::OpenMenuConvert
    } else if s == "openMenuEdit"@ {
        c == E_Cmd::OpenMenuEdit
    } else {
        is_edit_cmd_of_str_4(c, s)
    }
}

/// The remaining words of `is_edit_cmd_of_str`.
pub open spec fn is_edit_cmd_of_str_4(c: E_Cmd, s: Seq<char>) -> bool {
    if s == "openMenuSearch"@ {
        c == E_Cmd::OpenMenuSearch
    } else if s == "cancelMode"@ {
        c == E_Cmd::CancelState
    } else if s == "contextMenu"@ {
        c == E_Cmd::CtxtMenu(USIZE_UNDEFINED, USIZE_UNDEFINED)
    } else if s == "switchTabLeft"@ {
        c == E_Cmd::SwitchTabLeft
    } else if s == "switchTabRight"@ {
        c == E_Cmd::SwitchTabRight
    } else if s == "inputComplement"@ {
        c == E_Cmd::InputComple
    } else if s == "scale"@ {
        c == E_Cmd::SwitchDispScale
    } else if s == "rowNo"@ {
        c == E_Cmd::SwitchDispRowNo
    } else {
        c == E_Cmd::Null
    }
}

/// Is `c` the prompt command that the word `s` of a key-binding file names? Unknown words
/// name no command (`Unsupported`).
pub open spec fn is_prom_cmd_of_str(c: KeyCmd, s: Seq<char>) -> bool {
    if s == "cursorLeft"@ {
        c == KeyCmd::Prom(P_Cmd::CursorLeft)
    } else if s == "cursorRight"@ {
        c == KeyCmd::Prom(P_Cmd::CursorRight)
    } else if s == "cursorUp"@ {
        c == KeyCmd::Prom(P_Cmd::CursorUp)
    } else if s == "cursorDown"@ {
        c == KeyCmd::Prom(P_Cmd::CursorDown)
    } else if s == "cursorRowHome"@ {
        c == KeyCmd::Prom(P_Cmd::CursorRowHome)
    } else if s == "cursorRowEnd"@ {
        c == KeyCmd::Prom(P_Cmd::CursorRowEnd)
    } else if s == "cursorLeftSelect"@ {
        c == KeyCmd::Prom(P_Cmd::CursorLeftSelect)
    } else if s == "cursorRightSelect"@ {
        c == KeyCmd::Prom(P_Cmd::CursorRightSelect)
    } else if s == "cursorRowHomeSelect"@ {
        c == KeyCmd::Prom(P_Cmd::CursorRowHomeSelect)
    } else if s == "cursorRowEndSelect"@ {
        c == KeyCmd::Prom(P_Cmd::CursorRowEndSelect)
    } else if s == "deleteNextChar"@ {
        c == KeyCmd::Prom(P_Cmd::DelNextChar)
    } else if s == "deletePrevChar"@ {
        c == KeyCmd::Prom(P_Cmd::DelPrevChar)
    } else {
        is_prom_cmd_of_str_1(c, s)
    }
}

/// The remaining words of `is_prom_cmd_of_str`.
pub open spec fn is_prom_cmd_of_str_1(c: KeyCmd, s: Seq<char>) -> bool {
    if s == "paste"@ {
        c matches KeyCmd::Prom(P_Cmd::InsertStr(x)) && x@.len() == 0
    } else if s == "cutSelect"@ {
        c == KeyCmd::Prom(P_Cmd::Cut)
    } else if s == "copySelect"@ {
        c == KeyCmd::Prom(P_Cmd::Copy)
    } else if s == "undo"@ {
        c == KeyCmd::Prom(P_Cmd::Undo)
    } else if s == "redo"@ {
        c == KeyCmd::Prom(P_Cmd::Redo)
    } else if s == "findNextProm"@ {
        c == KeyCmd::Prom(P_Cmd::FindNext)
    } else if s == "findBackProm"@ {
        c == KeyCmd::Prom(P_Cmd::FindBack)
    } else if s == "escPrompt"@ {
        c == KeyCmd::Prom(P_Cmd::Cancel)
    } else if s == "confirmPrompt"@ {
        c == KeyCmd::Prom(P_Cmd::Confirm)
    } else if s == "nextContent"@ {
        c == KeyCmd::Prom(P_Cmd::NextContent)
    } else if s == "backContent"@ {
        c == KeyCmd::Prom(P_Cmd::BackContent)
    } else if s == "findCaseSensitive"@ {
        c == KeyCmd::Prom(P_Cmd::FindCaseSensitive)
    } else {
        is_prom_cmd_of_str_2(c, s)
    }
}

/// The remaining words of `is_prom_cmd_of_str`.
pub open spec fn is_prom_cmd_of_str_2(c: KeyCmd, s: Seq<char>) -> bool {
    if s == "findRegex"@ {
        c == KeyCmd::Prom(P_Cmd::FindRegex)
    } else if s == "closeFile"@ {
        c == KeyCmd::Prom(P_Cmd::CloseFile)
    } else {
        c == KeyCmd::Unsupported
    }
}

/// A command word names one editor command, but for the text an insertion carries.
pub proof fn lemma_edit_cmd_of_str_unique(a: E_Cmd, b: E_Cmd, s: Seq<char>)
    requires
        is_edit_cmd_of_str(a, s),
        is_edit_cmd_of_str(b, s),
        !(a is InsertStr),
    ensures
        a == b,
{
}

/// The command a key-binding file's command word names for a focus word: prompt commands for
/// `promptFocus`, editor commands for `editorFocus` (`Unsupported` where the word names none),
/// `Unsupported` for `headerBarFocus`, and `Null` for every other focus.
pub open spec fn is_keycmd_of(c: KeyCmd, cmd: Seq<char>, when: Seq<char>) -> bool {
    if when == "headerBarFocus"@ {
        c == KeyCmd::Unsupported
    } else if when == "promptFocus"@ {
        is_prom_cmd_of_str(c, cmd)
    } else if when == "editorFocus"@ {
        if is_edit_cmd_of_str(E_Cmd::Null, cmd) {
            c == KeyCmd::Unsupported
        } else {
            c matches KeyCmd::Edit(e) && is_edit_cmd_of_str(e, cmd)
        }
    } else {
        c == KeyCmd::Null
    }
}

impl KeyCmd {
    /// The editor command a command word names (`Null` for unknown words).
    pub fn to_edit_cmd(keycmd_str: &str) -> (c: E_Cmd)
        ensures
            is_edit_cmd_of_str(c, keycmd_str@),
    {
        if str_eq(keycmd_str, "findNext") {
            return E_Cmd::FindNext;
        }
        if str_eq(keycmd_str, "findBack") {
            return E_Cmd::FindBack;
        }
        if str_eq(keycmd_str, "cursorLeft") {
            return E_Cmd::CursorLeft;
        }
        if str_eq(keycmd_str, "cursorRight") {
            return E_Cmd::CursorRight;
        }
        if str_eq(keycmd_str, "cursorUp") {
            return E_Cmd::CursorUp;
        }
        if str_eq(keycmd_str, "cursorDown") {
            return E_Cmd::CursorDown;
        }
        if str_eq(keycmd_str, "cursorRowHome") {
            return E_Cmd::CursorRowHome;
        }
        if str_eq(keycmd_str, "cursorRowEnd") {
            return E_Cmd::CursorRowEnd;
        }
        if str_eq(keycmd_str, "cursorLeftSelect") {
            return E_Cmd::CursorLeftSelect;
        }
        if str_eq(keycmd_str, "cursorRightSelect") {
            return E_Cmd::CursorRightSelect;
        }
        if str_eq(keycmd_str, "cursorUpSelect") {
            return E_Cmd::CursorUpSelect;
        }
        if str_eq(keycmd_str, "cursorDownSelect") {
            return E_Cmd::CursorDownSelect;
        }
        if str_eq(keycmd_str, "cursorRowHomeSelect") {
            return E_Cmd::CursorRowHomeSelect;
        }
        if str_eq(keycmd_str, "cursorRowEndSelect") {
            return E_Cmd::CursorRowEndSelect;
        }
        if str_eq(keycmd_str, "deleteNextChar") {
            return E_Cmd::DelNextChar;
        }
        if str_eq(keycmd_str, "deletePrevChar") {
            return E_Cmd::DelPrevChar;
        }
        if str_eq(keycmd_str, "paste") {
            return E_Cmd::InsertStr(String::new());
        }
        if str_eq(keycmd_str, "cutSelect") {
            return E_Cmd::Cut;
        }
        if str_eq(keycmd_str, "copySelect") {
            return E_Cmd::Copy;
        }
        if str_eq(keycmd_str, "undo") {
            return E_Cmd::Undo;
        }
        if str_eq(keycmd_str, "redo") {
            return E_Cmd::Redo;
        }
        if str_eq(keycmd_str, "cursorFileHome") {
            return E_Cmd::CursorFileHome;
        }
        if str_eq(keycmd_str, "cursorFileEnd") {
            return E_Cmd::CursorFileEnd;
        }
        if str_eq(keycmd_str, "cursorPageUp") {
            return E_Cmd::CursorPageUp;
        }
        if str_eq(keycmd_str, "cursorPageDown") {
            return E_Cmd::CursorPageDown;
        }
        if str_eq(keycmd_str, "allSelect") {
            return E_Cmd::AllSelect;
        }
        if str_eq(keycmd_str, "boxSelectModeStart") {
            return E_Cmd::BoxSelectMode;
        }
        if str_eq(keycmd_str, "insertLine") {
            return E_Cmd::InsertRow;
        }
        if str_eq(keycmd_str, "formatJSON") {
            return E_Cmd::Format(FileType::JSON);
        }
        if str_eq(keycmd_str, "formatXML") {
            return E_Cmd::Format(FileType::XML);
        }
        if str_eq(keycmd_str, "formatHTML") {
            return E_Cmd::Format(FileType::HTML);
        }
        if str_eq(keycmd_str, "find") {
            return E_Cmd::Find;
        }
        if str_eq(keycmd_str, "replace") {
            return E_Cmd::ReplacePrompt;
        }
        if str_eq(keycmd_str, "moveLine") {
            return E_Cmd::MoveRow;
        }
        if str_eq(keycmd_str, "grep") {
            return E_Cmd::Grep;
        }
        if str_eq(keycmd_str, "closeFile") {
            return E_Cmd::CloseFile;
        }
        if str_eq(keycmd_str, "createNewFile") {
            return E_Cmd::CreateNewFile;
        }
        if str_eq(keycmd_str, "openFile") {
            return E_Cmd::OpenFile(OpenFileType::Normal);
        }
        if str_eq(keycmd_str, "encoding") {
            return E_Cmd::Encoding;
        }
        if str_eq(keycmd_str, "closeAllFile") {
            return E_Cmd::CloseAllFile;
        }
        if str_eq(keycmd_str, "saveFile") {
            return E_Cmd::SaveFile;
        }
        if str_eq(keycmd_str, "startEndRecordKey") {
            return E_Cmd::StartEndRecordKey;
        }
        if str_eq(keycmd_str, "execRecordKey") {
            return E_Cmd::ExecRecordKey;
        }
        if str_eq(keycmd_str, "mouseOpeSwitch") {
            return E_Cmd::MouseModeSwitch;
        }
        if str_eq(keycmd_str, "help") {
            return E_Cmd::Help;
        }
        if str_eq(keycmd_str, "openMenuFile") {
            return E_Cmd::OpenMenuFile;
        }
        if str_eq(keycmd_str, "openMenuConvert") {
            return E_Cmd::OpenMenuConvert;
        }
        if str_eq(keycmd_str, "openMenuEdit") {
            return E_Cmd::OpenMenuEdit;
        }
        if str_eq(keycmd_str, "openMenuSearch") {
            return E_Cmd::OpenMenuSearch;
        }
        if str_eq(keycmd_str, "cancelMode") {
            return E_Cmd::CancelState;
        }
        if str_eq(keycmd_str, "contextMenu") {
            return E_Cmd::CtxtMenu(USIZE_UNDEFINED, USIZE_UNDEFINED);
        }
        if str_eq(keycmd_str, "switchTabLeft") {
            return E_Cmd::SwitchTabLeft;
        }
        if str_eq(keycmd_str, "switchTabRight") {
            return E_Cmd::SwitchTabRight;
        }
        if str_eq(keycmd_str, "inputComplement") {
            return E_Cmd::InputComple;
        }
        if str_eq(keycmd_str, "scale") {
            return E_Cmd::SwitchDispScale;
        }
        if str_eq(keycmd_str, "rowNo") {
            return E_Cmd::SwitchDispRowNo;
        }
        E_Cmd::Null
    }

    /// The prompt command a command word names (`Unsupported` for unknown words).
    fn to_prom_cmd(keycmd_str: &str) -> (c: KeyCmd)
        ensures
            is_prom_cmd_of_str(c, keycmd_str@),
    {
        if str_eq(keycmd_str, "cursorLeft") {
            return KeyCmd::Prom(P_Cmd::CursorLeft);
        }
        if str_eq(keycmd_str, "cursorRight") {
            return KeyCmd::Prom(P_Cmd::CursorRight);
        }
        if str_eq(keycmd_str, "cursorUp") {
            return KeyCmd::Prom(P_Cmd::CursorUp);
        }
        if str_eq(keycmd_str, "cursorDown") {
            return KeyCmd::Prom(P_Cmd::CursorDown);
        }
        if str_eq(keycmd_str, "cursorRowHome") {
            return KeyCmd::Prom(P_Cmd::CursorRowHome);
        }
        if str_eq(keycmd_str, "cursorRowEnd") {
            return KeyCmd::Prom(P_Cmd::CursorRowEnd);
        }
        if str_eq(keycmd_str, "cursorLeftSelect") {
            return KeyCmd::Prom(P_Cmd::CursorLeftSelect);
        }
        if str_eq(keycmd_str, "cursorRightSelect") {
            return KeyCmd::Prom(P_Cmd::CursorRightSelect);
        }
        if str_eq(keycmd_str, "cursorRowHomeSelect") {
            return KeyCmd::Prom(P_Cmd::CursorRowHomeSelect);
        }
        if str_eq(keycmd_str, "cursorRowEndSelect") {
            return KeyCmd::Prom(P_Cmd::CursorRowEndSelect);
        }
        if str_eq(keycmd_str, "deleteNextChar") {
            return KeyCmd::Prom(P_Cmd::DelNextChar);
        }
        if str_eq(keycmd_str, "deletePrevChar") {
            return KeyCmd::Prom(P_Cmd::DelPrevChar);
        }
        if str_eq(keycmd_str, "paste") {
            return KeyCmd::Prom(P_Cmd::InsertStr(String::new()));
        }
        if str_eq(keycmd_str, "cutSelect") {
            return KeyCmd::Prom(P_Cmd::Cut);
        }
        if str_eq(keycmd_str, "copySelect") {
            return KeyCmd::Prom(P_Cmd::Copy);
        }
        if str_eq(keycmd_str, "undo") {
            return KeyCmd::Prom(P_Cmd::Undo);
        }
        if str_eq(keycmd_str, "redo") {
            return KeyCmd::Prom(P_Cmd::Redo);
        }
        if str_eq(keycmd_str, "findNextProm") {
            return KeyCmd::Prom(P_Cmd::FindNext);
        }
        if str_eq(keycmd_str, "findBackProm") {
            return KeyCmd::Prom(P_Cmd::FindBack);
        }
        if str_eq(keycmd_str, "escPrompt") {
            return KeyCmd::Prom(P_Cmd::Cancel);
        }
        if str_eq(keycmd_str, "confirmPrompt") {
            return KeyCmd::Prom(P_Cmd::Confirm);
        }
        if str_eq(keycmd_str, "nextContent") {
            return KeyCmd::Prom(P_Cmd::NextContent);
        }
        if str_eq(keycmd_str, "backContent") {
            return KeyCmd::Prom(P_Cmd::BackContent);
        }
        if str_eq(keycmd_str, "findCaseSensitive") {
            return KeyCmd::Prom(P_Cmd::FindCaseSensitive);
        }
        if str_eq(keycmd_str, "findRegex") {
            return KeyCmd::Prom(P_Cmd::FindRegex);
        }
        if str_eq(keycmd_str, "closeFile") {
            return KeyCmd::Prom(P_Cmd::CloseFile);
        }
        KeyCmd::Unsupported
    }

    /// The command that a key-binding file's command word and focus word name.
    pub fn cmd_when_to_keycmd(keycmd_str: &str, keywhen_str: &str) -> (c: KeyCmd)
        ensures
            is_keycmd_of(c, keycmd_str@, keywhen_str@),
    {
        if str_eq(keywhen_str, "headerBarFocus") {
            KeyCmd::Unsupported
        } else if str_eq(keywhen_str, "promptFocus") {
            KeyCmd::to_prom_cmd(keycmd_str)
        } else if str_eq(keywhen_str, "editorFocus") {
            let cmd = KeyCmd::to_edit_cmd(keycmd_str);
            if matches!(cmd, E_Cmd::Null) {
                KeyCmd::Unsupported
            } else {
                proof {
                    if is_edit_cmd_of_str(E_Cmd::Null, keycmd_str@) {
                        lemma_edit_cmd_of_str_unique(E_Cmd::Null, cmd, keycmd_str@);
                    }
                }
                KeyCmd::Edit(cmd)
            }
        } else {
            KeyCmd::Null
        }
    }
}

/// The editor's drag command from row `y_org`, column `x_org` to row `y`, column `x`: up,
/// down, or (on the same row) right when the column grows or reaches the terminal's last
/// column `term_width`, left otherwise.
pub open spec fn edit_drag(y: u16, x: u16, y_org: u16, x_org: u16, term_width: u16) -> E_Cmd {
    if y < y_org {
        E_Cmd::MouseDragLeftUp(y as usize, x as usize)
    } else if y > y_org {
        E_Cmd::MouseDragLeftDown(y as usize, x as usize)
    } else if x > x_org || x == term_width {
        E_Cmd::MouseDragLeftRight(y as usize, x as usize)
    } else {
        E_Cmd::MouseDragLeftLeft(y as usize, x as usize)
    }
}

/// The file bar's drag command, decided as the editor's.
pub open spec fn file_bar_drag(y: u16, x: u16, y_org: u16, x_org: u16, term_width: u16) -> F_Cmd {
    if y < y_org {
        F_Cmd::MouseDragLeftUp(y as usize, x as usize)
    } else if y > y_org {
        F_Cmd::MouseDragLeftDown(y as usize, x as usize)
    } else if x > x_org || x == term_width {
        F_Cmd::MouseDragLeftRight(y as usize, x as usize)
    } else {
        F_Cmd::MouseDragLeftLeft(y as usize, x as usize)
    }
}

/// The position of the press or drag before a drag, if the earlier event was one.
pub open spec fn drag_origin(keys_org: Option<Keys>) -> Option<(u16, u16)> {
    match keys_org {
        Some(Keys::MouseDragLeft(y, x)) => Some((y, x)),
        Some(Keys::MouseDownLeft(y, x)) => Some((y, x)),
        _ => None,
    }
}

/// Is `c` the command of a key or mouse event that no binding names, where `keywhen` has the
/// focus? Each part of the screen takes the mouse events it handles, the editor and prompt
/// also characters (upper case with Shift) and resizes; every other event is `Unsupported`.
pub open spec fn is_unbound_keycmd(c: KeyCmd, keys: Keys, keys_org: Option<Keys>, keywhen: KeyWhen, term_width: u16) -> bool {
    match keywhen {
        KeyWhen::FileBar => match keys {
            Keys::MouseDownLeft(y, x) => c == KeyCmd::FileBar(F_Cmd::MouseDownLeft(y as usize, x as usize)),
            Keys::MouseUpLeft(y, x) => c == KeyCmd::FileBar(F_Cmd::MouseUpLeft(y as usize, x as usize)),
            Keys::MouseDragLeft(y, x) => match drag_origin(keys_org) {
                Some(o) => c == KeyCmd::FileBar(file_bar_drag(y, x, o.0, o.1, term_width)),
                None => c == KeyCmd::Unsupported,
            },
            _ => c == KeyCmd::Unsupported,
        },
        KeyWhen::StatusBar => match keys {
            Keys::MouseDownLeft(y, x) => c == KeyCmd::StatusBar(S_Cmd::MouseDownLeft(y as usize, x as usize)),
            _ => c == KeyCmd::Unsupported,
        },
        KeyWhen::Editor => match keys {
            Keys::Resize(x, y) => c == KeyCmd::Edit(E_Cmd::Resize(x as usize, y as usize)),
            Keys::Shift(Key::Char(ch)) => c matches KeyCmd::Edit(E_Cmd::InsertStr(s)) && s@ == seq![ascii_upper(ch)],
            Keys::Raw(Key::Char(ch)) => c matches KeyCmd::Edit(E_Cmd::InsertStr(s)) && s@ == seq![ch],
            Keys::MouseAltDownLeft(y, x) => c == KeyCmd::Edit(E_Cmd::MouseDownLeftBox(y as usize, x as usize)),
            Keys::MouseAltDragLeft(y, x) => c == KeyCmd::Edit(E_Cmd::MouseDragLeftBox(y as usize, x as usize)),
            Keys::MouseDownLeft(y, x) => c == KeyCmd::Edit(E_Cmd::MouseDownLeft(y as usize, x as usize)),
            Keys::MouseUpLeft(y, x) => c == KeyCmd::Edit(E_Cmd::MouseUpLeft(y as usize, x as usize)),
            Keys::MouseDragLeft(y, x) => match drag_origin(keys_org) {
                Some(o) => c == KeyCmd::Edit(edit_drag(y, x, o.0, o.1, term_width)),
                None => c == KeyCmd::Unsupported,
            },
            Keys::MouseDownRight(y, x) => c == KeyCmd::Edit(E_Cmd::CtxtMenu(y as usize, x as usize)),
            Keys::MouseDragRight(y, x) => c == KeyCmd::Edit(E_Cmd::CtxtMenu(y as usize, x as usize)),
            Keys::MouseMove(y, x) => c == KeyCmd::Edit(E_Cmd::MouseMove(y as usize, x as usize)),
            _ => c == KeyCmd::Unsupported,
        },
        KeyWhen::Prom => match keys {
            Keys::Resize(x, y) => c == KeyCmd::Prom(P_Cmd::Resize(x as usize, y as usize)),
            Keys::Shift(Key::Char(ch)) => c matches KeyCmd::Prom(P_Cmd::InsertStr(s)) && s@ == seq![ascii_upper(ch)],
            Keys::Raw(Key::Char(ch)) => c matches KeyCmd::Prom(P_Cmd::InsertStr(s)) && s@ == seq![ch],
            Keys::MouseDownLeft(y, x) => c == KeyCmd::Prom(P_Cmd::MouseDownLeft(y as usize, x as usize)),
            Keys::MouseDragLeft(y, x) => c == KeyCmd::Prom(P_Cmd::MouseDragLeft(y as usize, x as usize)),
            _ => c == KeyCmd::Unsupported,
        },
        KeyWhen::CtxMenu => match keys {
            Keys::MouseDownLeft(y, x) => c == KeyCmd::CtxMenu(C_Cmd::MouseDownLeft(y as usize, x as usize)),
            Keys::MouseDownRight(y, x) => c == KeyCmd::CtxMenu(C_Cmd::CtxMenu(y as usize, x as usize)),
            Keys::MouseDragRight(_, _) => c == KeyCmd::CtxMenu(C_Cmd::Null),
            Keys::MouseMove(y, x) => c == KeyCmd::CtxMenu(C_Cmd::MouseMove(y as usize, x as usize)),
            _ => c == KeyCmd::Unsupported,
        },
        _ => c == KeyCmd::Unsupported,
    }
}

/// A one-character string.
fn one_char(c: char) -> (s: String)
    ensures
        s@ == seq![c],
{
    let mut s = String::new();
    s.push(c);
    s
}

/// An optional event, read through its reference.
pub open spec fn opt_keys(k: Option<&Keys>) -> Option<Keys> {
    match k {
        Some(k) => Some(*k),
        None => None,
    }
}

impl Keybind {
    /// The command of a key press or mouse event where `keywhen` has the focus. `bound` is
    /// what the key bindings give the event for this focus; a bound command other than
    /// `Unsupported` is the answer, otherwise the part of the screen decides by the event
    /// itself. `term_width` is the width of the terminal.
    pub fn keys_to_keycmd_pressed(keys: &Keys, keys_org_opt: Option<&Keys>, keywhen: KeyWhen, bound: Option<KeyCmd>, term_width: u16) -> (c: KeyCmd)
        ensures
            (bound matches Some(b) && !(b is Unsupported)) ==> Some(c) == bound,
            !(bound matches Some(b) && !(b is Unsupported)) ==> is_unbound_keycmd(c, *keys, opt_keys(keys_org_opt), keywhen, term_width),
    {
        if let Some(b) = bound {
            if !matches!(b, KeyCmd::Unsupported) {
                return b;
            }
        }
        let org: Option<(u16, u16)> = match keys_org_opt {
            Some(Keys::MouseDragLeft(y_org, x_org)) | Some(Keys::MouseDownLeft(y_org, x_org)) => Some((*y_org, *x_org)),
            _ => None,
        };
        match keywhen {
            KeyWhen::FileBar => match keys {
                Keys::MouseDownLeft(y, x) => KeyCmd::FileBar(F_Cmd::MouseDownLeft(*y as usize, *x as usize)),
                Keys::MouseUpLeft(y, x) => KeyCmd::FileBar(F_Cmd::MouseUpLeft(*y as usize, *x as usize)),
                Keys::MouseDragLeft(y, x) => match org {
                    Some((y_org, x_org)) => {
                        let (y, x) = (*y, *x);
                        if y < y_org {
                            KeyCmd::FileBar(F_Cmd::MouseDragLeftUp(y as usize, x as usize))
                        } else if y > y_org {
                            KeyCmd::FileBar(F_Cmd::MouseDragLeftDown(y as usize, x as usize))
                        } else if x > x_org || x == term_width {
                            KeyCmd::FileBar(F_Cmd::MouseDragLeftRight(y as usize, x as usize))
                        } else {
                            KeyCmd::FileBar(F_Cmd::MouseDragLeftLeft(y as usize, x as usize))
                        }
                    },
                    None => KeyCmd::Unsupported,
                },
                _ => KeyCmd::Unsupported,
            },
            KeyWhen::StatusBar => match keys {
                Keys::MouseDownLeft(y, x) => KeyCmd::StatusBar(S_Cmd::MouseDownLeft(*y as usize, *x as usize)),
                _ => KeyCmd::Unsupported,
            },
            KeyWhen::Editor => match keys {
                Keys::Resize(x, y) => KeyCmd::Edit(E_Cmd::Resize(*x as usize, *y as usize)),
                Keys::Shift(Key::Char(ch)) => KeyCmd::Edit(E_Cmd::InsertStr(one_char(to_ascii_upper(*ch)))),
                Keys::Raw(Key::Char(ch)) => KeyCmd::Edit(E_Cmd::InsertStr(one_char(*ch))),
                Keys::MouseAltDownLeft(y, x) => KeyCmd::Edit(E_Cmd::MouseDownLeftBox(*y as usize, *x as usize)),
                Keys::MouseAltDragLeft(y, x) => KeyCmd::Edit(E_Cmd::MouseDragLeftBox(*y as usize, *x as usize)),
                Keys::MouseDownLeft(y, x) => KeyCmd::Edit(E_Cmd::MouseDownLeft(*y as usize, *x as usize)),
                Keys::MouseUpLeft(y, x) => KeyCmd::Edit(E_Cmd::MouseUpLeft(*y as usize, *x as usize)),
                Keys::MouseDragLeft(y, x) => match org {
                    Some((y_org, x_org)) => {
                        let (y, x) = (*y, *x);
                        if y < y_org {
                            KeyCmd::Edit(E_Cmd::MouseDragLeftUp(y as usize, x as usize))
                        } else if y > y_org {
                            KeyCmd::Edit(E_Cmd::MouseDragLeftDown(y as usize, x as usize))
                        } else if x > x_org || x == term_width {
                            KeyCmd::Edit(E_Cmd::MouseDragLeftRight(y as usize, x as usize))
                        } else {
                            KeyCmd::Edit(E_Cmd::MouseDragLeftLeft(y as usize, x as usize))
                        }
                    },
                    None => KeyCmd::Unsupported,
                },
                Keys::MouseDownRight(y, x) | Keys::MouseDragRight(y, x) => KeyCmd::Edit(E_Cmd::CtxtMenu(*y as usize, *x as usize)),
                Keys::MouseMove(y, x) => KeyCmd::Edit(E_Cmd::MouseMove(*y as usize, *x as usize)),
                _ => KeyCmd::Unsupported,
            },
            KeyWhen::Prom => match keys {
                Keys::Resize(x, y) => KeyCmd::Prom(P_Cmd::Resize(*x as usize, *y as usize)),
                Keys::Shift(Key::Char(ch)) => KeyCmd::Prom(P_Cmd::InsertStr(one_char(to_ascii_upper(*ch)))),
                Keys::Raw(Key::Char(ch)) => KeyCmd::Prom(P_Cmd::InsertStr(one_char(*ch))),
                Keys::MouseDownLeft(y, x) => KeyCmd::Prom(P_Cmd::MouseDownLeft(*y as usize, *x as usize)),
                Keys::MouseDragLeft(y, x) => KeyCmd::Prom(P_Cmd::MouseDragLeft(*y as usize, *x as usize)),
                _ => KeyCmd::Unsupported,
            },
            KeyWhen::CtxMenu => match keys {
                Keys::MouseDownLeft(y, x) => KeyCmd::CtxMenu(C_Cmd::MouseDownLeft(*y as usize, *x as usize)),
                Keys::MouseDownRight(y, x) => KeyCmd::CtxMenu(C_Cmd::CtxMenu(*y as usize, *x as usize)),
                Keys::MouseDragRight(_, _) => KeyCmd::CtxMenu(C_Cmd::Null),
                Keys::MouseMove(y, x) => KeyCmd::CtxMenu(C_Cmd::MouseMove(*y as usize, *x as usize)),
                _ => KeyCmd::Unsupported,
            },
            _ => KeyCmd::Unsupported,
        }
    }
}

/// Is `k` a prompt cursor movement?
pub open spec fn is_prom_cursor_move(k: KeyCmd) -> bool {
    ||| k == KeyCmd::Prom(P_Cmd::CursorLeft)
    ||| k == KeyCmd::Prom(P_Cmd::CursorRight)
    ||| k == KeyCmd::Prom(P_Cmd::CursorUp)
    ||| k == KeyCmd::Prom(P_Cmd::CursorDown)
}

impl Direction {
    /// The direction of a prompt cursor movement.
    pub fn keycmd_to_curdirection(keycmd: &KeyCmd) -> (d: Direction)
        requires
            is_prom_cursor_move(*keycmd),
        ensures
            *keycmd == KeyCmd::Prom(P_Cmd::CursorLeft) ==> d == Direction::Left,
            *keycmd == KeyCmd::Prom(P_Cmd::CursorRight) ==> d == Direction::Right,
            *keycmd == KeyCmd::Prom(P_Cmd::CursorUp) ==> d == Direction::Up,
            *keycmd == KeyCmd::Prom(P_Cmd::CursorDown) ==> d == Direction::Down,
    {
        match keycmd {
            KeyCmd::Prom(P_Cmd::CursorLeft) => Direction::Left,
            KeyCmd::Prom(P_Cmd::CursorRight) => Direction::Right,
            KeyCmd::Prom(P_Cmd::CursorUp) => Direction::Up,
            _ => Direction::Down,
        }
    }
}

/// How the editor treats an editor command: whether it edits the text and whether it is
/// recorded in a key macro.
#[derive(Debug, Default, Clone, Copy, PartialEq, Eq, Structural)]
#[allow(non_camel_case_types)]
pub struct E_CmdConfig {
    pub is_edit: bool,
    pub is_record: bool,
}

/// Does the editor command edit the text? Insertions, deletions, cuts, undo and redo do, and
/// so do the replace and encoding prompts.
pub open spec fn e_cmd_is_edit(e: E_Cmd) -> bool {
    match e {
        E_Cmd::InsertStr(_) | E_Cmd::InsertRow | E_Cmd::Cut | E_Cmd::DelPrevChar | E_Cmd::DelNextChar
        | E_Cmd::InsertBox(_) | E_Cmd::DelBox(_) | E_Cmd::Undo | E_Cmd::Redo | E_Cmd::ReplacePrompt
        | E_Cmd::Encoding => true,
        _ => false,
    }
}

/// Is the editor command recorded in a key macro? Edits, undo and redo, cursor movements (with
/// or without selection), find next and back, copy and select-all are.
pub open spec fn e_cmd_is_record(e: E_Cmd) -> bool {
    match e {
        E_Cmd::InsertStr(_) | E_Cmd::InsertRow | E_Cmd::Cut | E_Cmd::DelPrevChar | E_Cmd::DelNextChar
        | E_Cmd::InsertBox(_) | E_Cmd::DelBox(_) | E_Cmd::Undo | E_Cmd::Redo | E_Cmd::CursorLeft
        | E_Cmd::CursorRight | E_Cmd::CursorUp | E_Cmd::CursorDown | E_Cmd::CursorRowHome | E_Cmd::CursorRowEnd
        | E_Cmd::CursorFileHome | E_Cmd::CursorFileEnd | E_Cmd::CursorPageDown | E_Cmd::CursorPageUp
        | E_Cmd::FindNext | E_Cmd::FindBack | E_Cmd::CursorLeftSelect | E_Cmd::CursorRightSelect
        | E_Cmd::CursorUpSelect | E_Cmd::CursorDownSelect | E_Cmd::CursorRowHomeSelect
        | E_Cmd::CursorRowEndSelect | E_Cmd::Copy | E_Cmd::AllSelect => true,
        _ => false,
    }
}

impl E_CmdConfig {
    /// How the editor treats `e_cmd`.
    pub fn new(e_cmd: &E_Cmd) -> (c: E_CmdConfig)
        ensures
            c.is_edit == e_cmd_is_edit(*e_cmd),
            c.is_record == e_cmd_is_record(*e_cmd),
    {
        match e_cmd {
            E_Cmd::InsertStr(_) | E_Cmd::InsertRow | E_Cmd::Cut | E_Cmd::DelPrevChar | E_Cmd::DelNextChar
            | E_Cmd::InsertBox(_) | E_Cmd::DelBox(_) => E_CmdConfig { is_edit: true, is_record: true },
            E_Cmd::CursorLeft | E_Cmd::CursorRight | E_Cmd::CursorUp | E_Cmd::CursorDown | E_Cmd::CursorRowHome
            | E_Cmd::CursorRowEnd | E_Cmd::CursorFileHome | E_Cmd::CursorFileEnd | E_Cmd::CursorPageDown
            | E_Cmd::CursorPageUp | E_Cmd::FindNext | E_Cmd::FindBack => E_CmdConfig { is_edit: false, is_record: true },
            E_Cmd::CursorLeftSelect | E_Cmd::CursorRightSelect | E_Cmd::CursorUpSelect | E_Cmd::CursorDownSelect
            | E_Cmd::CursorRowHomeSelect | E_Cmd::CursorRowEndSelect => E_CmdConfig { is_edit: false, is_record: true },
            E_Cmd::Copy | E_Cmd::AllSelect => E_CmdConfig { is_edit: false, is_record: true },
            E_Cmd::ReplacePrompt | E_Cmd::Encoding => E_CmdConfig { is_edit: true, is_record: false },
            E_Cmd::CtxtMenu(_, _) => E_CmdConfig { is_edit: false, is_record: false },
            E_Cmd::MouseDownLeft(_, _) | E_Cmd::MouseUpLeft(_, _) | E_Cmd::MouseDragLeftLeft(_, _)
            | E_Cmd::MouseDragLeftRight(_, _) | E_Cmd::MouseDragLeftUp(_, _) | E_Cmd::MouseDragLeftDown(_, _)
            | E_Cmd::MouseScrollUp | E_Cmd::MouseScrollDown => E_CmdConfig { is_edit: false, is_record: false },
            E_Cmd::Undo | E_Cmd::Redo => E_CmdConfig { is_edit: true, is_record: true },
            _ => E_CmdConfig { is_edit: false, is_record: false },
        }
    }
}

impl Keybind {
    /// The keys a terminal input event stands for (see `keys_of_event`).
    pub fn evt_to_keys(evt: &TermEvent) -> (k: Keys)
        ensures
            k == keys_of_event(*evt),
    {
        match *evt {
            TermEvent::Key { code, modifiers } => {
                let inner = key_from_code(code);
                if modifiers == MODIFIER_CONTROL {
                    Keys::Ctrl(inner)
                } else if modifiers == MODIFIER_ALT {
                    Keys::Alt(inner)
                } else if modifiers == MODIFIER_SHIFT {
                    Keys::Shift(inner)
                } else if modifiers == 0 {
                    Keys::Raw(inner)
                } else {
                    Keys::Unsupported
                }
            },
            TermEvent::Mouse { kind, column, row, modifiers } => match kind {
                TermMouseKind::Down(TermMouseButton::Left) => if modifiers == MODIFIER_ALT {
                    Keys::MouseAltDownLeft(row, column)
                } else {
                    Keys::MouseDownLeft(row, column)
                },
                TermMouseKind::Drag(TermMouseButton::Left) => if modifiers == MODIFIER_ALT {
                    Keys::MouseAltDragLeft(row, column)
                } else {
                    Keys::MouseDragLeft(row, column)
                },
                TermMouseKind::Up(TermMouseButton::Left) => Keys::MouseUpLeft(row, column),
                TermMouseKind::Down(TermMouseButton::Right) => Keys::MouseDownRight(row, column),
                TermMouseKind::Drag(TermMouseButton::Right) => Keys::MouseDragRight(row, column),
                TermMouseKind::ScrollUp => Keys::MouseScrollUp,
                TermMouseKind::ScrollDown => Keys::MouseScrollDown,
                TermMouseKind::Moved => Keys::MouseMove(row, column),
                _ => Keys::Null,
            },
            TermEvent::Resize(x, y) => Keys::Resize(x, y),
        }
    }
}

} // verus!
