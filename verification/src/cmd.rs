//! Commands and the key presses, mouse events and setting words that select them.
use crate::def::{TAB_CHAR, USIZE_UNDEFINED};
use crate::keys::{Key, KeyWhen, Keys};
use crate::model::{Direction, FileType, OpenFileType, SelRange};
use crate::text::str_eq;
use std::collections::BTreeSet;
use vstd::prelude::*;

verus! {

/// How the editor area is split into windows.
#[derive(Debug, Clone, Copy, PartialEq, Eq, Hash, Structural)]
pub enum WindowSplitType {
    NotSplit,
    Vertical,
    Horizontal,
}

impl Default for WindowSplitType {
    fn default() -> (t: WindowSplitType)
        ensures
            t == WindowSplitType::NotSplit,
    {
        WindowSplitType::NotSplit
    }
}

/// What a command does.
#[derive(Debug, Clone, Default, PartialEq, Eq, Hash)]
#[allow(non_camel_case_types)]
pub enum CmdType {
    InsertStr(String),
    Cut,
    DelNextChar,
    DelPrevChar,
    Copy,
    Undo,
    Redo,
    InsertBox(Vec<(SelRange, String)>),
    DelBox(Vec<(SelRange, String)>),
    CursorLeft,
    CursorRight,
    CursorUp,
    CursorDown,
    CursorRowHome,
    CursorRowEnd,
    CursorLeftSelect,
    CursorRightSelect,
    CursorUpSelect,
    CursorDownSelect,
    CursorRowHomeSelect,
    CursorRowEndSelect,
    CursorFileHome,
    CursorFileEnd,
    AllSelect,
    CursorPageUp,
    CursorPageDown,
    FindNext,
    FindBack,
    MouseDownLeft(usize, usize),
    MouseUpLeft(usize, usize),
    MouseDragLeftUp(usize, usize),
    MouseDragLeftDown(usize, usize),
    MouseDragLeftLeft(usize, usize),
    MouseDragLeftRight(usize, usize),
    MouseDownLeftBox(usize, usize),
    MouseDragLeftBox(usize, usize),
    MouseMove(usize, usize),
    MouseScrollUp,
    MouseScrollDown,
    Resize(usize, usize),
    Confirm,
    CancelProm,
    NextContent,
    BackContent,
    FindCaseSensitive,
    FindRegex,
    ReOpenFile,
    CloseFile,
    Unsupported,
    BoxSelectModeStart,
    BoxSelectMode,
    InsertRow,
    CreateNewFile,
    CloseAllFile,
    SaveFile,
    Format(FileType),
    RecordKeyStartEnd,
    ExecRecordKey,
    MouseModeSwitch,
    Help,
    HelpInitDisplaySwitch,
    OpenMenuFile,
    OpenMenuConvert,
    OpenMenuEdit,
    OpenMenuSearch,
    OpenMenuMacro,
    SwitchTab(Direction),
    CancelEditorState,
    CtxtMenu(usize, usize),
    InputComple,
    SwitchDispScale,
    SwitchDispRowNo,
    FindProm,
    ReplaceProm,
    ReplaceExec(String, String, BTreeSet<usize>),
    MoveRowProm,
    GrepProm,
    GrepingProm,
    GrepResultProm,
    EncodingProm,
    openFileProm(OpenFileType),
    SaveNewFile,
    Saveforced,
    WatchFileResult,
    MenuWidget(usize, usize),
    CtxMenu(usize, usize),
    WindowSplit(WindowSplitType),
    #[default]
    Null,
}

/// How the editor treats a command: whether it edits the text, is recorded in a key macro,
/// and makes the scrollbars be recalculated.
#[derive(Debug, Clone, Copy, Default, PartialEq, Eq, Hash, Structural)]
pub struct CmdConfig {
    pub is_edit: bool,
    pub is_record: bool,
    pub is_recalc_scrl: bool,
}

/// A command with where it applies and how it is treated.
#[derive(Debug, Clone, Default, PartialEq, Eq, Hash)]
pub struct Cmd {
    pub cmd_type: CmdType,
    pub config: CmdConfig,
    pub when_vec: Vec<KeyWhen>,
}

/// Does `t` stand for the setting word `s`? Every word names one command type; unknown words
/// name `Unsupported`, `paste` inserts an empty string (the clipboard is read later), and
/// `openMenuMacro` opens the search menu.
pub open spec fn is_cmd_type_of_str(t: CmdType, s: Seq<char>) -> bool {
    if s == "undo"@ {
        t == CmdType::Undo
    } else if s == "redo"@ {
        t == CmdType::Redo
    } else if s == "deleteNextChar"@ {
        t == CmdType::DelNextChar
    } else if s == "deletePrevChar"@ {
        t == CmdType::DelPrevChar
    } else if s == "cursorLeft"@ {
        t == CmdType::CursorLeft
    } else if s == "cursorRight"@ {
        t == CmdType::CursorRight
    } else if s == "cursorUp"@ {
        t == CmdType::CursorUp
    } else if s == "cursorDown"@ {
        t == CmdType::CursorDown
    } else if s == "cursorRowHome"@ {
        t == CmdType::CursorRowHome
    } else if s == "cursorRowEnd"@ {
        t == CmdType::CursorRowEnd
    } else if s == "cursorLeftSelect"@ {
        t == CmdType::CursorLeftSelect
    } else if s == "cursorRightSelect"@ {
        t == CmdType::CursorRightSelect
    } else {
        is_cmd_type_of_str_1(t, s)
    }
}

/// The remaining setting words of `is_cmd_type_of_str`.
pub open spec fn is_cmd_type_of_str_1(t: CmdType, s: Seq<char>) -> bool {
    if s == "cursorUpSelect"@ {
        t == CmdType::CursorUpSelect
    } else if s == "cursorDownSelect"@ {
        t == CmdType::CursorDownSelect
    } else if s == "cursorRowHomeSelect"@ {
        t == CmdType::CursorRowHomeSelect
    } else if s == "cursorRowEndSelect"@ {
        t == CmdType::CursorRowEndSelect
    } else if s == "cursorFileHome"@ {
        t == CmdType::CursorFileHome
    } else if s == "cursorFileEnd"@ {
        t == CmdType::CursorFileEnd
    } else if s == "cursorPageUp"@ {
        t == CmdType::CursorPageUp
    } else if s == "cursorPageDown"@ {
        t == CmdType::CursorPageDown
    } else if s == "paste"@ {
        t matches CmdType::InsertStr(x) && x@.len() == 0
    } else if s == "cut"@ {
        t == CmdType::Cut
    } else if s == "copy"@ {
        t == CmdType::Copy
    } else if s == "findNext"@ {
        t == CmdType::FindNext
    } else {
        is_cmd_type_of_str_2(t, s)
    }
}

/// The remaining setting words of `is_cmd_type_of_str`.
pub open spec fn is_cmd_type_of_str_2(t: CmdType, s: Seq<char>) -> bool {
    if s == "findBack"@ {
        t == CmdType::FindBack
    } else if s == "cancelPrompt"@ {
        t == CmdType::CancelProm
    } else if s == "confirmPrompt"@ {
        t == CmdType::Confirm
    } else if s == "nextContent"@ {
        t == CmdType::NextContent
    } else if s == "backContent"@ {
        t == CmdType::BackContent
    } else if s == "findCaseSensitive"@ {
        t == CmdType::FindCaseSensitive
    } else if s == "findRegex"@ {
        t == CmdType::FindRegex
    } else if s == "closeFile"@ {
        t == CmdType::CloseFile
    } else if s == "allSelect"@ {
        t == CmdType::AllSelect
    } else if s == "boxSelectModeStart"@ {
        t == CmdType::BoxSelectModeStart
    } else if s == "insertLine"@ {
        t == CmdType::InsertRow
    } else if s == "createNewFile"@ {
        t == CmdType::CreateNewFile
    } else {
        is_cmd_type_of_str_3(t, s)
    }
}

/// The remaining setting words of `is_cmd_type_of_str`.
pub open spec fn is_cmd_type_of_str_3(t: CmdType, s: Seq<char>) -> bool {
    if s == "closeAllFile"@ {
        t == CmdType::CloseAllFile
    } else if s == "saveFile"@ {
        t == CmdType::SaveFile
    } else if s == "save_as"@ {
        t == CmdType::SaveNewFile
    } else if s == "formatJSON"@ {
        t == CmdType::Format(FileType::JSON)
    } else if s == "formatXML"@ {
        t == CmdType::Format(FileType::XML)
    } else if s == "formatHTML"@ {
        t == CmdType::Format(FileType::HTML)
    } else if s == "startEndRecordKey"@ {
        t == CmdType::RecordKeyStartEnd
    } else if s == "execRecordKey"@ {
        t == CmdType::ExecRecordKey
    } else if s == "mouseModeSwitch"@ {
        t == CmdType::MouseModeSwitch
    } else if s == "help"@ {
        t == CmdType::Help
    } else if s == "helpInitDisplaySwitch"@ {
        t == CmdType::HelpInitDisplaySwitch
    } else if s == "openMenuFile"@ {
        t == CmdType::OpenMenuFile
    } else {
        is_cmd_type_of_str_4(t, s)
    }
}

/// The remaining setting words of `is_cmd_type_of_str`.
pub open spec fn is_cmd_type_of_str_4(t: CmdType, s: Seq<char>) -> bool {
    if s == "openMenuConvert"@ {
        t == CmdType::OpenMenuConvert
    } else if s == "openMenuEdit"@ {
        t == CmdType::OpenMenuEdit
    } else if s == "openMenuSearch"@ {
        t == CmdType::OpenMenuSearch
    } else if s == "openMenuMacro"@ {
        t == CmdType::OpenMenuSearch
    } else if s == "switchTabLeft"@ {
        t == CmdType::SwitchTab(Direction::Left)
    } else if s == "switchTabRight"@ {
        t == CmdType::SwitchTab(Direction::Right)
    } else if s == "cancelEditorState"@ {
        t == CmdType::CancelEditorState
    } else if s == "contextMenu"@ {
        t == CmdType::CtxtMenu(USIZE_UNDEFINED, USIZE_UNDEFINED)
    } else if s == "inputComplement"@ {
        t == CmdType::InputComple
    } else if s == "scale"@ {
        t == CmdType::SwitchDispScale
    } else if s == "rowNo"@ {
        t == CmdType::SwitchDispRowNo
    } else if s == "findPrompt"@ {
        t == CmdType::FindProm
    } else {
        is_cmd_type_of_str_5(t, s)
    }
}

/// The remaining setting words of `is_cmd_type_of_str`.
pub open spec fn is_cmd_type_of_str_5(t: CmdType, s: Seq<char>) -> bool {
    if s == "replacePrompt"@ {
        t == CmdType::ReplaceProm
    } else if s == "moveLinePrompt"@ {
        t == CmdType::MoveRowProm
    } else if s == "grepPrompt"@ {
        t == CmdType::GrepProm
    } else if s == "encodingPrompt"@ {
        t == CmdType::EncodingProm
    } else if s == "openFilePrompt"@ {
        t == CmdType::openFileProm(OpenFileType::Normal)
    } else if s == "windowSplitVertical"@ {
        t == CmdType::WindowSplit(WindowSplitType::Vertical)
    } else if s == "windowSplitHorizontal"@ {
        t == CmdType::WindowSplit(WindowSplitType::Horizontal)
    } else {
        t == CmdType::Unsupported
    }
}

/// Where a command applies.
pub open spec fn cmd_when(t: CmdType) -> Seq<KeyWhen> {
    match t {
        CmdType::InsertStr(_) | CmdType::Cut | CmdType::InsertRow | CmdType::DelNextChar | CmdType::DelPrevChar | CmdType::Undo | CmdType::Redo | CmdType::InsertBox(_) | CmdType::DelBox(_) | CmdType::ReplaceExec(_, _, _) | CmdType::Format(_) => seq![KeyWhen::Editor, KeyWhen::Prom],
        CmdType::RecordKeyStartEnd => seq![],
        CmdType::ExecRecordKey => seq![KeyWhen::Editor],
        CmdType::CursorLeft | CmdType::CursorRight | CmdType::CursorUp | CmdType::CursorDown | CmdType::CursorRowHome | CmdType::CursorRowEnd | CmdType::CursorLeftSelect | CmdType::CursorRightSelect | CmdType::CursorRowHomeSelect | CmdType::CursorRowEndSelect => seq![KeyWhen::All],
        CmdType::CursorUpSelect | CmdType::CursorDownSelect | CmdType::CursorFileHome | CmdType::CursorFileEnd | CmdType::CursorPageUp | CmdType::CursorPageDown => seq![KeyWhen::Editor],
        CmdType::Copy | CmdType::AllSelect => seq![KeyWhen::Editor, KeyWhen::Prom],
        CmdType::MouseDownLeft(_, _) | CmdType::MouseUpLeft(_, _) | CmdType::MouseMove(_, _) | CmdType::MouseDragLeftUp(_, _) | CmdType::MouseDragLeftDown(_, _) | CmdType::MouseDragLeftLeft(_, _) | CmdType::MouseDragLeftRight(_, _) | CmdType::MouseDownLeftBox(_, _) | CmdType::MouseDragLeftBox(_, _) | CmdType::MouseScrollUp | CmdType::MouseScrollDown => seq![],
        CmdType::MouseModeSwitch | CmdType::BoxSelectMode | CmdType::BoxSelectModeStart | CmdType::CloseAllFile | CmdType::ReOpenFile | CmdType::HelpInitDisplaySwitch | CmdType::OpenMenuFile | CmdType::OpenMenuConvert | CmdType::OpenMenuEdit | CmdType::OpenMenuSearch | CmdType::OpenMenuMacro | CmdType::MenuWidget(_, _) | CmdType::CtxMenu(_, _) | CmdType::Null | CmdType::Unsupported => seq![],
        CmdType::CloseFile | CmdType::CtxtMenu(_, _) => seq![KeyWhen::All],
        CmdType::CreateNewFile | CmdType::InputComple | CmdType::CancelEditorState | CmdType::SaveFile | CmdType::SwitchTab(_) | CmdType::Help | CmdType::FindProm | CmdType::ReplaceProm | CmdType::MoveRowProm | CmdType::GrepProm | CmdType::GrepingProm | CmdType::GrepResultProm | CmdType::EncodingProm | CmdType::openFileProm(_) | CmdType::Saveforced | CmdType::WatchFileResult => seq![KeyWhen::Editor],
        CmdType::WindowSplit(_) => seq![KeyWhen::Editor],
        CmdType::SwitchDispScale | CmdType::SwitchDispRowNo | CmdType::Resize(_, _) => seq![],
        CmdType::SaveNewFile => seq![KeyWhen::MenuBar],
        CmdType::FindNext | CmdType::FindBack => seq![KeyWhen::Editor, KeyWhen::Prom],
        CmdType::FindCaseSensitive | CmdType::FindRegex | CmdType::CancelProm | CmdType::NextContent | CmdType::BackContent => seq![KeyWhen::Prom],
        CmdType::Confirm => seq![KeyWhen::MenuBar, KeyWhen::Prom, KeyWhen::CtxMenu],
    }
}

/// How a command is treated.
pub open spec fn cmd_config(t: CmdType) -> CmdConfig {
    match t {
        CmdType::InsertStr(_) | CmdType::Cut | CmdType::InsertRow | CmdType::DelNextChar | CmdType::DelPrevChar | CmdType::Undo | CmdType::Redo | CmdType::InsertBox(_) | CmdType::DelBox(_) | CmdType::ReplaceExec(_, _, _) | CmdType::Format(_) => CmdConfig { is_edit: true, is_record: true, is_recalc_scrl: true },
        CmdType::RecordKeyStartEnd => CmdConfig { is_edit: false, is_record: false, is_recalc_scrl: false },
        CmdType::ExecRecordKey => CmdConfig { is_edit: true, is_record: false, is_recalc_scrl: true },
        CmdType::CursorLeft | CmdType::CursorRight | CmdType::CursorUp | CmdType::CursorDown | CmdType::CursorRowHome | CmdType::CursorRowEnd | CmdType::CursorLeftSelect | CmdType::CursorRightSelect | CmdType::CursorRowHomeSelect | CmdType::CursorRowEndSelect => CmdConfig { is_edit: false, is_record: true, is_recalc_scrl: true },
        CmdType::CursorUpSelect | CmdType::CursorDownSelect | CmdType::CursorFileHome | CmdType::CursorFileEnd | CmdType::CursorPageUp | CmdType::CursorPageDown => CmdConfig { is_edit: false, is_record: true, is_recalc_scrl: true },
        CmdType::Copy | CmdType::AllSelect => CmdConfig { is_edit: false, is_record: true, is_recalc_scrl: false },
        CmdType::MouseDownLeft(_, _) | CmdType::MouseUpLeft(_, _) | CmdType::MouseMove(_, _) | CmdType::MouseDragLeftUp(_, _) | CmdType::MouseDragLeftDown(_, _) | CmdType::MouseDragLeftLeft(_, _) | CmdType::MouseDragLeftRight(_, _) | CmdType::MouseDownLeftBox(_, _) | CmdType::MouseDragLeftBox(_, _) | CmdType::MouseScrollUp | CmdType::MouseScrollDown => CmdConfig { is_edit: false, is_record: false, is_recalc_scrl: true },
        CmdType::MouseModeSwitch | CmdType::BoxSelectMode | CmdType::BoxSelectModeStart | CmdType::CloseAllFile | CmdType::ReOpenFile | CmdType::HelpInitDisplaySwitch | CmdType::OpenMenuFile | CmdType::OpenMenuConvert | CmdType::OpenMenuEdit | CmdType::OpenMenuSearch | CmdType::OpenMenuMacro | CmdType::MenuWidget(_, _) | CmdType::CtxMenu(_, _) | CmdType::Null | CmdType::Unsupported => CmdConfig { is_edit: false, is_record: false, is_recalc_scrl: false },
        CmdType::CloseFile | CmdType::CtxtMenu(_, _) => CmdConfig { is_edit: false, is_record: false, is_recalc_scrl: false },
        CmdType::CreateNewFile | CmdType::InputComple | CmdType::CancelEditorState | CmdType::SaveFile | CmdType::SwitchTab(_) | CmdType::Help | CmdType::FindProm | CmdType::ReplaceProm | CmdType::MoveRowProm | CmdType::GrepProm | CmdType::GrepingProm | CmdType::GrepResultProm | CmdType::EncodingProm | CmdType::openFileProm(_) | CmdType::Saveforced | CmdType::WatchFileResult => CmdConfig { is_edit: false, is_record: false, is_recalc_scrl: false },
        CmdType::WindowSplit(_) => CmdConfig { is_edit: false, is_record: false, is_recalc_scrl: true },
        CmdType::SwitchDispScale | CmdType::SwitchDispRowNo | CmdType::Resize(_, _) => CmdConfig { is_edit: false, is_record: false, is_recalc_scrl: true },
        CmdType::SaveNewFile => CmdConfig { is_edit: false, is_record: false, is_recalc_scrl: false },
        CmdType::FindNext | CmdType::FindBack => CmdConfig { is_edit: false, is_record: false, is_recalc_scrl: true },
        CmdType::FindCaseSensitive | CmdType::FindRegex | CmdType::CancelProm | CmdType::NextContent | CmdType::BackContent => CmdConfig { is_edit: false, is_record: false, is_recalc_scrl: false },
        CmdType::Confirm => CmdConfig { is_edit: false, is_record: false, is_recalc_scrl: true },
    }
}

/// Is `c` the command for `t`?
pub open spec fn is_cmd_of(c: Cmd, t: CmdType) -> bool {
    &&& c.cmd_type == t
    &&& c.when_vec@ == cmd_when(t)
    &&& c.config == cmd_config(t)
}

impl Cmd {
    /// The command type a setting word names.
    pub fn str_to_cmd_type(keycmd_str: &str) -> (t: CmdType)
        ensures
            is_cmd_type_of_str(t, keycmd_str@),
    {
        if str_eq(keycmd_str, "undo") {
            return CmdType::Undo;
        }
        if str_eq(keycmd_str, "redo") {
            return CmdType::Redo;
        }
        if str_eq(keycmd_str, "deleteNextChar") {
            return CmdType::DelNextChar;
        }
        if str_eq(keycmd_str, "deletePrevChar") {
            return CmdType::DelPrevChar;
        }
        if str_eq(keycmd_str, "cursorLeft") {
            return CmdType::CursorLeft;
        }
        if str_eq(keycmd_str, "cursorRight") {
            return CmdType::CursorRight;
        }
        if str_eq(keycmd_str, "cursorUp") {
            return CmdType::CursorUp;
        }
        if str_eq(keycmd_str, "cursorDown") {
            return CmdType::CursorDown;
        }
        if str_eq(keycmd_str, "cursorRowHome") {
            return CmdType::CursorRowHome;
        }
        if str_eq(keycmd_str, "cursorRowEnd") {
            return CmdType::CursorRowEnd;
        }
        if str_eq(keycmd_str, "cursorLeftSelect") {
            return CmdType::CursorLeftSelect;
        }
        if str_eq(keycmd_str, "cursorRightSelect") {
            return CmdType::CursorRightSelect;
        }
        if str_eq(keycmd_str, "cursorUpSelect") {
            return CmdType::CursorUpSelect;
        }
        if str_eq(keycmd_str, "cursorDownSelect") {
            return CmdType::CursorDownSelect;
        }
        if str_eq(keycmd_str, "cursorRowHomeSelect") {
            return CmdType::CursorRowHomeSelect;
        }
        if str_eq(keycmd_str, "cursorRowEndSelect") {
            return CmdType::CursorRowEndSelect;
        }
        if str_eq(keycmd_str, "cursorFileHome") {
            return CmdType::CursorFileHome;
        }
        if str_eq(keycmd_str, "cursorFileEnd") {
            return CmdType::CursorFileEnd;
        }
        if str_eq(keycmd_str, "cursorPageUp") {
            return CmdType::CursorPageUp;
        }
        if str_eq(keycmd_str, "cursorPageDown") {
            return CmdType::CursorPageDown;
        }
        if str_eq(keycmd_str, "paste") {
            return CmdType::InsertStr(String::new());
        }
        if str_eq(keycmd_str, "cut") {
            return CmdType::Cut;
        }
        if str_eq(keycmd_str, "copy") {
            return CmdType::Copy;
        }
        if str_eq(keycmd_str, "findNext") {
            return CmdType::FindNext;
        }
        if str_eq(keycmd_str, "findBack") {
            return CmdType::FindBack;
        }
        if str_eq(keycmd_str, "cancelPrompt") {
            return CmdType::CancelProm;
        }
        if str_eq(keycmd_str, "confirmPrompt") {
            return CmdType::Confirm;
        }
        if str_eq(keycmd_str, "nextContent") {
            return CmdType::NextContent;
        }
        if str_eq(keycmd_str, "backContent") {
            return CmdType::BackContent;
        }
        if str_eq(keycmd_str, "findCaseSensitive") {
            return CmdType::FindCaseSensitive;
        }
        if str_eq(keycmd_str, "findRegex") {
            return CmdType::FindRegex;
        }
        if str_eq(keycmd_str, "closeFile") {
            return CmdType::CloseFile;
        }
        if str_eq(keycmd_str, "allSelect") {
            return CmdType::AllSelect;
        }
        if str_eq(keycmd_str, "boxSelectModeStart") {
            return CmdType::BoxSelectModeStart;
        }
        if str_eq(keycmd_str, "insertLine") {
            return CmdType::InsertRow;
        }
        if str_eq(keycmd_str, "createNewFile") {
            return CmdType::CreateNewFile;
        }
        if str_eq(keycmd_str, "closeAllFile") {
            return CmdType::CloseAllFile;
        }
        if str_eq(keycmd_str, "saveFile") {
            return CmdType::SaveFile;
        }
        if str_eq(keycmd_str, "save_as") {
            return CmdType::SaveNewFile;
        }
        if str_eq(keycmd_str, "formatJSON") {
            return CmdType::Format(FileType::JSON);
        }
        if str_eq(keycmd_str, "formatXML") {
            return CmdType::Format(FileType::XML);
        }
        if str_eq(keycmd_str, "formatHTML") {
            return CmdType::Format(FileType::HTML);
        }
        if str_eq(keycmd_str, "startEndRecordKey") {
            return CmdType::RecordKeyStartEnd;
        }
        if str_eq(keycmd_str, "execRecordKey") {
            return CmdType::ExecRecordKey;
        }
        if str_eq(keycmd_str, "mouseModeSwitch") {
            return CmdType::MouseModeSwitch;
        }
        if str_eq(keycmd_str, "help") {
            return CmdType::Help;
        }
        if str_eq(keycmd_str, "helpInitDisplaySwitch") {
            return CmdType::HelpInitDisplaySwitch;
        }
        if str_eq(keycmd_str, "openMenuFile") {
            return CmdType::OpenMenuFile;
        }
        if str_eq(keycmd_str, "openMenuConvert") {
            return CmdType::OpenMenuConvert;
        }
        if str_eq(keycmd_str, "openMenuEdit") {
            return CmdType::OpenMenuEdit;
        }
        if str_eq(keycmd_str, "openMenuSearch") {
            return CmdType::OpenMenuSearch;
        }
        if str_eq(keycmd_str, "openMenuMacro") {
            return CmdType::OpenMenuSearch;
        }
        if str_eq(keycmd_str, "switchTabLeft") {
            return CmdType::SwitchTab(Direction::Left);
        }
        if str_eq(keycmd_str, "switchTabRight") {
            return CmdType::SwitchTab(Direction::Right);
        }
        if str_eq(keycmd_str, "cancelEditorState") {
            return CmdType::CancelEditorState;
        }
        if str_eq(keycmd_str, "contextMenu") {
            return CmdType::CtxtMenu(USIZE_UNDEFINED, USIZE_UNDEFINED);
        }
        if str_eq(keycmd_str, "inputComplement") {
            return CmdType::InputComple;
        }
        if str_eq(keycmd_str, "scale") {
            return CmdType::SwitchDispScale;
        }
        if str_eq(keycmd_str, "rowNo") {
            return CmdType::SwitchDispRowNo;
        }
        if str_eq(keycmd_str, "findPrompt") {
            return CmdType::FindProm;
        }
        if str_eq(keycmd_str, "replacePrompt") {
            return CmdType::ReplaceProm;
        }
        if str_eq(keycmd_str, "moveLinePrompt") {
            return CmdType::MoveRowProm;
        }
        if str_eq(keycmd_str, "grepPrompt") {
            return CmdType::GrepProm;
        }
        if str_eq(keycmd_str, "encodingPrompt") {
            return CmdType::EncodingProm;
        }
        if str_eq(keycmd_str, "openFilePrompt") {
            return CmdType::openFileProm(OpenFileType::Normal);
        }
        if str_eq(keycmd_str, "windowSplitVertical") {
            return CmdType::WindowSplit(WindowSplitType::Vertical);
        }
        if str_eq(keycmd_str, "windowSplitHorizontal") {
            return CmdType::WindowSplit(WindowSplitType::Horizontal);
        }
        CmdType::Unsupported
    }

    /// The command a setting word names.
    pub fn str_to_cmd(keycmd_str: &str) -> (c: Cmd)
        ensures
            is_cmd_type_of_str(c.cmd_type, keycmd_str@),
            c.when_vec@ == cmd_when(c.cmd_type),
            c.config == cmd_config(c.cmd_type),
    {
        Cmd::to_cmd(Cmd::str_to_cmd_type(keycmd_str))
    }

    /// The command of a command type, with where it applies and how it is treated.
    pub fn to_cmd(cmd_type: CmdType) -> (c: Cmd)
        ensures
            is_cmd_of(c, cmd_type),
    {
        let (when_vec, config) = match &cmd_type {
            CmdType::InsertStr(_) | CmdType::Cut | CmdType::InsertRow | CmdType::DelNextChar | CmdType::DelPrevChar | CmdType::Undo | CmdType::Redo | CmdType::InsertBox(_) | CmdType::DelBox(_) | CmdType::ReplaceExec(_, _, _) | CmdType::Format(_) => (vec![KeyWhen::Editor, KeyWhen::Prom], CmdConfig { is_edit: true, is_record: true, is_recalc_scrl: true }),
            CmdType::RecordKeyStartEnd => (vec![], CmdConfig { is_edit: false, is_record: false, is_recalc_scrl: false }),
            CmdType::ExecRecordKey => (vec![KeyWhen::Editor], CmdConfig { is_edit: true, is_record: false, is_recalc_scrl: true }),
            CmdType::CursorLeft | CmdType::CursorRight | CmdType::CursorUp | CmdType::CursorDown | CmdType::CursorRowHome | CmdType::CursorRowEnd | CmdType::CursorLeftSelect | CmdType::CursorRightSelect | CmdType::CursorRowHomeSelect | CmdType::CursorRowEndSelect => (vec![KeyWhen::All], CmdConfig { is_edit: false, is_record: true, is_recalc_scrl: true }),
            CmdType::CursorUpSelect | CmdType::CursorDownSelect | CmdType::CursorFileHome | CmdType::CursorFileEnd | CmdType::CursorPageUp | CmdType::CursorPageDown => (vec![KeyWhen::Editor], CmdConfig { is_edit: false, is_record: true, is_recalc_scrl: true }),
            CmdType::Copy | CmdType::AllSelect => (vec![KeyWhen::Editor, KeyWhen::Prom], CmdConfig { is_edit: false, is_record: true, is_recalc_scrl: false }),
            CmdType::MouseDownLeft(_, _) | CmdType::MouseUpLeft(_, _) | CmdType::MouseMove(_, _) | CmdType::MouseDragLeftUp(_, _) | CmdType::MouseDragLeftDown(_, _) | CmdType::MouseDragLeftLeft(_, _) | CmdType::MouseDragLeftRight(_, _) | CmdType::MouseDownLeftBox(_, _) | CmdType::MouseDragLeftBox(_, _) | CmdType::MouseScrollUp | CmdType::MouseScrollDown => (vec![], CmdConfig { is_edit: false, is_record: false, is_recalc_scrl: true }),
            CmdType::MouseModeSwitch | CmdType::BoxSelectMode | CmdType::BoxSelectModeStart | CmdType::CloseAllFile | CmdType::ReOpenFile | CmdType::HelpInitDisplaySwitch | CmdType::OpenMenuFile | CmdType::OpenMenuConvert | CmdType::OpenMenuEdit | CmdType::OpenMenuSearch | CmdType::OpenMenuMacro | CmdType::MenuWidget(_, _) | CmdType::CtxMenu(_, _) | CmdType::Null | CmdType::Unsupported => (vec![], CmdConfig { is_edit: false, is_record: false, is_recalc_scrl: false }),
            CmdType::CloseFile | CmdType::CtxtMenu(_, _) => (vec![KeyWhen::All], CmdConfig { is_edit: false, is_record: false, is_recalc_scrl: false }),
            CmdType::CreateNewFile | CmdType::InputComple | CmdType::CancelEditorState | CmdType::SaveFile | CmdType::SwitchTab(_) | CmdType::Help | CmdType::FindProm | CmdType::ReplaceProm | CmdType::MoveRowProm | CmdType::GrepProm | CmdType::GrepingProm | CmdType::GrepResultProm | CmdType::EncodingProm | CmdType::openFileProm(_) | CmdType::Saveforced | CmdType::WatchFileResult => (vec![KeyWhen::Editor], CmdConfig { is_edit: false, is_record: false, is_recalc_scrl: false }),
            CmdType::WindowSplit(_) => (vec![KeyWhen::Editor], CmdConfig { is_edit: false, is_record: false, is_recalc_scrl: true }),
            CmdType::SwitchDispScale | CmdType::SwitchDispRowNo | CmdType::Resize(_, _) => (vec![], CmdConfig { is_edit: false, is_record: false, is_recalc_scrl: true }),
            CmdType::SaveNewFile => (vec![KeyWhen::MenuBar], CmdConfig { is_edit: false, is_record: false, is_recalc_scrl: false }),
            CmdType::FindNext | CmdType::FindBack => (vec![KeyWhen::Editor, KeyWhen::Prom], CmdConfig { is_edit: false, is_record: false, is_recalc_scrl: true }),
            CmdType::FindCaseSensitive | CmdType::FindRegex | CmdType::CancelProm | CmdType::NextContent | CmdType::BackContent => (vec![KeyWhen::Prom], CmdConfig { is_edit: false, is_record: false, is_recalc_scrl: false }),
            CmdType::Confirm => (vec![KeyWhen::MenuBar, KeyWhen::Prom, KeyWhen::CtxMenu], CmdConfig { is_edit: false, is_record: false, is_recalc_scrl: true }),
        };
        assert(when_vec@ =~= cmd_when(cmd_type));
        Cmd { cmd_type, config, when_vec }
    }
}

/// `c` in upper case where it is an ASCII lower-case letter, otherwise `c`.
pub open spec fn ascii_upper(c: char) -> char {
    if 'a' <= c && c <= 'z' {
        ((c as u32) - 32) as char
    } else {
        c
    }
}

/// `char::to_ascii_uppercase`, whose documentation maps `a`–`z` to `A`–`Z` and leaves every
/// other character unchanged.
pub fn to_ascii_upper(c: char) -> (u: char)
    ensures
        u == ascii_upper(c),
{
    if 'a' <= c && c <= 'z' {
        let n: u8 = (c as u8) - 32;
        n as char
    } else {
        c
    }
}

/// A one-character string.
fn char_string(c: char) -> (s: String)
    ensures
        s@ == seq![c],
{
    let mut s = String::new();
    s.push(c);
    s
}

/// The drag command of a left drag to row `y`, column `x`, by the press or drag before it:
/// up, down, or (on the same row) right when the column grows or reaches the terminal's last
/// column `term_width`, left otherwise. Without a known earlier position the drag goes down.
pub open spec fn drag_cmd_type(y: u16, x: u16, keys_org: Option<Keys>, term_width: u16) -> CmdType {
    match keys_org {
        Some(Keys::MouseDragLeft(y_org, x_org)) => drag_dir(y, x, y_org, x_org, term_width),
        Some(Keys::MouseDownLeft(y_org, x_org)) => drag_dir(y, x, y_org, x_org, term_width),
        _ => CmdType::MouseDragLeftDown(y as usize, x as usize),
    }
}

/// The drag command from row `y_org`, column `x_org` to row `y`, column `x`.
pub open spec fn drag_dir(y: u16, x: u16, y_org: u16, x_org: u16, term_width: u16) -> CmdType {
    if y < y_org {
        CmdType::MouseDragLeftUp(y as usize, x as usize)
    } else if y > y_org {
        CmdType::MouseDragLeftDown(y as usize, x as usize)
    } else if x > x_org || x == term_width {
        CmdType::MouseDragLeftRight(y as usize, x as usize)
    } else {
        CmdType::MouseDragLeftLeft(y as usize, x as usize)
    }
}

/// Is `t` the command that a key or mouse event selects by itself, whatever has the focus?
/// Characters insert themselves (upper case with Shift), mouse events select mouse commands,
/// and a resize the resize command; every other event selects `Null`.
pub open spec fn is_common_cmd_type(t: CmdType, keys: Keys, keys_org: Option<Keys>, term_width: u16) -> bool {
    match keys {
        Keys::Resize(x, y) => t == CmdType::Resize(x as usize, y as usize),
        Keys::Raw(Key::Char(c)) => t matches CmdType::InsertStr(s) && s@ == seq![c],
        Keys::Shift(Key::Char(c)) => t matches CmdType::InsertStr(s) && s@ == seq![ascii_upper(c)],
        Keys::MouseMove(y, x) => t == CmdType::MouseMove(y as usize, x as usize),
        Keys::MouseAltDownLeft(y, x) => t == CmdType::MouseDownLeftBox(y as usize, x as usize),
        Keys::MouseAltDragLeft(y, x) => t == CmdType::MouseDragLeftBox(y as usize, x as usize),
        Keys::MouseDownLeft(y, x) => t == CmdType::MouseDownLeft(y as usize, x as usize),
        Keys::MouseUpLeft(y, x) => t == CmdType::MouseUpLeft(y as usize, x as usize),
        Keys::MouseScrollUp => t == CmdType::MouseScrollUp,
        Keys::MouseScrollDown => t == CmdType::MouseScrollDown,
        Keys::MouseDragLeft(y, x) => t == drag_cmd_type(y, x, keys_org, term_width),
        Keys::MouseDownRight(y, x) => t == CmdType::CtxtMenu(y as usize, x as usize),
        Keys::MouseDragRight(y, x) => t == CmdType::CtxtMenu(y as usize, x as usize),
        _ => t == CmdType::Null,
    }
}

/// Does the key or mouse event select a command by itself?
pub open spec fn has_common_cmd(keys: Keys) -> bool {
    match keys {
        Keys::Resize(_, _) | Keys::Raw(Key::Char(_)) | Keys::Shift(Key::Char(_)) | Keys::MouseMove(_, _)
        | Keys::MouseAltDownLeft(_, _) | Keys::MouseAltDragLeft(_, _) | Keys::MouseDownLeft(_, _)
        | Keys::MouseUpLeft(_, _) | Keys::MouseScrollUp | Keys::MouseScrollDown | Keys::MouseDragLeft(_, _)
        | Keys::MouseDownRight(_, _) | Keys::MouseDragRight(_, _) => true,
        _ => false,
    }
}

/// Is `t` the command type for an event that no binding names: the event's own command where it
/// has one, a tab character for Tab in the editor, `Unsupported` otherwise?
pub open spec fn is_unbound_cmd_type(t: CmdType, keys: Keys, keys_org: Option<Keys>, keywhen: KeyWhen, term_width: u16) -> bool {
    if has_common_cmd(keys) {
        is_common_cmd_type(t, keys, keys_org, term_width)
    } else if keywhen == KeyWhen::Editor && keys == Keys::Raw(Key::Tab) {
        t matches CmdType::InsertStr(s) && s@ == seq![TAB_CHAR]
    } else {
        t == CmdType::Unsupported
    }
}

/// The command that a key or mouse event selects by itself (`Null` where it selects none).
fn common_cmd_type(keys: &Keys, keys_org_opt: Option<&Keys>, term_width: u16) -> (t: CmdType)
    ensures
        is_common_cmd_type(t, *keys, match keys_org_opt {
            Some(k) => Some(*k),
            None => None,
        }, term_width),
        has_common_cmd(*keys) <==> !(t is Null),
{
    match keys {
        Keys::Resize(x, y) => CmdType::Resize(*x as usize, *y as usize),
        Keys::Raw(Key::Char(c)) => CmdType::InsertStr(char_string(*c)),
        Keys::Shift(Key::Char(c)) => CmdType::InsertStr(char_string(to_ascii_upper(*c))),
        Keys::MouseMove(y, x) => CmdType::MouseMove(*y as usize, *x as usize),
        Keys::MouseAltDownLeft(y, x) => CmdType::MouseDownLeftBox(*y as usize, *x as usize),
        Keys::MouseAltDragLeft(y, x) => CmdType::MouseDragLeftBox(*y as usize, *x as usize),
        Keys::MouseDownLeft(y, x) => CmdType::MouseDownLeft(*y as usize, *x as usize),
        Keys::MouseUpLeft(y, x) => CmdType::MouseUpLeft(*y as usize, *x as usize),
        Keys::MouseScrollUp => CmdType::MouseScrollUp,
        Keys::MouseScrollDown => CmdType::MouseScrollDown,
        Keys::MouseDragLeft(y, x) => {
            match keys_org_opt {
                Some(Keys::MouseDragLeft(y_org, x_org)) | Some(Keys::MouseDownLeft(y_org, x_org)) => {
                    if *y < *y_org {
                        CmdType::MouseDragLeftUp(*y as usize, *x as usize)
                    } else if *y > *y_org {
                        CmdType::MouseDragLeftDown(*y as usize, *x as usize)
                    } else if *x > *x_org || *x == term_width {
                        CmdType::MouseDragLeftRight(*y as usize, *x as usize)
                    } else {
                        CmdType::MouseDragLeftLeft(*y as usize, *x as usize)
                    }
                },
                _ => CmdType::MouseDragLeftDown(*y as usize, *x as usize),
            }
        },
        Keys::MouseDownRight(y, x) | Keys::MouseDragRight(y, x) => CmdType::CtxtMenu(*y as usize, *x as usize),
        _ => CmdType::Null,
    }
}

impl Cmd {
    /// The command for a key or mouse event where `keywhen` has the focus. `bound` is the
    /// command that the key bindings give the event (for any focus, else for this focus);
    /// where it gives none, or gives `Null`, the event selects its own command.
    /// `term_width` is the width of the terminal.
    pub fn keys_to_cmd(keys: &Keys, keys_org_opt: Option<&Keys>, keywhen: KeyWhen, bound: Option<Cmd>, term_width: u16) -> (c: Cmd)
        ensures
            (bound matches Some(b) && !(b.cmd_type is Null)) ==> Some(c) == bound,
            !(bound matches Some(b) && !(b.cmd_type is Null)) ==> is_unbound_cmd_type(c.cmd_type, *keys, match keys_org_opt {
                Some(k) => Some(*k),
                None => None,
            }, keywhen, term_width) && c.when_vec@ == cmd_when(c.cmd_type) && c.config == cmd_config(c.cmd_type),
    {
        if let Some(b) = bound {
            if !matches!(b.cmd_type, CmdType::Null) {
                return b;
            }
        }
        let cmd_type = common_cmd_type(keys, keys_org_opt, term_width);
        if !matches!(cmd_type, CmdType::Null) {
            return Cmd::to_cmd(cmd_type);
        }
        let cmd_type = match keywhen {
            KeyWhen::Editor => match keys {
                Keys::Raw(Key::Tab) => CmdType::InsertStr(char_string(TAB_CHAR)),
                _ => CmdType::Unsupported,
            },
            _ => CmdType::Unsupported,
        };
        Cmd::to_cmd(cmd_type)
    }
}

} // verus!
