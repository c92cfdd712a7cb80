//! The editor's shared data model: cursors, selections, search and grep state, encodings,
//! prompt state and small value types.
use crate::def::{NEW_LINE_CRLF, NEW_LINE_CRLF_STR, NEW_LINE_LF, USIZE_UNDEFINED};
use crate::keys::{Key, Keys};
use crate::lang::Lang;
use crate::text::{str_eq, string_of};
use vstd::prelude::*;
use vstd::string::StringExecFns;

verus! {

/// The platform the editor runs on.
#[derive(Debug, Clone, Copy, PartialEq, Eq, Structural)]
pub enum Env {
    WSL,
    Linux,
    Windows,
}

/// Operation Type
#[derive(Debug, Clone, Copy, PartialEq, Eq, Structural)]
pub enum Opetype {
    Normal,
    Undo,
    Redo,
}

/// One line found by grep.
#[derive(Debug, Clone, PartialEq, Eq)]
pub struct GrepResult {
    pub filenm: String,
    pub row_num: usize,
}

impl GrepResult {
    pub fn new(filenm: String, row_num: usize) -> (r: GrepResult)
        ensures
            r.filenm == filenm,
            r.row_num == row_num,
    {
        GrepResult { filenm, row_num }
    }
}

/// A match of the search string: row `y`, columns `sx..ex`.
#[derive(Debug, Default, Clone, Copy, PartialEq, Eq, Structural)]
pub struct SearchRange {
    pub y: usize,
    pub sx: usize,
    pub ex: usize,
}

/// The state of a search.
#[derive(Debug, Clone, PartialEq, Eq)]
pub struct Search {
    pub str: String,
    pub idx: usize,
    pub ranges: Vec<SearchRange>,
    pub fullpath: String,
    pub folder: String,
    pub row_num: usize,
}

impl Default for Search {
    fn default() -> (s: Search)
        ensures
            s.str@ == Seq::<char>::empty(),
            s.idx == USIZE_UNDEFINED,
            s.ranges@ == Seq::<SearchRange>::empty(),
            s.fullpath@ == Seq::<char>::empty(),
            s.folder@ == Seq::<char>::empty(),
            s.row_num == USIZE_UNDEFINED,
    {
        Search { str: String::new(), idx: USIZE_UNDEFINED, ranges: Vec::new(), fullpath: String::new(), folder: String::new(), row_num: USIZE_UNDEFINED }
    }
}

impl Search {
    /// Forget the search string, its matches and the searched file and folder.
    pub fn clear(&mut self)
        ensures
            final(self).str@ == Seq::<char>::empty(),
            final(self).idx == USIZE_UNDEFINED,
            final(self).ranges@ == Seq::<SearchRange>::empty(),
            final(self).fullpath@ == Seq::<char>::empty(),
            final(self).folder@ == Seq::<char>::empty(),
            final(self).row_num == old(self).row_num,
    {
        self.str = String::new();
        self.idx = USIZE_UNDEFINED;
        self.ranges = Vec::new();
        self.fullpath = String::new();
        self.folder = String::new();
    }

    /// The rows of the first and the last match, or `(0, 0)` when nothing matched.
    pub fn get_y_range(&self) -> (r: (usize, usize))
        ensures
            self.ranges@.len() == 0 ==> r == (0usize, 0usize),
            self.ranges@.len() > 0 ==> r == (self.ranges@[0].y, self.ranges@.last().y),
    {
        if self.ranges.len() > 0 {
            let (sy, ey) = (self.ranges[0].y, self.ranges[self.ranges.len() - 1].y);
            return (sy, ey);
        }
        (0, 0)
    }
}

/// Whether keys are being recorded or replayed.
#[derive(Debug, Default, Clone, Copy, PartialEq, Eq, Structural)]
pub struct KeyMacroState {
    pub is_record: bool,
    pub is_exec: bool,
    pub is_exec_end: bool,
}

impl KeyMacroState {
    /// A recorded macro is being replayed and has not finished.
    pub fn is_running(&self) -> (b: bool)
        ensures
            b == (self.is_exec && !self.is_exec_end),
    {
        self.is_exec && !self.is_exec_end
    }
}

/// Cursor, 0-indexed: row `y`, character index `x`, display column `disp_x`.
#[derive(Debug, Default, Clone, Copy, PartialEq, Eq, Structural)]
pub struct Cur {
    pub y: usize,
    pub x: usize,
    pub disp_x: usize,
}

/// Kinds of character styles.
#[derive(Debug, Clone, Copy, PartialEq, Eq, Structural)]
pub enum CharStyleType {
    Nomal,
    Select,
    Search,
    CtrlChar,
    ColumnCharAlignmentSpace,
}

/// Classes of characters used to find word boundaries.
#[derive(Debug, Clone, Copy, PartialEq, Eq, Structural)]
pub enum CharType {
    Nomal,
    Delim,
    HalfSpace,
    FullSpace,
    NewLineCode,
}

/// A file change notified by the watcher.
#[derive(Debug, Clone, PartialEq, Eq, Hash)]
pub struct JobWatch {
    pub fullpath_str: String,
    pub unixtime_str: String,
}

/// Progress of a grep job.
#[derive(Debug, Default, Clone, PartialEq, Eq, Hash)]
pub struct JobGrep {
    pub grep_str: String,
    pub is_result: bool,
    pub is_end: bool,
    pub is_cancel: bool,
}

/// Kinds of background jobs.
#[derive(Debug, Clone, Copy, PartialEq, Eq, Hash, Structural)]
pub enum JobType {
    Event,
    GrepResult,
    Watch,
}

/// Which part of the editor must be redrawn.
#[allow(non_camel_case_types)]
#[derive(Debug, Clone, Copy, PartialEq, Eq, Structural)]
pub enum E_DrawRange {
    TargetRange(usize, usize),
    After(usize),
    All,
    Targetpoint,
    Init,
    ScrollDown(usize, usize),
    ScrollUp(usize, usize),
    MoveCur,
    Not,
}

/// The name under which a redraw range is logged.
pub open spec fn draw_range_name(r: E_DrawRange) -> Seq<char> {
    match r {
        E_DrawRange::TargetRange(_, _) => "Target"@,
        E_DrawRange::After(_) => "After"@,
        E_DrawRange::All => "All"@,
        E_DrawRange::Init => "Init"@,
        E_DrawRange::Targetpoint => "AllDiff"@,
        E_DrawRange::ScrollDown(_, _) => "ScrollDown"@,
        E_DrawRange::ScrollUp(_, _) => "ScrollUp"@,
        E_DrawRange::MoveCur => "MoveCur"@,
        E_DrawRange::Not => "Not"@,
    }
}

impl E_DrawRange {
    /// The name under which the redraw range is logged.
    pub fn to_string(&self) -> (s: String)
        ensures
            s@ == draw_range_name(*self),
    {
        match self {
            E_DrawRange::TargetRange(_, _) => String::from_str("Target"),
            E_DrawRange::After(_) => String::from_str("After"),
            E_DrawRange::All => String::from_str("All"),
            E_DrawRange::Init => String::from_str("Init"),
            E_DrawRange::Targetpoint => String::from_str("AllDiff"),
            E_DrawRange::ScrollDown(_, _) => String::from_str("ScrollDown"),
            E_DrawRange::ScrollUp(_, _) => String::from_str("ScrollUp"),
            E_DrawRange::MoveCur => String::from_str("MoveCur"),
            E_DrawRange::Not => String::from_str("Not"),
        }
    }
}

impl Default for E_DrawRange {
    fn default() -> (r: E_DrawRange)
        ensures
            r == E_DrawRange::Init,
    {
        E_DrawRange::Init
    }
}

/// The state of a grep run.
#[derive(Debug, Default, Clone, PartialEq)]
pub struct GrepInfo {
    pub is_grep: bool,
    pub is_result: bool,
    pub is_end: bool,
    pub is_cancel: bool,
    pub search_str: String,
    pub search_folder: String,
    pub search_filenm: String,
}

/// A grep shows results and neither ended nor was cancelled.
pub open spec fn spec_is_greping(g: GrepInfo) -> bool {
    g.is_result && !g.is_end && !g.is_cancel
}

/// A grep shows results and ended or was cancelled.
pub open spec fn spec_is_grep_finished(g: GrepInfo) -> bool {
    g.is_result && (g.is_end || g.is_cancel)
}

impl GrepInfo {
    /// Leave the grep: it is no longer running and its search strings are forgotten;
    /// whether results are shown and whether it was cancelled stay as they were.
    pub fn clear(&mut self)
        ensures
            !final(self).is_grep,
            !final(self).is_end,
            final(self).is_result == old(self).is_result,
            final(self).is_cancel == old(self).is_cancel,
            final(self).search_str@ == Seq::<char>::empty(),
            final(self).search_folder@ == Seq::<char>::empty(),
            final(self).search_filenm@ == Seq::<char>::empty(),
    {
        self.is_grep = false;
        self.is_end = false;
        self.search_str = String::new();
        self.search_folder = String::new();
        self.search_filenm = String::new();
    }

    pub fn is_greping(&self) -> (b: bool)
        ensures
            b == spec_is_greping(*self),
    {
        self.is_result && !self.is_end && !self.is_cancel
    }

    pub fn is_grep_finished(&self) -> (b: bool)
        ensures
            b == spec_is_grep_finished(*self),
    {
        self.is_result && (self.is_end || self.is_cancel)
    }
}

/// A grep is never both in progress and finished.
pub proof fn lemma_grep_running_and_finished_exclusive(g: GrepInfo)
    ensures
        !(spec_is_greping(g) && spec_is_grep_finished(g)),
{
}

/// Whether mouse events are captured by the editor.
#[derive(Debug, Clone, Copy, PartialEq, Eq, Structural)]
pub enum MouseMode {
    Normal,
    Mouse,
}

/// Whether word completion is active.
#[derive(Debug, Clone, Copy, PartialEq, Eq, Structural)]
pub enum InputCompleMode {
    Off,
    WordComple,
}

/// Text encodings the editor reads and writes.
#[derive(Debug, Clone, Copy, PartialEq, Eq, Structural)]
pub enum Encode {
    UTF8,
    UTF16LE,
    UTF16BE,
    SJIS,
    JIS,
    EucJp,
    GBK,
    Unknown,
}

/// The display name of an encoding.
pub open spec fn encode_name(e: Encode) -> Seq<char> {
    match e {
        Encode::UTF8 => "UTF-8"@,
        Encode::UTF16LE => "UTF-16LE"@,
        Encode::UTF16BE => "UTF-16BE"@,
        Encode::SJIS => "Shift_JIS"@,
        Encode::JIS => "JIS"@,
        Encode::EucJp => "EUC-JP"@,
        Encode::GBK => "GBK"@,
        Encode::Unknown => "Unknown"@,
    }
}

/// The encoding that a display name selects; anything unrecognized is UTF-8.
pub open spec fn encode_from_name(name: Seq<char>) -> Encode {
    if name == "UTF-16LE"@ {
        Encode::UTF16LE
    } else if name == "UTF-16BE"@ {
        Encode::UTF16BE
    } else if name == "Shift_JIS"@ {
        Encode::SJIS
    } else if name == "EUC-JP"@ {
        Encode::EucJp
    } else if name == "JIS"@ {
        Encode::JIS
    } else if name == "GBK"@ {
        Encode::GBK
    } else {
        Encode::UTF8
    }
}

impl Encode {
    /// The display name of the encoding.
    pub fn to_string(&self) -> (s: String)
        ensures
            s@ == encode_name(*self),
    {
        match self {
            Encode::UTF8 => String::from_str("UTF-8"),
            Encode::UTF16LE => String::from_str("UTF-16LE"),
            Encode::UTF16BE => String::from_str("UTF-16BE"),
            Encode::SJIS => String::from_str("Shift_JIS"),
            Encode::JIS => String::from_str("JIS"),
            Encode::EucJp => String::from_str("EUC-JP"),
            Encode::GBK => String::from_str("GBK"),
            Encode::Unknown => String::from_str("Unknown"),
        }
    }

    /// The encoding named `name`; UTF-8 for any other name.
    pub fn from_name(name: &str) -> (e: Encode)
        ensures
            e == encode_from_name(name@),
    {
        if str_eq(name, "UTF-16LE") {
            Encode::UTF16LE
        } else if str_eq(name, "UTF-16BE") {
            Encode::UTF16BE
        } else if str_eq(name, "Shift_JIS") {
            Encode::SJIS
        } else if str_eq(name, "EUC-JP") {
            Encode::EucJp
        } else if str_eq(name, "JIS") {
            Encode::JIS
        } else if str_eq(name, "GBK") {
            Encode::GBK
        } else {
            Encode::UTF8
        }
    }
}

/// Reading the display name of a known encoding gives the encoding back.
pub proof fn lemma_encode_name_round_trip(e: Encode)
    requires
        e != Encode::Unknown,
    ensures
        encode_from_name(encode_name(e)) == e,
{
    reveal_strlit("UTF-8");
    reveal_strlit("UTF-16LE");
    reveal_strlit("UTF-16BE");
    reveal_strlit("Shift_JIS");
    reveal_strlit("JIS");
    reveal_strlit("EUC-JP");
    reveal_strlit("GBK");
    let n = encode_name(e);
    assert(n.len() != "UTF-16LE"@.len() || n[6] != "UTF-16LE"@[6] || e == Encode::UTF16LE);
    assert(n.len() != "UTF-16BE"@.len() || n[6] != "UTF-16BE"@[6] || e == Encode::UTF16BE);
    assert(n.len() != "Shift_JIS"@.len() || e == Encode::SJIS);
    assert(n.len() != "EUC-JP"@.len() || e == Encode::EucJp);
    assert(n.len() != "JIS"@.len() || n[0] != "JIS"@[0] || e == Encode::JIS);
    assert(n.len() != "GBK"@.len() || n[0] != "GBK"@[0] || e == Encode::GBK);
}

/// Newline handling.
pub struct NL {}

impl NL {
    /// The newline sequence for a newline type name: CRLF for "CRLF", LF otherwise.
    pub fn get_nl(nl_str: &str) -> (s: String)
        ensures
            nl_str@ == NEW_LINE_CRLF_STR@ ==> s@ == NEW_LINE_CRLF@,
            nl_str@ != NEW_LINE_CRLF_STR@ ==> s@ == seq![NEW_LINE_LF],
    {
        if str_eq(nl_str, NEW_LINE_CRLF_STR) {
            string_of(NEW_LINE_CRLF)
        } else {
            let mut s = String::new();
            s.push(NEW_LINE_LF);
            s
        }
    }
}

/// Cursor direction
#[derive(Debug, Clone, Copy, PartialEq, Eq, Hash, Structural)]
pub enum Direction {
    Right,
    Left,
    Up,
    Down,
}

/// Character conversions offered by the convert menu.
#[derive(Debug, Clone, Copy, PartialEq, Eq, Hash, Structural)]
pub enum ConvType {
    Lowercase,
    Uppercase,
    HalfWidth,
    FullWidth,
    Space,
    Tab,
}

/// The conversion whose menu entry reads `s`; `Tab` for anything else.
pub open spec fn conv_type_of(lang: Lang, s: Seq<char>) -> ConvType {
    if s == lang.to_lowercase@ {
        ConvType::Lowercase
    } else if s == lang.to_uppercase@ {
        ConvType::Uppercase
    } else if s == lang.to_half_width@ {
        ConvType::HalfWidth
    } else if s == lang.to_full_width@ {
        ConvType::FullWidth
    } else if s == lang.to_space@ {
        ConvType::Space
    } else {
        ConvType::Tab
    }
}

impl ConvType {
    /// The conversion selected by a menu entry.
    pub fn from_str_conv_type(lang: &Lang, s: &str) -> (c: ConvType)
        ensures
            c == conv_type_of(*lang, s@),
    {
        if str_eq(s, lang.to_lowercase.as_str()) {
            ConvType::Lowercase
        } else if str_eq(s, lang.to_uppercase.as_str()) {
            ConvType::Uppercase
        } else if str_eq(s, lang.to_half_width.as_str()) {
            ConvType::HalfWidth
        } else if str_eq(s, lang.to_full_width.as_str()) {
            ConvType::FullWidth
        } else if str_eq(s, lang.to_space.as_str()) {
            ConvType::Space
        } else {
            ConvType::Tab
        }
    }
}

/// Functions a key macro can call.
#[allow(non_camel_case_types)]
#[derive(Debug, Clone, Copy, PartialEq, Eq, Structural)]
pub enum MacrosFunc {
    insertString,
    getSelectedString,
    getAllString,
    searchAll,
}

/// The name of a key-macro function as macros call it.
pub open spec fn macros_func_name(f: MacrosFunc) -> Seq<char> {
    match f {
        MacrosFunc::insertString => "insertString"@,
        MacrosFunc::getSelectedString => "getSelectedString"@,
        MacrosFunc::getAllString => "getAllString"@,
        MacrosFunc::searchAll => "searchAll"@,
    }
}

impl MacrosFunc {
    /// The name of the function as macros call it.
    pub fn to_string(&self) -> (s: String)
        ensures
            s@ == macros_func_name(*self),
    {
        match self {
            MacrosFunc::insertString => String::from_str("insertString"),
            MacrosFunc::getSelectedString => String::from_str("getSelectedString"),
            MacrosFunc::getAllString => String::from_str("getAllString"),
            MacrosFunc::searchAll => String::from_str("searchAll"),
        }
    }
}

/// How a range is selected.
#[derive(Debug, Clone, Copy, PartialEq, Eq, Hash, Structural)]
pub enum SelMode {
    Normal,
    BoxSelect,
}

impl SelMode {
    /// What the status bar shows for the mode: nothing for a normal selection, the
    /// box-selection label otherwise.
    pub fn to_string(&self, lang: &Lang) -> (s: String)
        ensures
            s@ == (match *self {
                SelMode::Normal => Seq::<char>::empty(),
                SelMode::BoxSelect => lang.box_select@,
            }),
    {
        match self {
            SelMode::Normal => String::new(),
            SelMode::BoxSelect => lang.box_select.clone(),
        }
    }
}

impl Default for SelMode {
    fn default() -> (m: SelMode)
        ensures
            m == SelMode::Normal,
    {
        SelMode::Normal
    }
}

/// A selection: rows `sy..ey`, character indices `sx..ex` and display columns.
#[derive(Debug, Clone, Copy, PartialEq, Eq, Hash, Structural)]
pub struct SelRange {
    pub mode: SelMode,
    pub sy: usize,
    pub ey: usize,
    pub sx: usize,
    pub ex: usize,
    pub s_disp_x: usize,
    pub e_disp_x: usize,
}

impl Default for SelRange {
    fn default() -> (r: SelRange)
        ensures
            r == (SelRange {
                mode: SelMode::Normal,
                sy: USIZE_UNDEFINED,
                ey: USIZE_UNDEFINED,
                sx: USIZE_UNDEFINED,
                ex: USIZE_UNDEFINED,
                s_disp_x: USIZE_UNDEFINED,
                e_disp_x: USIZE_UNDEFINED,
            }),
    {
        SelRange { mode: SelMode::default(), sy: USIZE_UNDEFINED, ey: USIZE_UNDEFINED, sx: USIZE_UNDEFINED, ex: USIZE_UNDEFINED, s_disp_x: USIZE_UNDEFINED, e_disp_x: USIZE_UNDEFINED }
    }
}

/// Command-line arguments: an optional file name and whether to write the setting file.
#[derive(Debug, Default, Clone)]
pub struct Args {
    pub filenm: Option<String>,
    pub out_config_flg: bool,
}

/// The arguments the application works with.
#[derive(Debug, Default, PartialEq, Eq, Clone)]
pub struct AppArgs {
    pub filenm: String,
    pub out_config_flg: bool,
}

impl AppArgs {
    /// The file name (empty when none was given) and the output flag.
    pub fn new(arg: &Args) -> (a: AppArgs)
        ensures
            arg.filenm is None ==> a.filenm@ == Seq::<char>::empty(),
            arg.filenm matches Some(f) ==> a.filenm@ == f@,
            a.out_config_flg == arg.out_config_flg,
    {
        let filenm: String = match &arg.filenm {
            Some(filenm) => filenm.clone(),
            None => String::new(),
        };
        AppArgs { filenm, out_config_flg: arg.out_config_flg }
    }
}

/// Kinds of files the open-file prompt opens.
#[derive(Debug, Copy, Clone, Hash, Eq, PartialEq, Structural)]
pub enum OpenFileType {
    Normal,
    JsMacro,
}

/// How changes made by other applications to an open file are handled.
#[derive(Debug, Clone, Copy, PartialEq, Eq, Structural)]
pub enum WatchMode {
    Normal,
    NotMonitor,
    NotEditedWillReloadedAuto,
}

impl Default for WatchMode {
    fn default() -> (m: WatchMode)
        ensures
            m == WatchMode::Normal,
    {
        WatchMode::Normal
    }
}

/// Text inserted into a box selection, row by row.
#[derive(Debug, Clone, PartialEq, Eq)]
pub struct BoxInsert {
    pub mode: BoxInsertMode,
    pub vec: Vec<(SelRange, String)>,
}

/// Whether the editor is inserting into a box selection.
#[derive(Debug, Clone, Copy, PartialEq, Eq, Structural)]
pub enum BoxInsertMode {
    Normal,
    Insert,
}

impl BoxInsertMode {
    /// What the status bar shows for the mode: nothing normally, the box-insert label while
    /// inserting into a box selection.
    pub fn to_string(&self, lang: &Lang) -> (s: String)
        ensures
            s@ == (match *self {
                BoxInsertMode::Normal => Seq::<char>::empty(),
                BoxInsertMode::Insert => lang.box_insert@,
            }),
    {
        match self {
            BoxInsertMode::Normal => String::new(),
            BoxInsertMode::Insert => lang.box_insert.clone(),
        }
    }
}

impl Default for BoxInsert {
    fn default() -> (b: BoxInsert)
        ensures
            b.mode == BoxInsertMode::Normal,
            b.vec@.len() == 0,
    {
        BoxInsert { vec: Vec::new(), mode: BoxInsertMode::Normal }
    }
}

/// Formats the editor can pretty-print.
#[derive(Debug, Clone, Copy, PartialEq, Eq, Hash, Structural)]
pub enum FileType {
    JSON,
    JSON5,
    TOML,
    XML,
    HTML,
}

/// The format whose menu entry reads `s`; HTML for anything else.
pub open spec fn file_type_of(lang: Lang, s: Seq<char>) -> FileType {
    if s == lang.json@ {
        FileType::JSON
    } else if s == lang.json5@ {
        FileType::JSON5
    } else if s == lang.toml@ {
        FileType::TOML
    } else if s == lang.xml@ {
        FileType::XML
    } else {
        FileType::HTML
    }
}

/// The name of a format.
pub open spec fn file_type_name(t: FileType) -> Seq<char> {
    match t {
        FileType::JSON => "JSON"@,
        FileType::JSON5 => "JSON5"@,
        FileType::TOML => "TOML"@,
        FileType::XML => "XML"@,
        FileType::HTML => "HTML"@,
    }
}

impl FileType {
    /// The format selected by a menu entry.
    pub fn from_str_fmt_type(lang: &Lang, s: &str) -> (t: FileType)
        ensures
            t == file_type_of(*lang, s@),
    {
        if str_eq(s, lang.json.as_str()) {
            FileType::JSON
        } else if str_eq(s, lang.json5.as_str()) {
            FileType::JSON5
        } else if str_eq(s, lang.toml.as_str()) {
            FileType::TOML
        } else if str_eq(s, lang.xml.as_str()) {
            FileType::XML
        } else {
            FileType::HTML
        }
    }

    /// The name of the format.
    pub fn to_string(&self) -> (s: String)
        ensures
            s@ == file_type_name(*self),
    {
        match self {
            FileType::JSON => String::from_str("JSON"),
            FileType::JSON5 => String::from_str("JSON5"),
            FileType::TOML => String::from_str("TOML"),
            FileType::XML => String::from_str("XML"),
            FileType::HTML => String::from_str("HTML"),
        }
    }
}

/// Kinds of screen parts to render.
#[derive(Debug, PartialEq, Clone, Copy, Structural)]
pub enum ScrollUpDownType {
    Normal,
    Grep,
}

/// Parts of the screen to render after an action.
#[derive(Debug, PartialEq, Clone)]
pub enum RParts {
    Editor,
    Prompt,
    MsgBar(String),
    CtxMenu,
    All,
    HeaderBar,
    ScrollUpDown(ScrollUpDownType),
    AllMsgBar(String),
    Nothing,
}

/// What to do after handling an event.
#[derive(Debug, PartialEq)]
pub enum ActType {
    Cancel,
    Exit,
    Next,
    Render(RParts),
}

/// Kinds of messages in the message bar.
#[derive(Debug, PartialEq, Clone, Copy, Structural)]
pub enum MsgType {
    Info,
    Error,
    KeyRecord,
}

/// A horizontal draw position and whether it is a margin.
#[derive(Debug, PartialEq, Clone, Copy, Structural)]
pub enum DrawRangX {
    Range(usize, bool),
}

impl Default for DrawRangX {
    fn default() -> (d: DrawRangX)
        ensures
            d == DrawRangX::Range(USIZE_UNDEFINED, false),
    {
        DrawRangX::Range(USIZE_UNDEFINED, false)
    }
}

impl DrawRangX {
    pub fn get_x(&self) -> (x: usize)
        ensures
            self matches DrawRangX::Range(v, _) && x == v,
    {
        match self {
            DrawRangX::Range(x, _) => *x,
        }
    }

    pub fn is_margin(&self) -> (b: bool)
        ensures
            self matches DrawRangX::Range(_, m) && b == m,
    {
        match self {
            DrawRangX::Range(_, is_margin) => *is_margin,
        }
    }
}

/// Paths of the editor's own files.
#[derive(Debug, Clone, PartialEq, Eq)]
pub struct FilePath {}

/// The vertical scrollbar.
#[derive(Debug, Clone, Copy, PartialEq, Eq, Structural)]
pub struct ScrollbarV {
    pub is_show: bool,
    pub is_enable: bool,
    pub row_posi: usize,
    pub row_posi_org: usize,
    pub bar_len: usize,
    pub move_len: usize,
}

impl Default for ScrollbarV {
    fn default() -> (s: ScrollbarV)
        ensures
            s == (ScrollbarV {
                is_show: false,
                is_enable: false,
                row_posi: USIZE_UNDEFINED,
                row_posi_org: USIZE_UNDEFINED,
                bar_len: USIZE_UNDEFINED,
                move_len: USIZE_UNDEFINED,
            }),
    {
        ScrollbarV { is_show: false, is_enable: false, row_posi: USIZE_UNDEFINED, row_posi_org: USIZE_UNDEFINED, bar_len: USIZE_UNDEFINED, move_len: USIZE_UNDEFINED }
    }
}

/// Cancellation state of a grep.
#[derive(Debug, PartialEq, Clone, Copy, Structural)]
pub enum GrepCancelType {
    NotCanceled,
    Canceling,
    Canceled,
}

/// Marker type for unit tests.
#[derive(Debug, Clone, PartialEq, Eq)]
pub struct UT {}

/// Which prompts and modes of a tab are open.
#[derive(Debug, Default, Clone)]
pub struct TabState {
    pub is_search: bool,
    pub is_replace: bool,
    pub is_save_confirm: bool,
    pub is_save_new_file: bool,
    pub is_save_forced: bool,
    pub is_move_row: bool,
    pub is_open_file: bool,
    pub is_enc_nl: bool,
    pub grep: GrepInfo,
    pub is_menu: bool,
    pub is_watch_result: bool,
}

/// No prompt, menu or grep is open in the tab.
pub open spec fn spec_is_nomal(t: TabState) -> bool {
    !(t.is_save_confirm || t.is_search || t.is_replace || t.is_save_new_file || t.is_save_forced
        || t.is_move_row || t.is_open_file || t.is_enc_nl || t.is_menu || t.is_watch_result
        || t.grep.is_grep || spec_is_greping(t.grep))
}

/// A prompt with an input field is open.
pub open spec fn spec_is_exists_input_field(t: TabState) -> bool {
    t.is_save_new_file || t.is_search || t.is_replace || t.grep.is_grep || t.is_move_row || t.is_open_file
}

/// A prompt with choices is open.
pub open spec fn spec_is_exists_choice(t: TabState) -> bool {
    t.is_enc_nl || t.is_menu
}

impl TabState {
    /// Close every prompt and menu of the tab and leave grep input.
    pub fn clear(&mut self)
        ensures
            !final(self).is_save_confirm,
            !final(self).is_search,
            !final(self).is_replace,
            !final(self).is_save_new_file,
            !final(self).is_save_forced,
            !final(self).is_move_row,
            !final(self).is_open_file,
            !final(self).is_enc_nl,
            !final(self).is_menu,
            !final(self).is_watch_result,
            final(self).grep == (GrepInfo { is_grep: false, ..old(self).grep }),
    {
        self.is_save_confirm = false;
        self.is_search = false;
        self.is_replace = false;
        self.is_save_new_file = false;
        self.is_save_forced = false;
        self.is_move_row = false;
        self.is_open_file = false;
        self.is_enc_nl = false;
        self.is_menu = false;
        self.is_watch_result = false;
        self.grep.is_grep = false;
    }

    pub fn is_nomal(&self) -> (b: bool)
        ensures
            b == spec_is_nomal(*self),
    {
        if self.is_save_confirm || self.is_search || self.is_replace || self.is_save_new_file || self.is_save_forced || self.is_move_row || self.is_open_file || self.is_enc_nl || self.is_menu || self.is_watch_result || self.grep.is_grep || self.grep.is_greping() {
            return false;
        }
        true
    }

    /// Normal, and the tab does not show a grep result (the grep-result prompt is open exactly
    /// when `grep.is_result` is set).
    pub fn is_nomal_and_not_grep_result(&self) -> (b: bool)
        ensures
            b == (spec_is_nomal(*self) && !self.grep.is_result),
    {
        if !self.is_nomal() || self.grep.is_result {
            return false;
        }
        true
    }

    /// Normal, and no grep result is shown.
    pub fn is_nomal_and_not_result(&self) -> (b: bool)
        ensures
            b == (spec_is_nomal(*self) && !self.grep.is_result),
    {
        if !self.is_nomal() || self.grep.is_result {
            return false;
        }
        true
    }

    /// Keys go to the prompt: a prompt is open, or Enter was pressed on a finished grep result.
    pub fn judge_when_prompt(&self, keys: &Keys) -> (b: bool)
        ensures
            b == (!spec_is_nomal(*self) || (spec_is_grep_finished(self.grep) && *keys == Keys::Raw(Key::Enter))),
    {
        if !self.is_nomal() || (self.grep.is_grep_finished() && *keys == Keys::Raw(Key::Enter)) {
            return true;
        }
        return false;
    }

    /// Keys go to the status bar: a left press on its row, or a left drag on its row
    /// while the editor is not dragging.
    pub fn judge_when_statusbar(&self, keys: &Keys, sbar_row_posi: usize, editor_is_dragging: bool) -> (b: bool)
        ensures
            b == match *keys {
                Keys::MouseDownLeft(y, _) => y == sbar_row_posi as u16,
                Keys::MouseDragLeft(y, _) => y == sbar_row_posi as u16 && !editor_is_dragging,
                _ => false,
            },
    {
        let row = sbar_row_posi as u16;
        match keys {
            Keys::MouseDownLeft(y, _) => *y == row,
            Keys::MouseDragLeft(y, _) => *y == row && !editor_is_dragging,
            _ => false,
        }
    }

    /// The prompt shows a cursor: it has an input field or choices.
    pub fn is_prom_show_cur(&self) -> (b: bool)
        ensures
            b == (spec_is_exists_input_field(*self) || spec_is_exists_choice(*self)),
    {
        if self.is_exists_input_field() || self.is_exists_choice() {
            return true;
        }
        false
    }

    pub fn is_exists_input_field(&self) -> (b: bool)
        ensures
            b == spec_is_exists_input_field(*self),
    {
        if self.is_save_new_file || self.is_search || self.is_replace || self.grep.is_grep || self.is_move_row || self.is_open_file {
            return true;
        }
        false
    }

    pub fn is_exists_choice(&self) -> (b: bool)
        ensures
            b == spec_is_exists_choice(*self),
    {
        if self.is_enc_nl || self.is_menu {
            return true;
        }
        false
    }
}

/// After `clear`, a tab is back to normal exactly when no grep is still producing results.
pub proof fn lemma_tab_state_clear_normal(before: TabState, after: TabState)
    requires
        !after.is_save_confirm && !after.is_search && !after.is_replace && !after.is_save_new_file
            && !after.is_save_forced && !after.is_move_row && !after.is_open_file && !after.is_enc_nl
            && !after.is_menu && !after.is_watch_result,
        after.grep == (GrepInfo { is_grep: false, ..before.grep }),
    ensures
        spec_is_nomal(after) == !spec_is_greping(before.grep),
        !spec_is_exists_input_field(after) && !spec_is_exists_choice(after),
{
}

/// The files the editor watches for changes by other programs: the watched path, the path
/// before the last change of it, how changes are handled, and the (path, time) pairs already
/// reported.
#[derive(Debug, Default, Clone, PartialEq, Eq)]
pub struct WatchInfo {
    pub fullpath: String,
    pub fullpath_org: String,
    pub mode: WatchMode,
    pub history_set: std::collections::BTreeSet<(String, String)>,
}

/// Paths of the configuration files.
#[derive(Debug, Clone, PartialEq, Eq)]
pub struct CFgFilePath {}

/// Where a settings file is read from: its format, the arguments, its directory (if one is
/// known) and its name.
#[derive(Debug, Clone, PartialEq, Eq)]
pub struct SettingFileLoader {
    pub file_type: FileType,
    pub args: AppArgs,
    pub filedir_opt: Option<String>,
    pub filenm: String,
}

/// How reading and parsing a settings file went.
#[derive(Debug, Clone, PartialEq, Eq)]
pub enum SettingLoad {
    /// No configuration directory is known.
    NoDir,
    /// The file does not exist.
    NotFound,
    /// The file could not be read, for the reason given.
    ReadFailed(String),
    /// The file could not be parsed, for the reason given.
    ParseFailed(String),
    /// The file was read and parsed.
    Parsed,
}

/// The message loading a settings file at `path` reports: none where the file was parsed or
/// does not exist (its defaults are used then).
pub open spec fn setting_load_message(path: Seq<char>, outcome: SettingLoad) -> Seq<char> {
    match outcome {
        SettingLoad::NoDir => "Config dir not found"@,
        SettingLoad::NotFound => Seq::empty(),
        SettingLoad::Parsed => Seq::empty(),
        SettingLoad::ReadFailed(e) => "file loading failed "@ + path + " "@ + e@,
        SettingLoad::ParseFailed(e) => "file parsing failed"@ + path + " "@ + e@,
    }
}

impl SettingFileLoader {
    /// The message loading the settings file at `path` reports (see `setting_load_message`).
    pub fn load_err_str(path: &str, outcome: &SettingLoad) -> (s: String)
        ensures
            s@ == setting_load_message(path@, *outcome),
    {
        match outcome {
            SettingLoad::NoDir => string_of("Config dir not found"),
            SettingLoad::NotFound => String::new(),
            SettingLoad::Parsed => String::new(),
            SettingLoad::ReadFailed(e) => {
                let mut s = string_of("file loading failed ");
                s.push_str(path);
                s.push(' ');
                s.push_str(e.as_str());
                proof {
                    assert(s@ =~= "file loading failed "@ + path@ + " "@ + e@) by {
                        reveal_strlit(" ");
                    }
                }
                s
            },
            SettingLoad::ParseFailed(e) => {
                let mut s = string_of("file parsing failed");
                s.push_str(path);
                s.push(' ');
                s.push_str(e.as_str());
                proof {
                    assert(s@ =~= "file parsing failed"@ + path@ + " "@ + e@) by {
                        reveal_strlit(" ");
                    }
                }
                s
            },
        }
    }


    /// A loader for the settings file `filenm` in `filedir_opt`.
    pub fn new(file_type: FileType, args: AppArgs, filedir_opt: Option<String>, filenm: String) -> (l: SettingFileLoader)
        ensures
            l == (SettingFileLoader { file_type, args, filedir_opt, filenm }),
    {
        SettingFileLoader { file_type, args, filedir_opt, filenm }
    }
}

} // verus!
