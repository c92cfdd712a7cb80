//! The editor's settings: the internal configuration, the user's overrides, and how the
//! latter are merged into the former.
use crate::colors::Color;
use vstd::prelude::*;
use vstd::string::StringExecFns;

verus! {

/// The internal configuration of the editor.
#[derive(Debug, Clone, Default)]
pub struct Cfg {
    pub general: CfgGeneral,
    pub system: CfgSystem,
    pub colors: CfgColors,
}

#[derive(Debug, Clone, Default)]
pub struct CfgGeneral {
    pub lang: String,
    pub log: CfgLog,
    pub editor: CfgEditor,
    pub font: CfgFont,
    pub prompt: CfgPrompt,
    pub context_menu: CfgCtxMenu,
    pub mouse: CfgGeneralMouse,
    pub colors: CfgGeneralColors,
}

#[derive(Debug, Clone)]
pub struct CfgLog {
    pub level: String,
}

#[derive(Debug, Clone, Default)]
pub struct CfgEditor {
    pub search: CfgSearch,
    pub tab: CfgTab,
    pub format: CfgFormat,
    pub scrollbar: CfgScrl,
    pub cursor: CfgCur,
    pub column_char_width_gap_space: CfgUserEditorColumnCharWidthGap,
    pub save: CfgEditorSave,
    pub word: CfgEditorWord,
    pub input_comple: CfgEditorInputComple,
    pub row_no: CfgEditorRowNo,
}

#[derive(Debug, Clone, Default)]
pub struct CfgFont {
    pub ambiguous_width: Option<usize>,
}

#[derive(Debug, Clone, Default)]
pub struct CfgPrompt {
    pub open_file: CfgPromptOpenFile,
}

#[derive(Debug, Clone, Default)]
pub struct CfgCtxMenu {
    pub content: String,
}

#[derive(Debug, Clone, Copy, Default, PartialEq, Eq, Structural)]
pub struct CfgSearch {
    pub case_sensitive: bool,
    pub regex: bool,
}

#[derive(Debug, Clone, Default)]
pub struct CfgTab {
    pub size: usize,
    pub input_type: String,
    pub tab_type: TabType,
    pub tab: String,
}

#[derive(Debug, Clone, Default)]
pub struct CfgFormat {
    pub indent_type: String,
    pub indent_size: usize,
    pub tab_type: TabType,
    pub indent: String,
}

#[derive(Debug, Clone, Default)]
pub struct CfgScrl {
    pub vertical: CfgScrlVertical,
    pub horizontal: CfgScrlHorizontal,
}

#[derive(Debug, Clone, Default)]
pub struct CfgScrlVertical {
    pub width: usize,
}

#[derive(Debug, Clone, Default)]
pub struct CfgScrlHorizontal {
    pub height: usize,
}

#[derive(Debug, Clone, Default)]
pub struct CfgCur {
    pub move_position_by_scrolling_enable: bool,
}

#[derive(Debug, Clone, Default)]
pub struct CfgUserEditorColumnCharWidthGap {
    pub character: char,
    pub end_of_line_enable: bool,
}

#[derive(Debug, Clone, Default)]
pub struct CfgEditorSave {
    pub use_string_first_line_for_file_name_of_new_file: bool,
    pub extension_when_saving_new_file: String,
}

#[derive(Debug, Clone, Default)]
pub struct CfgEditorWord {
    pub word_delimiter: String,
}

#[derive(Debug, Clone, Default)]
pub struct CfgEditorInputComple {
    pub word_delimiter: String,
    pub case_sensitive: bool,
}

#[derive(Debug, Clone, Default)]
pub struct CfgEditorRowNo {
    pub is_enable: bool,
}

#[derive(Debug, Clone, Default, PartialEq, Eq)]
pub struct CfgPromptOpenFile {
    pub directory_init_value: String,
}

/// How a tab key press is turned into text.
#[derive(Debug, Clone, Copy, PartialEq, Eq, Structural)]
pub enum TabType {
    Tab,
    HalfWidthBlank,
}

impl Default for TabType {
    fn default() -> (t: TabType)
        ensures
            t == TabType::Tab,
    {
        TabType::Tab
    }
}

impl Default for CfgLog {
    fn default() -> (l: CfgLog)
        ensures
            l.level@ == "info"@,
    {
        CfgLog { level: String::from_str("info") }
    }
}

#[derive(Debug, Default, Clone)]
pub struct CfgGeneralColors {
    pub theme: CfgColorTheme,
}

#[derive(Debug, Default, Clone)]
pub struct CfgGeneralMouse {
    pub mouse_enable: bool,
}

#[derive(Debug, Default, Clone)]
pub struct CfgColors {
    pub system: CfgColorSystem,
    pub headerbar: CfgColorHeaderBar,
    pub menubar: CfgColorMenuBar,
    pub filebar: CfgColorFileBar,
    pub editor: CfgColorEditor,
    pub statusbar: CfgColorStatusBar,
    pub ctx_menu: CfgColorCtxMenu,
    pub msg: CfgColorMsg,
    pub file: CfgColorFile,
}

#[derive(Debug, Default, Clone)]
pub struct CfgColorSystem {
    pub btn: CfgColorSystemBtn,
    pub state: CfgColorSystemState,
}

#[derive(Debug, Default, Clone)]
pub struct CfgColorSystemBtn {
    pub background: String,
    pub foreground: String,
    pub bg: Color,
    pub fg: Color,
}

#[derive(Debug, Default, Clone)]
pub struct CfgColorSystemState {
    pub background: String,
    pub foreground: String,
    pub bg: Color,
    pub fg: Color,
}

#[derive(Debug, Default, Clone)]
pub struct CfgColorTheme {
    pub highlight_theme_path: Option<String>,
    pub highlight_theme_background_enable: Option<bool>,
    pub theme_bg_enable: bool,
    pub disable_highlight_ext: Vec<String>,
    pub disable_syntax_highlight_file_size: usize,
    pub default_color_theme: String,
}

/// The system color theme.
#[derive(Debug, Clone, Copy, PartialEq, Eq, Structural)]
pub enum ThemeSystemColorType {
    Black,
    White,
    Blue,
}

impl Default for ThemeSystemColorType {
    fn default() -> (t: ThemeSystemColorType)
        ensures
            t == ThemeSystemColorType::White,
    {
        ThemeSystemColorType::White
    }
}

#[derive(Debug, Clone, Default)]
pub struct CfgTmpColors {
    pub colors: CfgColors,
}

#[derive(Debug, Default, Clone)]
pub struct CfgColorEditor {
    pub background: String,
    pub foreground: String,
    pub bg: Color,
    pub fg: Color,
    pub line_number: CfgColorEditorLineNumber,
    pub selection: CfgColorEditorSelection,
    pub search: CfgColorEditorSearch,
    pub control_char: CfgColorEditorControlChar,
    pub column_char_width_gap_space: CfgColorEditorColumnCharWidthGapSpace,
    pub scrollbar: CfgColorEditorScrollbar,
    pub scale: CfgColorEditorScale,
    pub window: CfgColorEditorWindow,
}

#[derive(Debug, Default, Clone)]
pub struct CfgColorEditorLineNumber {
    pub active_background: String,
    pub active_foreground: String,
    pub passive_background: String,
    pub passive_foreground: String,
    pub active_bg: Color,
    pub active_fg: Color,
    pub passive_bg: Color,
    pub passive_fg: Color,
}

#[derive(Debug, Default, Clone)]
pub struct CfgColorEditorSelection {
    pub background: String,
    pub foreground: String,
    pub bg: Color,
    pub fg: Color,
}

#[derive(Debug, Default, Clone)]
pub struct CfgColorEditorSearch {
    pub background: String,
    pub foreground: String,
    pub bg: Color,
    pub fg: Color,
}

#[derive(Debug, Default, Clone)]
pub struct CfgColorEditorControlChar {
    pub foreground: String,
    pub fg: Color,
}

#[derive(Debug, Default, Clone)]
pub struct CfgColorEditorColumnCharWidthGapSpace {
    pub foreground: String,
    pub fg: Color,
    pub background: String,
    pub bg: Color,
}

#[derive(Debug, Default, Clone)]
pub struct CfgColorEditorScrollbar {
    pub horizontal_background: String,
    pub bg_horizontal: Color,
    pub vertical_background: String,
    pub bg_vertical: Color,
}

#[derive(Debug, Default, Clone)]
pub struct CfgColorEditorScale {
    pub foreground: String,
    pub background: String,
    pub fg: Color,
    pub bg: Color,
}

#[derive(Debug, Default, Clone)]
pub struct CfgColorEditorWindow {
    pub split_line: CfgColorEditorWindowSplitLine,
}

#[derive(Debug, Default, Clone)]
pub struct CfgColorEditorWindowSplitLine {
    pub background: String,
    pub bg: Color,
}

#[derive(Debug, Default, Clone)]
pub struct CfgColorHeaderBar {
    pub foreground: String,
    pub fg: Color,
    pub tab_active_foreground: String,
    pub fg_tab_active: Color,
    pub tab_active_background: String,
    pub bg_tab_active: Color,
    pub tab_passive_foreground: String,
    pub fg_tab_passive: Color,
    pub tab_passive_background: String,
    pub bg_tab_passive: Color,
}

#[derive(Debug, Default, Clone)]
pub struct CfgColorMenuBar {
    pub active_foreground: String,
    pub active_background: String,
    pub passive_foreground: String,
    pub passive_background: String,
    pub default_background: String,
    pub fg_active: Color,
    pub bg_active: Color,
    pub fg_passive: Color,
    pub bg_passive: Color,
    pub bg_default: Color,
}

#[derive(Debug, Default, Clone)]
pub struct CfgColorFileBar {
    pub active_foreground: String,
    pub active_background: String,
    pub passive_foreground: String,
    pub passive_background: String,
    pub default_background: String,
    pub fg_active: Color,
    pub bg_active: Color,
    pub fg_passive: Color,
    pub bg_passive: Color,
    pub bg_default: Color,
}

#[derive(Debug, Default, Clone)]
pub struct CfgColorStatusBar {
    pub foreground: String,
    pub fg: Color,
}

#[derive(Debug, Default, Clone)]
pub struct CfgColorCtxMenu {
    pub non_select_background: String,
    pub bg_non_sel: Color,
    pub select_background: String,
    pub bg_sel: Color,
    pub non_select_foreground: String,
    pub fg_non_sel: Color,
    pub select_foreground: String,
    pub fg_sel: Color,
}

#[derive(Debug, Default, Clone)]
pub struct CfgColorMsg {
    pub normal_foreground: String,
    pub highlight_foreground: String,
    pub warning_foreground: String,
    pub err_foreground: String,
    pub normal_fg: Color,
    pub highlight_fg: Color,
    pub warning_fg: Color,
    pub err_fg: Color,
}

#[derive(Debug, Default, Clone)]
pub struct CfgColorFile {
    pub normal_foreground: String,
    pub directory_foreground: String,
    pub executable_foreground: String,
    pub normal_fg: Color,
    pub directory_fg: Color,
    pub executable_fg: Color,
}

#[derive(Debug, Clone, Default)]
pub struct CfgSystem {
    pub os: CfgOS,
}

#[derive(Debug, Clone, Default)]
pub struct CfgOS {
    pub windows: CfgWindows,
}

#[derive(Debug, Clone, Default)]
pub struct CfgWindows {
    pub change_output_encoding_utf8: bool,
}

/// The configuration as it is being edited while the editor runs
/// (search options and display switches toggled by the user).
#[derive(Debug, Clone, Default)]
pub struct CfgEdit {
    pub cfg: Cfg,
}

} // verus!
