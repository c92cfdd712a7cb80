//! The settings as a user file gives them: every leaf may be absent, and an absent leaf
//! keeps the built-in value.
use vstd::prelude::*;

verus! {

/// The settings a user file may give; every leaf is optional.
#[derive(Debug, Clone, Default)]
pub struct CfgUser {
    pub general: CfgUserGeneral,
    pub colors: CfgUserColors,
    pub system: CfgUserSystem,
}

#[derive(Debug, Clone, Default)]
pub struct CfgUserGeneral {
    pub lang: Option<String>,
    pub log: CfgUserLog,
    pub editor: CfgUserEditor,
    pub font: CfgUserFont,
    pub prompt: CfgUserPrompt,
    pub context_menu: CfgUserCtxMenu,
    pub menubar: CfgUserMenubar,
    pub mouse: CfgUserGeneralMouse,
    pub word: CfgUserEditorWord,
    pub colors: CfgUserGeneralColors,
    pub view: CfgUserGeneralView,
}

#[derive(Debug, Clone, Default)]
pub struct CfgUserLog {
    pub level: Option<String>,
}

#[derive(Debug, Clone, Default)]
pub struct CfgUserEditor {
    pub search: CfgUserSearch,
    pub tab: CfgUserTab,
    pub format: CfgUserFormat,
    pub scrollbar: CfgUserScrl,
    pub cursor: CfgUserCur,
    pub column_char_width_gap_space: CfgUserEditorColumnCharWidthGap,
    pub save: CfgUserEditorSave,
    pub word: CfgUserEditorWord,
    pub input_comple: CfgUserEditorInputComple,
    pub row_no: CfgUserEditorRowNo,
    pub scale: CfgUserEditorScale,
}

#[derive(Debug, Clone, Default)]
pub struct CfgUserFont {
    pub ambiguous_width: Option<usize>,
}

#[derive(Debug, Clone, Default)]
pub struct CfgUserPrompt {
    pub open_file: CfgUserPromptOpenFile,
}

#[derive(Debug, Clone, Default)]
pub struct CfgUserCtxMenu {
    pub content: Option<String>,
}

#[derive(Debug, Clone, Default)]
pub struct CfgUserMenubar {
    pub content: Option<String>,
}

#[derive(Debug, Clone, Default)]
pub struct CfgUserSearch {
    pub case_sensitive: Option<bool>,
    pub regex: Option<bool>,
}

#[derive(Debug, Clone, Default)]
pub struct CfgUserTab {
    pub size: Option<usize>,
    pub input_type: Option<String>,
}

#[derive(Debug, Clone, Default)]
pub struct CfgUserFormat {
    pub indent_type: Option<String>,
    pub indent_size: Option<usize>,
}

#[derive(Debug, Clone, Default)]
pub struct CfgUserScrl {
    pub vertical: CfgUserScrlVertical,
    pub horizontal: CfgUserScrlHorizontal,
}

#[derive(Debug, Clone, Default)]
pub struct CfgUserScrlVertical {
    pub width: Option<usize>,
}

#[derive(Debug, Clone, Default)]
pub struct CfgUserScrlHorizontal {
    pub height: Option<usize>,
}

#[derive(Debug, Clone, Default)]
pub struct CfgUserCur {
    pub move_position_by_scrolling_enable: Option<bool>,
}

#[derive(Debug, Clone, Default)]
pub struct CfgUserEditorColumnCharWidthGap {
    pub character: Option<char>,
    pub end_of_line_enable: Option<bool>,
}

#[derive(Debug, Clone, Default)]
pub struct CfgUserEditorSave {
    pub use_string_first_line_for_file_name_of_new_file: Option<bool>,
    pub extension_when_saving_new_file: Option<String>,
    pub candidate_extension_when_saving_new_file: Option<Vec<String>>,
}

#[derive(Debug, Clone, Default)]
pub struct CfgUserEditorWord {
    pub word_delimiter: Option<String>,
}

#[derive(Debug, Clone, Default)]
pub struct CfgUserEditorInputComple {
    pub word_delimiter: Option<String>,
    pub case_sensitive: Option<bool>,
}

#[derive(Debug, Clone, Default)]
pub struct CfgUserEditorRowNo {
    pub is_enable: Option<bool>,
}

#[derive(Debug, Clone, Default)]
pub struct CfgUserEditorScale {
    pub is_enable: Option<bool>,
}

#[derive(Debug, Clone, Default)]
pub struct CfgUserPromptOpenFile {
    pub directory_init_value: Option<String>,
}

#[derive(Debug, Clone, Default)]
pub struct CfgUserGeneralMouse {
    pub mouse_enable: Option<bool>,
}

#[derive(Debug, Clone, Default)]
pub struct CfgUserGeneralView {
    pub tab_characters_as_symbols: Option<String>,
    pub full_width_space_characters_as_symbols: Option<String>,
}

#[derive(Debug, Clone, Default)]
pub struct CfgUserGeneralColors {
    pub theme: CfgUserColorTheme,
}

/// The colors a user file may give.
#[derive(Debug, Clone, Default)]
pub struct CfgUserColors {
    pub system: CfgUserColorSystem,
    pub headerbar: CfgUserColorHeaderBar,
    pub menubar: CfgUserColorMenuBar,
    pub filebar: CfgUserColorFileBar,
    pub editor: CfgUserColorEditor,
    pub statusbar: CfgUserColorStatusBar,
    pub ctx_menu: CfgUserColorCtxMenu,
    pub msg: CfgUserColorMsg,
    pub file: CfgUserColorFile,
}

#[derive(Debug, Clone, Default)]
pub struct CfgUserColorSystem {
    pub btn: CfgUserColorSystemBtn,
    pub state: CfgUserColorSystemState,
}

#[derive(Debug, Clone, Default)]
pub struct CfgUserColorSystemBtn {
    pub background: Option<String>,
    pub foreground: Option<String>,
}

#[derive(Debug, Clone, Default)]
pub struct CfgUserColorSystemState {
    pub background: Option<String>,
    pub foreground: Option<String>,
}

#[derive(Debug, Clone, Default)]
pub struct CfgUserColorTheme {
    pub highlight_theme_path: Option<String>,
    pub highlight_theme_background_enable: Option<bool>,
    pub theme_bg_enable: bool,
    pub disable_highlight_ext: Option<Vec<String>>,
    pub disable_syntax_highlight_file_size: Option<usize>,
    pub default_color_theme: Option<String>,
}

#[derive(Debug, Clone, Default)]
pub struct CfgUserTmpColors {
    pub colors: CfgUserColors,
}

#[derive(Debug, Clone, Default)]
pub struct CfgUserColorEditor {
    pub background: Option<String>,
    pub foreground: Option<String>,
    pub line_number: CfgUserColorEditorLineNumber,
    pub selection: CfgUserColorEditorSelection,
    pub search: CfgUserColorEditorSearch,
    pub control_char: CfgUserColorEditorControlChar,
    pub column_char_width_gap_space: CfgUserColorEditorColumnCharWidthGap,
    pub scrollbar: CfgUserColorScrollbar,
    pub scale: CfgUserColorEditorScale,
}

#[derive(Debug, Clone, Default)]
pub struct CfgUserColorEditorLineNumber {
    pub active_background: Option<String>,
    pub active_foreground: Option<String>,
    pub passive_background: Option<String>,
    pub passive_foreground: Option<String>,
}

#[derive(Debug, Clone, Default)]
pub struct CfgUserColorEditorSelection {
    pub background: Option<String>,
    pub foreground: Option<String>,
}

#[derive(Debug, Clone, Default)]
pub struct CfgUserColorEditorSearch {
    pub background: Option<String>,
    pub foreground: Option<String>,
}

#[derive(Debug, Clone, Default)]
pub struct CfgUserColorEditorControlChar {
    pub foreground: Option<String>,
}

#[derive(Debug, Clone, Default)]
pub struct CfgUserColorEditorColumnCharWidthGap {
    pub foreground: Option<String>,
    pub background: Option<String>,
}

#[derive(Debug, Clone, Default)]
pub struct CfgUserColorScrollbar {
    pub horizontal_background: Option<String>,
    pub vertical_background: Option<String>,
}

#[derive(Debug, Clone, Default)]
pub struct CfgUserColorEditorScale {
    pub foreground: Option<String>,
    pub background: Option<String>,
}

#[derive(Debug, Clone, Default)]
pub struct CfgUserColorHeaderBar {
    pub tab_active_background: Option<String>,
    pub tab_active_foreground: Option<String>,
    pub tab_passive_background: Option<String>,
    pub tab_passive_foreground: Option<String>,
}

#[derive(Debug, Clone, Default)]
pub struct CfgUserColorMenuBar {
    pub active_foreground: Option<String>,
    pub active_background: Option<String>,
    pub passive_foreground: Option<String>,
    pub passive_background: Option<String>,
    pub default_background: Option<String>,
}

#[derive(Debug, Clone, Default)]
pub struct CfgUserColorFileBar {
    pub active_background: Option<String>,
    pub active_foreground: Option<String>,
    pub passive_background: Option<String>,
    pub passive_foreground: Option<String>,
    pub default_background: Option<String>,
}

#[derive(Debug, Clone, Default)]
pub struct CfgUserColorStatusBar {
    pub foreground: Option<String>,
}

#[derive(Debug, Clone, Default)]
pub struct CfgUserColorCtxMenu {
    pub non_select_background: Option<String>,
    pub select_background: Option<String>,
    pub non_select_foreground: Option<String>,
    pub select_foreground: Option<String>,
}

#[derive(Debug, Clone, Default)]
pub struct CfgUserColorMsg {
    pub normal_foreground: Option<String>,
    pub highlight_foreground: Option<String>,
    pub warning_foreground: Option<String>,
    pub err_foreground: Option<String>,
}

#[derive(Debug, Clone, Default)]
pub struct CfgUserColorFile {
    pub normal_foreground: Option<String>,
    pub directory_foreground: Option<String>,
    pub executable_foreground: Option<String>,
}

#[derive(Debug, Clone, Default)]
pub struct CfgUserSystem {
    pub os: CfgUserOS,
}

#[derive(Debug, Clone, Default)]
pub struct CfgUserOS {
    pub windows: CfgUserWindows,
}

#[derive(Debug, Clone, Default)]
pub struct CfgUserWindows {
    pub change_output_encoding_utf8: Option<bool>,
}

} // verus!
