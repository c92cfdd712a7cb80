//! Merging the user's settings into the configuration, and the values derived from it.
use crate::cfg::{
    Cfg, CfgColorCtxMenu, CfgColorEditor, CfgColorEditorColumnCharWidthGapSpace, CfgColorEditorControlChar,
    CfgColorEditorLineNumber, CfgColorEditorScrollbar, CfgColorEditorSearch, CfgColorEditorSelection, CfgColorFile,
    CfgColorHeaderBar, CfgColorMsg, CfgColorStatusBar, CfgColorSystem, CfgColorSystemBtn, CfgColorSystemState,
    CfgColorTheme, CfgColors, CfgCtxMenu, CfgCur, CfgEditor, CfgEditorSave, CfgFont, CfgFormat, CfgGeneralColors,
    CfgEdit, CfgGeneralMouse, CfgOS, CfgScrl, CfgScrlHorizontal, CfgScrlVertical, CfgSearch, CfgSystem, CfgTab, CfgWindows, TabType, ThemeSystemColorType,
};
use crate::cfg_user::{CfgUser, CfgUserColorTheme, CfgUserColors, CfgUserEditor};
use crate::colors::{hex_color_value, rgb_color, Color, Colors};
use crate::text::{str_eq, string_of};
use vstd::prelude::*;
use vstd::string::StringExecFns;

verus! {

/// The user's value where one is given, otherwise the current one.
pub open spec fn or_keep<T>(o: Option<T>, v: T) -> T {
    match o {
        Some(x) => x,
        None => v,
    }
}

/// The user's optional value where one is given, otherwise the current optional value.
pub open spec fn some_or_keep<T>(o: Option<T>, v: Option<T>) -> Option<T> {
    if o is Some { o } else { v }
}

/// The editor settings with the user's editor settings applied.
pub open spec fn editor_with_user(e: CfgEditor, u: CfgUserEditor) -> CfgEditor {
    CfgEditor {
        search: CfgSearch {
            case_sensitive: or_keep(u.search.case_sensitive, e.search.case_sensitive),
            regex: or_keep(u.search.regex, e.search.regex),
        },
        tab: CfgTab { size: or_keep(u.tab.size, e.tab.size), input_type: or_keep(u.tab.input_type, e.tab.input_type), ..e.tab },
        format: CfgFormat {
            indent_type: or_keep(u.format.indent_type, e.format.indent_type),
            indent_size: or_keep(u.format.indent_size, e.format.indent_size),
            ..e.format
        },
        scrollbar: CfgScrl {
            vertical: CfgScrlVertical { width: or_keep(u.scrollbar.vertical.width, e.scrollbar.vertical.width) },
            horizontal: CfgScrlHorizontal { height: or_keep(u.scrollbar.horizontal.height, e.scrollbar.horizontal.height) },
        },
        cursor: CfgCur {
            move_position_by_scrolling_enable: or_keep(
                u.cursor.move_position_by_scrolling_enable,
                e.cursor.move_position_by_scrolling_enable,
            ),
        },
        column_char_width_gap_space: crate::cfg::CfgUserEditorColumnCharWidthGap {
            character: or_keep(u.column_char_width_gap_space.character, e.column_char_width_gap_space.character),
            end_of_line_enable: or_keep(
                u.column_char_width_gap_space.end_of_line_enable,
                e.column_char_width_gap_space.end_of_line_enable,
            ),
        },
        save: CfgEditorSave {
            use_string_first_line_for_file_name_of_new_file: or_keep(
                u.save.use_string_first_line_for_file_name_of_new_file,
                e.save.use_string_first_line_for_file_name_of_new_file,
            ),
            extension_when_saving_new_file: or_keep(u.save.extension_when_saving_new_file, e.save.extension_when_saving_new_file),
        },
        ..e
    }
}

/// The color-theme settings with the user's theme settings applied.
pub open spec fn theme_with_user(t: CfgColorTheme, u: CfgUserColorTheme) -> CfgColorTheme {
    CfgColorTheme {
        highlight_theme_path: some_or_keep(u.highlight_theme_path, t.highlight_theme_path),
        highlight_theme_background_enable: some_or_keep(u.highlight_theme_background_enable, t.highlight_theme_background_enable),
        disable_highlight_ext: or_keep(u.disable_highlight_ext, t.disable_highlight_ext),
        disable_syntax_highlight_file_size: or_keep(u.disable_syntax_highlight_file_size, t.disable_syntax_highlight_file_size),
        default_color_theme: or_keep(u.default_color_theme, t.default_color_theme),
        ..t
    }
}

/// The display language: Japanese when the user asks for `ja_JP`, English otherwise.
pub open spec fn lang_setting(u: Option<String>) -> Seq<char> {
    match u {
        Some(s) => if s@ == "ja_JP"@ { "ja_JP"@ } else { "en_US"@ },
        None => "en_US"@,
    }
}

/// The log level: `debug` or `error` when the user asks for it, `info` otherwise.
pub open spec fn log_level_setting(u: Option<String>) -> Seq<char> {
    match u {
        Some(s) => if s@ == "debug"@ { "debug"@ } else if s@ == "error"@ { "error"@ } else { "info"@ },
        None => "info"@,
    }
}

/// The initial directory of the open-file prompt: the current directory when the setting
/// asks for it by the word `current_directory`, otherwise the setting itself.
pub open spec fn directory_init_setting(v: Seq<char>, current_dir: Seq<char>) -> Seq<char> {
    if v == "current_directory"@ { current_dir } else { v }
}

/// How the words of the tab settings read: `half_width_blank` for blanks, anything else a tab.
pub open spec fn tab_type_of(s: Seq<char>) -> TabType {
    if s == "half_width_blank"@ { TabType::HalfWidthBlank } else { TabType::Tab }
}

/// The text one indentation step inserts: a tab, or `size` blanks.
pub open spec fn indent_text(t: TabType, size: nat) -> Seq<char> {
    match t {
        TabType::Tab => seq!['\t'],
        TabType::HalfWidthBlank => Seq::new(size, |i: int| ' '),
    }
}

/// The color a hex setting names (meaningful where it parses).
pub open spec fn hex_rgb(s: Seq<char>) -> Color {
    rgb_color(hex_color_value(s).unwrap())
}

/// Every color setting that the conversion reads is a hex color.
pub open spec fn colors_parse(c: CfgColors) -> bool {
    &&& hex_color_value(c.system.btn.background@) is Some
    &&& hex_color_value(c.system.btn.foreground@) is Some
    &&& hex_color_value(c.system.state.background@) is Some
    &&& hex_color_value(c.system.state.foreground@) is Some
    &&& hex_color_value(c.headerbar.tab_active_foreground@) is Some
    &&& hex_color_value(c.headerbar.tab_active_background@) is Some
    &&& hex_color_value(c.headerbar.tab_passive_foreground@) is Some
    &&& hex_color_value(c.headerbar.tab_passive_background@) is Some
    &&& hex_color_value(c.editor.foreground@) is Some
    &&& hex_color_value(c.editor.background@) is Some
    &&& hex_color_value(c.editor.line_number.active_background@) is Some
    &&& hex_color_value(c.editor.line_number.active_foreground@) is Some
    &&& hex_color_value(c.editor.line_number.passive_background@) is Some
    &&& hex_color_value(c.editor.line_number.passive_foreground@) is Some
    &&& hex_color_value(c.editor.selection.background@) is Some
    &&& hex_color_value(c.editor.selection.foreground@) is Some
    &&& hex_color_value(c.editor.search.background@) is Some
    &&& hex_color_value(c.editor.search.foreground@) is Some
    &&& hex_color_value(c.editor.control_char.foreground@) is Some
    &&& hex_color_value(c.editor.column_char_width_gap_space.foreground@) is Some
    &&& hex_color_value(c.editor.column_char_width_gap_space.background@) is Some
    &&& hex_color_value(c.editor.scrollbar.vertical_background@) is Some
    &&& hex_color_value(c.editor.scrollbar.horizontal_background@) is Some
    &&& hex_color_value(c.msg.normal_foreground@) is Some
    &&& hex_color_value(c.msg.highlight_foreground@) is Some
    &&& hex_color_value(c.msg.warning_foreground@) is Some
    &&& hex_color_value(c.msg.err_foreground@) is Some
    &&& hex_color_value(c.statusbar.foreground@) is Some
    &&& hex_color_value(c.ctx_menu.select_foreground@) is Some
    &&& hex_color_value(c.ctx_menu.non_select_foreground@) is Some
    &&& hex_color_value(c.ctx_menu.select_background@) is Some
    &&& hex_color_value(c.ctx_menu.non_select_background@) is Some
    &&& hex_color_value(c.file.normal_foreground@) is Some
    &&& hex_color_value(c.file.directory_foreground@) is Some
    &&& hex_color_value(c.file.executable_foreground@) is Some
}

/// The colors with every converted color set from its hex setting.
pub open spec fn converted_colors(c: CfgColors) -> CfgColors {
    CfgColors {
        system: CfgColorSystem {
            btn: CfgColorSystemBtn {
                bg: hex_rgb(c.system.btn.background@),
                fg: hex_rgb(c.system.btn.foreground@),
                ..c.system.btn
            },
            state: CfgColorSystemState {
                bg: hex_rgb(c.system.state.background@),
                fg: hex_rgb(c.system.state.foreground@),
                ..c.system.state
            },
            ..c.system
        },
        headerbar: CfgColorHeaderBar {
            fg_tab_active: hex_rgb(c.headerbar.tab_active_foreground@),
            bg_tab_active: hex_rgb(c.headerbar.tab_active_background@),
            fg_tab_passive: hex_rgb(c.headerbar.tab_passive_foreground@),
            bg_tab_passive: hex_rgb(c.headerbar.tab_passive_background@),
            ..c.headerbar
        },
        editor: CfgColorEditor {
            fg: hex_rgb(c.editor.foreground@),
            bg: hex_rgb(c.editor.background@),
            line_number: CfgColorEditorLineNumber {
                active_bg: hex_rgb(c.editor.line_number.active_background@),
                active_fg: hex_rgb(c.editor.line_number.active_foreground@),
                passive_bg: hex_rgb(c.editor.line_number.passive_background@),
                passive_fg: hex_rgb(c.editor.line_number.passive_foreground@),
                ..c.editor.line_number
            },
            selection: CfgColorEditorSelection {
                bg: hex_rgb(c.editor.selection.background@),
                fg: hex_rgb(c.editor.selection.foreground@),
                ..c.editor.selection
            },
            search: CfgColorEditorSearch {
                bg: hex_rgb(c.editor.search.background@),
                fg: hex_rgb(c.editor.search.foreground@),
                ..c.editor.search
            },
            control_char: CfgColorEditorControlChar {
                fg: hex_rgb(c.editor.control_char.foreground@),
                ..c.editor.control_char
            },
            column_char_width_gap_space: CfgColorEditorColumnCharWidthGapSpace {
                fg: hex_rgb(c.editor.column_char_width_gap_space.foreground@),
                bg: hex_rgb(c.editor.column_char_width_gap_space.background@),
                ..c.editor.column_char_width_gap_space
            },
            scrollbar: CfgColorEditorScrollbar {
                bg_vertical: hex_rgb(c.editor.scrollbar.vertical_background@),
                bg_horizontal: hex_rgb(c.editor.scrollbar.horizontal_background@),
                ..c.editor.scrollbar
            },
            ..c.editor
        },
        msg: CfgColorMsg {
            normal_fg: hex_rgb(c.msg.normal_foreground@),
            highlight_fg: hex_rgb(c.msg.highlight_foreground@),
            warning_fg: hex_rgb(c.msg.warning_foreground@),
            err_fg: hex_rgb(c.msg.err_foreground@),
            ..c.msg
        },
        statusbar: CfgColorStatusBar {
            fg: hex_rgb(c.statusbar.foreground@),
            ..c.statusbar
        },
        ctx_menu: CfgColorCtxMenu {
            fg_sel: hex_rgb(c.ctx_menu.select_foreground@),
            fg_non_sel: hex_rgb(c.ctx_menu.non_select_foreground@),
            bg_sel: hex_rgb(c.ctx_menu.select_background@),
            bg_non_sel: hex_rgb(c.ctx_menu.non_select_background@),
            ..c.ctx_menu
        },
        file: CfgColorFile {
            normal_fg: hex_rgb(c.file.normal_foreground@),
            directory_fg: hex_rgb(c.file.directory_foreground@),
            executable_fg: hex_rgb(c.file.executable_foreground@),
            ..c.file
        },
        ..c
    }
}

/// The color settings with the user's color settings applied: each color a user gives
/// replaces the one of the same name (the search, selection and control-character colors
/// each in their own fields), and every other setting stays.
pub open spec fn colors_with_user(c: CfgColors, u: CfgUserColors) -> CfgColors {
    CfgColors {
        system: CfgColorSystem {
            btn: CfgColorSystemBtn {
                background: or_keep(u.system.btn.background, c.system.btn.background),
                foreground: or_keep(u.system.btn.foreground, c.system.btn.foreground),
                ..c.system.btn
            },
            state: CfgColorSystemState {
                background: or_keep(u.system.state.background, c.system.state.background),
                foreground: or_keep(u.system.state.foreground, c.system.state.foreground),
                ..c.system.state
            },
            ..c.system
        },
        headerbar: CfgColorHeaderBar {
            tab_active_background: or_keep(u.headerbar.tab_active_background, c.headerbar.tab_active_background),
            tab_active_foreground: or_keep(u.headerbar.tab_active_foreground, c.headerbar.tab_active_foreground),
            tab_passive_background: or_keep(u.headerbar.tab_passive_background, c.headerbar.tab_passive_background),
            tab_passive_foreground: or_keep(u.headerbar.tab_passive_foreground, c.headerbar.tab_passive_foreground),
            ..c.headerbar
        },
        editor: CfgColorEditor {
            background: or_keep(u.editor.background, c.editor.background),
            foreground: or_keep(u.editor.foreground, c.editor.foreground),
            line_number: CfgColorEditorLineNumber {
                active_background: or_keep(u.editor.line_number.active_background, c.editor.line_number.active_background),
                active_foreground: or_keep(u.editor.line_number.active_foreground, c.editor.line_number.active_foreground),
                passive_background: or_keep(u.editor.line_number.passive_background, c.editor.line_number.passive_background),
                passive_foreground: or_keep(u.editor.line_number.passive_foreground, c.editor.line_number.passive_foreground),
                ..c.editor.line_number
            },
            selection: CfgColorEditorSelection {
                background: or_keep(u.editor.selection.background, c.editor.selection.background),
                foreground: or_keep(u.editor.selection.foreground, c.editor.selection.foreground),
                ..c.editor.selection
            },
            search: CfgColorEditorSearch {
                background: or_keep(u.editor.search.background, c.editor.search.background),
                foreground: or_keep(u.editor.search.foreground, c.editor.search.foreground),
                ..c.editor.search
            },
            control_char: CfgColorEditorControlChar {
                foreground: or_keep(u.editor.control_char.foreground, c.editor.control_char.foreground),
                ..c.editor.control_char
            },
            column_char_width_gap_space: CfgColorEditorColumnCharWidthGapSpace {
                background: or_keep(u.editor.column_char_width_gap_space.background, c.editor.column_char_width_gap_space.background),
                foreground: or_keep(u.editor.column_char_width_gap_space.foreground, c.editor.column_char_width_gap_space.foreground),
                ..c.editor.column_char_width_gap_space
            },
            scrollbar: CfgColorEditorScrollbar {
                horizontal_background: or_keep(u.editor.scrollbar.horizontal_background, c.editor.scrollbar.horizontal_background),
                vertical_background: or_keep(u.editor.scrollbar.vertical_background, c.editor.scrollbar.vertical_background),
                ..c.editor.scrollbar
            },
            ..c.editor
        },
        statusbar: CfgColorStatusBar {
            foreground: or_keep(u.statusbar.foreground, c.statusbar.foreground),
            ..c.statusbar
        },
        ctx_menu: CfgColorCtxMenu {
            non_select_background: or_keep(u.ctx_menu.non_select_background, c.ctx_menu.non_select_background),
            non_select_foreground: or_keep(u.ctx_menu.non_select_foreground, c.ctx_menu.non_select_foreground),
            select_background: or_keep(u.ctx_menu.select_background, c.ctx_menu.select_background),
            select_foreground: or_keep(u.ctx_menu.select_foreground, c.ctx_menu.select_foreground),
            ..c.ctx_menu
        },
        msg: CfgColorMsg {
            normal_foreground: or_keep(u.msg.normal_foreground, c.msg.normal_foreground),
            highlight_foreground: or_keep(u.msg.highlight_foreground, c.msg.highlight_foreground),
            warning_foreground: or_keep(u.msg.warning_foreground, c.msg.warning_foreground),
            err_foreground: or_keep(u.msg.err_foreground, c.msg.err_foreground),
            ..c.msg
        },
        file: CfgColorFile {
            normal_foreground: or_keep(u.file.normal_foreground, c.file.normal_foreground),
            directory_foreground: or_keep(u.file.directory_foreground, c.file.directory_foreground),
            executable_foreground: or_keep(u.file.executable_foreground, c.file.executable_foreground),
            ..c.file
        },
        ..c
    }
}

impl TabType {
    /// The tab type a setting word names.
    pub fn from_str(s: &str) -> (t: TabType)
        ensures
            t == tab_type_of(s@),
    {
        proof {
            reveal_strlit("tab");
            reveal_strlit("half_width_blank");
            assert("tab"@.len() != "half_width_blank"@.len());
        }
        if str_eq(s, "tab") {
            TabType::Tab
        } else if str_eq(s, "half_width_blank") {
            TabType::HalfWidthBlank
        } else {
            TabType::Tab
        }
    }
}

/// `n` blanks.
fn blanks(n: usize) -> (r: String)
    ensures
        r@ == Seq::new(n as nat, |i: int| ' '),
{
    let mut r = String::new();
    let mut i: usize = 0;
    while i < n
        invariant
            i <= n,
            r@ == Seq::new(i as nat, |k: int| ' '),
        decreases n - i,
    {
        r.push(' ');
        i = i + 1;
        assert(r@ =~= Seq::new(i as nat, |k: int| ' '));
    }
    r
}

/// The text of one indentation step of the given type.
fn indent_string(t: TabType, size: usize) -> (r: String)
    ensures
        r@ == indent_text(t, size as nat),
{
    match t {
        TabType::Tab => {
            let mut r = String::new();
            r.push('\t');
            r
        },
        TabType::HalfWidthBlank => blanks(size),
    }
}

/// Replace the value behind `dst` with the given one, if any.
fn set_if<T>(dst: &mut T, o: Option<T>)
    ensures
        *final(dst) == or_keep(o, *old(dst)),
{
    if let Some(v) = o {
        *dst = v;
    }
}

/// Replace the optional value behind `dst` with the given one, if any.
fn set_some<T>(dst: &mut Option<T>, o: Option<T>)
    ensures
        *final(dst) == some_or_keep(o, *old(dst)),
{
    if o.is_some() {
        *dst = o;
    }
}

/// Apply the user's editor settings.
fn apply_user_editor(e: &mut CfgEditor, u: CfgUserEditor)
    ensures
        *final(e) == editor_with_user(*old(e), u),
{
    set_if(&mut e.search.case_sensitive, u.search.case_sensitive);
    set_if(&mut e.search.regex, u.search.regex);
    set_if(&mut e.tab.size, u.tab.size);
    set_if(&mut e.tab.input_type, u.tab.input_type);
    set_if(&mut e.format.indent_type, u.format.indent_type);
    set_if(&mut e.format.indent_size, u.format.indent_size);
    set_if(&mut e.scrollbar.vertical.width, u.scrollbar.vertical.width);
    set_if(&mut e.scrollbar.horizontal.height, u.scrollbar.horizontal.height);
    set_if(&mut e.cursor.move_position_by_scrolling_enable, u.cursor.move_position_by_scrolling_enable);
    set_if(&mut e.column_char_width_gap_space.character, u.column_char_width_gap_space.character);
    set_if(&mut e.column_char_width_gap_space.end_of_line_enable, u.column_char_width_gap_space.end_of_line_enable);
    set_if(&mut e.save.use_string_first_line_for_file_name_of_new_file, u.save.use_string_first_line_for_file_name_of_new_file);
    set_if(&mut e.save.extension_when_saving_new_file, u.save.extension_when_saving_new_file);
}

/// Apply the user's color-theme settings.
fn apply_user_theme(t: &mut CfgColorTheme, u: CfgUserColorTheme)
    ensures
        *final(t) == theme_with_user(*old(t), u),
{
    set_some(&mut t.highlight_theme_path, u.highlight_theme_path);
    set_some(&mut t.highlight_theme_background_enable, u.highlight_theme_background_enable);
    set_if(&mut t.disable_highlight_ext, u.disable_highlight_ext);
    set_if(&mut t.disable_syntax_highlight_file_size, u.disable_syntax_highlight_file_size);
    set_if(&mut t.default_color_theme, u.default_color_theme);
}

impl Cfg {
    /// Merge the user's settings into the configuration. Given leaves replace the built-in
    /// values; the language and log level fall back to English and `info`; the initial
    /// directory of the open-file prompt is the user's where given, and `current_directory`
    /// there becomes `current_dir`.
    pub fn set_user_setting(&mut self, cfg_user: CfgUser, current_dir: &str)
        ensures
            final(self).general.lang@ == lang_setting(cfg_user.general.lang),
            final(self).general.log.level@ == log_level_setting(cfg_user.general.log.level),
            final(self).general.font == (CfgFont {
                ambiguous_width: some_or_keep(cfg_user.general.font.ambiguous_width, old(self).general.font.ambiguous_width),
            }),
            final(self).general.editor == editor_with_user(old(self).general.editor, cfg_user.general.editor),
            final(self).general.prompt.open_file.directory_init_value@ == directory_init_setting(
                match cfg_user.general.prompt.open_file.directory_init_value {
                    Some(v) => v@,
                    None => old(self).general.prompt.open_file.directory_init_value@,
                },
                current_dir@,
            ),
            final(self).general.context_menu == (CfgCtxMenu {
                content: or_keep(cfg_user.general.context_menu.content, old(self).general.context_menu.content),
            }),
            final(self).general.mouse == (CfgGeneralMouse {
                mouse_enable: or_keep(cfg_user.general.mouse.mouse_enable, old(self).general.mouse.mouse_enable),
            }),
            final(self).general.colors == (CfgGeneralColors {
                theme: theme_with_user(old(self).general.colors.theme, cfg_user.general.colors.theme),
            }),
            final(self).system == (CfgSystem {
                os: CfgOS {
                    windows: CfgWindows {
                        change_output_encoding_utf8: or_keep(
                            cfg_user.system.os.windows.change_output_encoding_utf8,
                            old(self).system.os.windows.change_output_encoding_utf8,
                        ),
                    },
                },
            }),
            final(self).colors == old(self).colors,
    {
        let u = cfg_user;
        let is_ja = match &u.general.lang {
            Some(s) => str_eq(s.as_str(), "ja_JP"),
            None => false,
        };
        self.general.lang = if is_ja { String::from_str("ja_JP") } else { String::from_str("en_US") };

        let level = match &u.general.log.level {
            Some(s) => if str_eq(s.as_str(), "debug") {
                String::from_str("debug")
            } else if str_eq(s.as_str(), "error") {
                String::from_str("error")
            } else {
                String::from_str("info")
            },
            None => String::from_str("info"),
        };
        self.general.log.level = level;

        set_some(&mut self.general.font.ambiguous_width, u.general.font.ambiguous_width);
        apply_user_editor(&mut self.general.editor, u.general.editor);
        set_if(&mut self.general.prompt.open_file.directory_init_value, u.general.prompt.open_file.directory_init_value);
        if str_eq(self.general.prompt.open_file.directory_init_value.as_str(), "current_directory") {
            self.general.prompt.open_file.directory_init_value = string_of(current_dir);
        }
        set_if(&mut self.general.context_menu.content, u.general.context_menu.content);
        set_if(&mut self.general.mouse.mouse_enable, u.general.mouse.mouse_enable);
        apply_user_theme(&mut self.general.colors.theme, u.general.colors.theme);
        set_if(&mut self.system.os.windows.change_output_encoding_utf8, u.system.os.windows.change_output_encoding_utf8);
    }

    /// Derive the tab and indentation settings from their words: the tab type that the input
    /// and indent words name, and the text one tab and one indentation step insert.
    pub fn set_setting(&mut self)
        ensures
            final(self).general.editor.tab.tab_type == tab_type_of(old(self).general.editor.tab.input_type@),
            final(self).general.editor.tab.tab@ == indent_text(
                tab_type_of(old(self).general.editor.tab.input_type@),
                old(self).general.editor.tab.size as nat,
            ),
            final(self).general.editor.format.tab_type == tab_type_of(old(self).general.editor.format.indent_type@),
            final(self).general.editor.format.indent@ == indent_text(
                tab_type_of(old(self).general.editor.format.indent_type@),
                old(self).general.editor.format.indent_size as nat,
            ),
            final(self).general.editor.tab.size == old(self).general.editor.tab.size,
            final(self).general.editor.tab.input_type == old(self).general.editor.tab.input_type,
            final(self).general.editor.format.indent_type == old(self).general.editor.format.indent_type,
            final(self).general.editor.format.indent_size == old(self).general.editor.format.indent_size,
            final(self).general.editor == (CfgEditor {
                tab: final(self).general.editor.tab,
                format: final(self).general.editor.format,
                ..old(self).general.editor
            }),
            final(self).general == (crate::cfg::CfgGeneral { editor: final(self).general.editor, ..old(self).general }),
            final(self).system == old(self).system,
            final(self).colors == old(self).colors,
    {
        let tab_type = TabType::from_str(self.general.editor.tab.input_type.as_str());
        self.general.editor.tab.tab_type = tab_type;
        self.general.editor.tab.tab = indent_string(tab_type, self.general.editor.tab.size);
        let fmt_type = TabType::from_str(self.general.editor.format.indent_type.as_str());
        self.general.editor.format.tab_type = fmt_type;
        self.general.editor.format.indent = indent_string(fmt_type, self.general.editor.format.indent_size);
    }
}

/// Is the setting a hex color?
fn is_hex_color(s: &String) -> (b: bool)
    ensures
        b == (hex_color_value(s@) is Some),
{
    Colors::try_hex2rgb(s.as_str()).is_some()
}

/// Do all color settings that the conversion reads parse?
fn check_colors_parse(c: &CfgColors) -> (b: bool)
    ensures
        b == colors_parse(*c),
{
    is_hex_color(&c.system.btn.background) &&
    is_hex_color(&c.system.btn.foreground) &&
    is_hex_color(&c.system.state.background) &&
    is_hex_color(&c.system.state.foreground) &&
    is_hex_color(&c.headerbar.tab_active_foreground) &&
    is_hex_color(&c.headerbar.tab_active_background) &&
    is_hex_color(&c.headerbar.tab_passive_foreground) &&
    is_hex_color(&c.headerbar.tab_passive_background) &&
    is_hex_color(&c.editor.foreground) &&
    is_hex_color(&c.editor.background) &&
    is_hex_color(&c.editor.line_number.active_background) &&
    is_hex_color(&c.editor.line_number.active_foreground) &&
    is_hex_color(&c.editor.line_number.passive_background) &&
    is_hex_color(&c.editor.line_number.passive_foreground) &&
    is_hex_color(&c.editor.selection.background) &&
    is_hex_color(&c.editor.selection.foreground) &&
    is_hex_color(&c.editor.search.background) &&
    is_hex_color(&c.editor.search.foreground) &&
    is_hex_color(&c.editor.control_char.foreground) &&
    is_hex_color(&c.editor.column_char_width_gap_space.foreground) &&
    is_hex_color(&c.editor.column_char_width_gap_space.background) &&
    is_hex_color(&c.editor.scrollbar.vertical_background) &&
    is_hex_color(&c.editor.scrollbar.horizontal_background) &&
    is_hex_color(&c.msg.normal_foreground) &&
    is_hex_color(&c.msg.highlight_foreground) &&
    is_hex_color(&c.msg.warning_foreground) &&
    is_hex_color(&c.msg.err_foreground) &&
    is_hex_color(&c.statusbar.foreground) &&
    is_hex_color(&c.ctx_menu.select_foreground) &&
    is_hex_color(&c.ctx_menu.non_select_foreground) &&
    is_hex_color(&c.ctx_menu.select_background) &&
    is_hex_color(&c.ctx_menu.non_select_background) &&
    is_hex_color(&c.file.normal_foreground) &&
    is_hex_color(&c.file.directory_foreground) &&
    is_hex_color(&c.file.executable_foreground)
}

impl CfgColors {
    /// Merge the user's color settings into the color settings.
    pub fn set_user_setting(&mut self, cfg_user_colors: CfgUserColors)
        ensures
            *final(self) == colors_with_user(*old(self), cfg_user_colors),
    {
        let u = cfg_user_colors;
        let c = self;
            set_if(&mut c.system.btn.background, u.system.btn.background);
            set_if(&mut c.system.btn.foreground, u.system.btn.foreground);
            set_if(&mut c.system.state.background, u.system.state.background);
            set_if(&mut c.system.state.foreground, u.system.state.foreground);
            set_if(&mut c.headerbar.tab_active_background, u.headerbar.tab_active_background);
            set_if(&mut c.headerbar.tab_active_foreground, u.headerbar.tab_active_foreground);
            set_if(&mut c.headerbar.tab_passive_background, u.headerbar.tab_passive_background);
            set_if(&mut c.headerbar.tab_passive_foreground, u.headerbar.tab_passive_foreground);
            set_if(&mut c.editor.background, u.editor.background);
            set_if(&mut c.editor.foreground, u.editor.foreground);
            set_if(&mut c.editor.line_number.active_background, u.editor.line_number.active_background);
            set_if(&mut c.editor.line_number.active_foreground, u.editor.line_number.active_foreground);
            set_if(&mut c.editor.line_number.passive_background, u.editor.line_number.passive_background);
            set_if(&mut c.editor.line_number.passive_foreground, u.editor.line_number.passive_foreground);
            set_if(&mut c.editor.selection.background, u.editor.selection.background);
            set_if(&mut c.editor.selection.foreground, u.editor.selection.foreground);
            set_if(&mut c.editor.search.background, u.editor.search.background);
            set_if(&mut c.editor.search.foreground, u.editor.search.foreground);
            set_if(&mut c.editor.control_char.foreground, u.editor.control_char.foreground);
            set_if(&mut c.editor.column_char_width_gap_space.background, u.editor.column_char_width_gap_space.background);
            set_if(&mut c.editor.column_char_width_gap_space.foreground, u.editor.column_char_width_gap_space.foreground);
            set_if(&mut c.editor.scrollbar.horizontal_background, u.editor.scrollbar.horizontal_background);
            set_if(&mut c.editor.scrollbar.vertical_background, u.editor.scrollbar.vertical_background);
            set_if(&mut c.statusbar.foreground, u.statusbar.foreground);
            set_if(&mut c.ctx_menu.non_select_background, u.ctx_menu.non_select_background);
            set_if(&mut c.ctx_menu.non_select_foreground, u.ctx_menu.non_select_foreground);
            set_if(&mut c.ctx_menu.select_background, u.ctx_menu.select_background);
            set_if(&mut c.ctx_menu.select_foreground, u.ctx_menu.select_foreground);
            set_if(&mut c.msg.normal_foreground, u.msg.normal_foreground);
            set_if(&mut c.msg.highlight_foreground, u.msg.highlight_foreground);
            set_if(&mut c.msg.warning_foreground, u.msg.warning_foreground);
            set_if(&mut c.msg.err_foreground, u.msg.err_foreground);
            set_if(&mut c.file.normal_foreground, u.file.normal_foreground);
            set_if(&mut c.file.directory_foreground, u.file.directory_foreground);
            set_if(&mut c.file.executable_foreground, u.file.executable_foreground);
    }
}

impl Cfg {
    /// Convert every color setting from its hex string into the color it names.
    pub fn convert_color_setting(&mut self)
        requires
            colors_parse(old(self).colors),
        ensures
            final(self).colors == converted_colors(old(self).colors),
            final(self).general == old(self).general,
            final(self).system == old(self).system,
    {
        self.colors.system.btn.bg = Colors::hex2rgb(self.colors.system.btn.background.as_str());
        self.colors.system.btn.fg = Colors::hex2rgb(self.colors.system.btn.foreground.as_str());
        self.colors.system.state.bg = Colors::hex2rgb(self.colors.system.state.background.as_str());
        self.colors.system.state.fg = Colors::hex2rgb(self.colors.system.state.foreground.as_str());
        self.colors.headerbar.fg_tab_active = Colors::hex2rgb(self.colors.headerbar.tab_active_foreground.as_str());
        self.colors.headerbar.bg_tab_active = Colors::hex2rgb(self.colors.headerbar.tab_active_background.as_str());
        self.colors.headerbar.fg_tab_passive = Colors::hex2rgb(self.colors.headerbar.tab_passive_foreground.as_str());
        self.colors.headerbar.bg_tab_passive = Colors::hex2rgb(self.colors.headerbar.tab_passive_background.as_str());
        self.colors.editor.fg = Colors::hex2rgb(self.colors.editor.foreground.as_str());
        self.colors.editor.bg = Colors::hex2rgb(self.colors.editor.background.as_str());
        self.colors.editor.line_number.active_bg = Colors::hex2rgb(self.colors.editor.line_number.active_background.as_str());
        self.colors.editor.line_number.active_fg = Colors::hex2rgb(self.colors.editor.line_number.active_foreground.as_str());
        self.colors.editor.line_number.passive_bg = Colors::hex2rgb(self.colors.editor.line_number.passive_background.as_str());
        self.colors.editor.line_number.passive_fg = Colors::hex2rgb(self.colors.editor.line_number.passive_foreground.as_str());
        self.colors.editor.selection.bg = Colors::hex2rgb(self.colors.editor.selection.background.as_str());
        self.colors.editor.selection.fg = Colors::hex2rgb(self.colors.editor.selection.foreground.as_str());
        self.colors.editor.search.bg = Colors::hex2rgb(self.colors.editor.search.background.as_str());
        self.colors.editor.search.fg = Colors::hex2rgb(self.colors.editor.search.foreground.as_str());
        self.colors.editor.control_char.fg = Colors::hex2rgb(self.colors.editor.control_char.foreground.as_str());
        self.colors.editor.column_char_width_gap_space.fg = Colors::hex2rgb(self.colors.editor.column_char_width_gap_space.foreground.as_str());
        self.colors.editor.column_char_width_gap_space.bg = Colors::hex2rgb(self.colors.editor.column_char_width_gap_space.background.as_str());
        self.colors.editor.scrollbar.bg_vertical = Colors::hex2rgb(self.colors.editor.scrollbar.vertical_background.as_str());
        self.colors.editor.scrollbar.bg_horizontal = Colors::hex2rgb(self.colors.editor.scrollbar.horizontal_background.as_str());
        self.colors.msg.normal_fg = Colors::hex2rgb(self.colors.msg.normal_foreground.as_str());
        self.colors.msg.highlight_fg = Colors::hex2rgb(self.colors.msg.highlight_foreground.as_str());
        self.colors.msg.warning_fg = Colors::hex2rgb(self.colors.msg.warning_foreground.as_str());
        self.colors.msg.err_fg = Colors::hex2rgb(self.colors.msg.err_foreground.as_str());
        self.colors.statusbar.fg = Colors::hex2rgb(self.colors.statusbar.foreground.as_str());
        self.colors.ctx_menu.fg_sel = Colors::hex2rgb(self.colors.ctx_menu.select_foreground.as_str());
        self.colors.ctx_menu.fg_non_sel = Colors::hex2rgb(self.colors.ctx_menu.non_select_foreground.as_str());
        self.colors.ctx_menu.bg_sel = Colors::hex2rgb(self.colors.ctx_menu.select_background.as_str());
        self.colors.ctx_menu.bg_non_sel = Colors::hex2rgb(self.colors.ctx_menu.non_select_background.as_str());
        self.colors.file.normal_fg = Colors::hex2rgb(self.colors.file.normal_foreground.as_str());
        self.colors.file.directory_fg = Colors::hex2rgb(self.colors.file.directory_foreground.as_str());
        self.colors.file.executable_fg = Colors::hex2rgb(self.colors.file.executable_foreground.as_str());
    }

    /// Convert the color settings where every one of them is a hex color; otherwise leave the
    /// configuration unchanged and report it.
    pub fn try_convert_color_setting(&mut self) -> (ok: bool)
        ensures
            ok == colors_parse(old(self).colors),
            ok ==> final(self).colors == converted_colors(old(self).colors),
            !ok ==> final(self).colors == old(self).colors,
            final(self).general == old(self).general,
            final(self).system == old(self).system,
    {
        if check_colors_parse(&self.colors) {
            self.convert_color_setting();
            true
        } else {
            false
        }
    }
}

/// The name of a system color theme.
pub open spec fn theme_name(t: ThemeSystemColorType) -> Seq<char> {
    match t {
        ThemeSystemColorType::Blue => "blue"@,
        ThemeSystemColorType::White => "white"@,
        ThemeSystemColorType::Black => "black"@,
    }
}

/// The system color theme a name selects; unknown names select the default, white.
pub open spec fn theme_of_name(s: Seq<char>) -> ThemeSystemColorType {
    if s == "black"@ {
        ThemeSystemColorType::Black
    } else if s == "white"@ {
        ThemeSystemColorType::White
    } else if s == "blue"@ {
        ThemeSystemColorType::Blue
    } else {
        ThemeSystemColorType::White
    }
}

impl ThemeSystemColorType {
    /// The system color theme a name selects (`black`, `white` or `blue`; white otherwise).
    pub fn from_str_color_type(s: &str) -> (t: ThemeSystemColorType)
        ensures
            t == theme_of_name(s@),
    {
        if str_eq(s, "black") {
            ThemeSystemColorType::Black
        } else if str_eq(s, "white") {
            ThemeSystemColorType::White
        } else if str_eq(s, "blue") {
            ThemeSystemColorType::Blue
        } else {
            ThemeSystemColorType::White
        }
    }

    /// The name of the theme.
    pub fn to_string(&self) -> (s: String)
        ensures
            s@ == theme_name(*self),
    {
        match self {
            ThemeSystemColorType::Blue => String::from_str("blue"),
            ThemeSystemColorType::White => String::from_str("white"),
            ThemeSystemColorType::Black => String::from_str("black"),
        }
    }
}

/// Reading back the name of a theme gives the theme.
pub proof fn lemma_theme_name_round_trip(t: ThemeSystemColorType)
    ensures
        theme_of_name(theme_name(t)) == t,
{
    reveal_strlit("black");
    reveal_strlit("white");
    reveal_strlit("blue");
    assert("white"@[0] != "black"@[0]);
    assert("blue"@[2] != "black"@[2]);
    assert("blue"@.len() != "white"@.len());
}

impl CfgEdit {
    /// The configuration being edited.
    pub fn get(&self) -> (c: &Cfg)
        ensures
            *c == self.cfg,
    {
        &self.cfg
    }

    /// The current search options.
    pub fn get_search(&self) -> (s: CfgSearch)
        ensures
            s == self.cfg.general.editor.search,
    {
        CfgSearch { regex: self.cfg.general.editor.search.regex, case_sensitive: self.cfg.general.editor.search.case_sensitive }
    }

    /// Toggle the display of row numbers; nothing else changes.
    pub fn switch_editor_row_no_enable(&mut self)
        ensures
            final(self).cfg.general.editor.row_no.is_enable == !old(self).cfg.general.editor.row_no.is_enable,
            final(self).cfg == (Cfg {
                general: crate::cfg::CfgGeneral {
                    editor: CfgEditor { row_no: final(self).cfg.general.editor.row_no, ..old(self).cfg.general.editor },
                    ..old(self).cfg.general
                },
                ..old(self).cfg
            }),
    {
        self.cfg.general.editor.row_no.is_enable = !self.cfg.general.editor.row_no.is_enable;
    }
}

impl Cfg {
    /// The search options of the configuration being edited.
    pub fn get_edit_search(cfg_edit: &CfgEdit) -> (s: CfgSearch)
        ensures
            s == cfg_edit.cfg.general.editor.search,
    {
        CfgSearch { regex: Cfg::get_edit_search_regex(cfg_edit), case_sensitive: Cfg::get_edit_search_case_sens(cfg_edit) }
    }

    /// Whether searches of the configuration being edited use regular expressions.
    pub fn get_edit_search_regex(cfg_edit: &CfgEdit) -> (b: bool)
        ensures
            b == cfg_edit.cfg.general.editor.search.regex,
    {
        cfg_edit.cfg.general.editor.search.regex
    }

    /// Whether searches of the configuration being edited are case-sensitive.
    pub fn get_edit_search_case_sens(cfg_edit: &CfgEdit) -> (b: bool)
        ensures
            b == cfg_edit.cfg.general.editor.search.case_sensitive,
    {
        cfg_edit.cfg.general.editor.search.case_sensitive
    }
}

} // verus!
