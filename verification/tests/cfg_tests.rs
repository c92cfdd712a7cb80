use ewin::cfg::{Cfg, CfgColors, CfgEdit, TabType, ThemeSystemColorType};
use ewin::cfg_user::{CfgUser, CfgUserColors};
use ewin::colors::{Color, Rgb};

fn all_colors_hex(c: &mut CfgColors, hex: &str) {
    for s in [
        &mut c.system.btn.background,
        &mut c.system.btn.foreground,
        &mut c.system.state.background,
        &mut c.system.state.foreground,
        &mut c.headerbar.tab_active_foreground,
        &mut c.headerbar.tab_active_background,
        &mut c.headerbar.tab_passive_foreground,
        &mut c.headerbar.tab_passive_background,
        &mut c.editor.foreground,
        &mut c.editor.background,
        &mut c.editor.line_number.active_background,
        &mut c.editor.line_number.active_foreground,
        &mut c.editor.line_number.passive_background,
        &mut c.editor.line_number.passive_foreground,
        &mut c.editor.selection.background,
        &mut c.editor.selection.foreground,
        &mut c.editor.search.background,
        &mut c.editor.search.foreground,
        &mut c.editor.control_char.foreground,
        &mut c.editor.column_char_width_gap_space.foreground,
        &mut c.editor.column_char_width_gap_space.background,
        &mut c.editor.scrollbar.vertical_background,
        &mut c.editor.scrollbar.horizontal_background,
        &mut c.msg.normal_foreground,
        &mut c.msg.highlight_foreground,
        &mut c.msg.warning_foreground,
        &mut c.msg.err_foreground,
        &mut c.statusbar.foreground,
        &mut c.ctx_menu.select_foreground,
        &mut c.ctx_menu.non_select_foreground,
        &mut c.ctx_menu.select_background,
        &mut c.ctx_menu.non_select_background,
        &mut c.file.normal_foreground,
        &mut c.file.directory_foreground,
        &mut c.file.executable_foreground,
    ] {
        *s = hex.to_string();
    }
}

#[test]
fn user_settings_override_given_leaves_only() {
    let mut cfg = Cfg::default();
    cfg.general.editor.tab.size = 4;
    cfg.general.editor.search.regex = true;
    cfg.general.prompt.open_file.directory_init_value = "current_directory".to_string();
    let mut user = CfgUser::default();
    user.general.lang = Some("ja_JP".to_string());
    user.general.log.level = Some("error".to_string());
    user.general.editor.tab.size = Some(8);
    user.general.editor.search.case_sensitive = Some(true);
    user.general.colors.theme.highlight_theme_path = Some("theme.tmTheme".to_string());
    user.system.os.windows.change_output_encoding_utf8 = Some(true);
    cfg.set_user_setting(user, "/work");
    assert_eq!(cfg.general.lang, "ja_JP");
    assert_eq!(cfg.general.log.level, "error");
    assert_eq!(cfg.general.editor.tab.size, 8);
    assert!(cfg.general.editor.search.case_sensitive);
    assert!(cfg.general.editor.search.regex);
    assert_eq!(cfg.general.prompt.open_file.directory_init_value, "/work");
    assert_eq!(cfg.general.colors.theme.highlight_theme_path, Some("theme.tmTheme".to_string()));
    assert!(cfg.system.os.windows.change_output_encoding_utf8);
}

#[test]
fn user_settings_fall_back_to_english_and_info() {
    let mut cfg = Cfg::default();
    let mut user = CfgUser::default();
    user.general.lang = Some("fr_FR".to_string());
    user.general.log.level = Some("verbose".to_string());
    cfg.general.prompt.open_file.directory_init_value = "/data".to_string();
    cfg.set_user_setting(user, "/work");
    assert_eq!(cfg.general.lang, "en_US");
    assert_eq!(cfg.general.log.level, "info");
    assert_eq!(cfg.general.prompt.open_file.directory_init_value, "/data");
}

#[test]
fn user_color_settings_each_to_its_own_field() {
    let mut colors = CfgColors::default();
    colors.editor.background = "#000000".to_string();
    let mut user = CfgUserColors::default();
    user.editor.background = Some("#111111".to_string());
    user.editor.selection.background = Some("#222222".to_string());
    user.editor.search.background = Some("#333333".to_string());
    user.editor.control_char.foreground = Some("#444444".to_string());
    colors.set_user_setting(user);
    assert_eq!(colors.editor.background, "#111111");
    assert_eq!(colors.editor.selection.background, "#222222");
    assert_eq!(colors.editor.selection.foreground, "");
    assert_eq!(colors.editor.search.background, "#333333");
    assert_eq!(colors.editor.search.foreground, "");
    assert_eq!(colors.editor.control_char.foreground, "#444444");
}

#[test]
fn user_initial_directory_applied() {
    let mut cfg = Cfg::default();
    let mut user = CfgUser::default();
    user.general.prompt.open_file.directory_init_value = Some("/home/me".to_string());
    cfg.set_user_setting(user, "/work");
    assert_eq!(cfg.general.prompt.open_file.directory_init_value, "/home/me");
    let mut cfg = Cfg::default();
    let mut user = CfgUser::default();
    user.general.prompt.open_file.directory_init_value = Some("current_directory".to_string());
    cfg.set_user_setting(user, "/work");
    assert_eq!(cfg.general.prompt.open_file.directory_init_value, "/work");
}

#[test]
fn set_setting_derives_tab_and_indent() {
    let mut cfg = Cfg::default();
    cfg.general.editor.tab.input_type = "half_width_blank".to_string();
    cfg.general.editor.tab.size = 3;
    cfg.general.editor.format.indent_type = "tab".to_string();
    cfg.general.editor.format.indent_size = 2;
    cfg.set_setting();
    assert_eq!(cfg.general.editor.tab.tab_type, TabType::HalfWidthBlank);
    assert_eq!(cfg.general.editor.tab.tab, "   ");
    assert_eq!(cfg.general.editor.format.tab_type, TabType::Tab);
    assert_eq!(cfg.general.editor.format.indent, "\t");
    assert_eq!(TabType::from_str("anything"), TabType::Tab);
}

#[test]
fn converting_color_settings() {
    let mut cfg = Cfg::default();
    all_colors_hex(&mut cfg.colors, "#102030");
    cfg.colors.editor.background = "#fff".to_string();
    assert!(cfg.try_convert_color_setting());
    assert_eq!(cfg.colors.editor.fg, Color { rgb: Rgb { r: 16, g: 32, b: 48 } });
    assert_eq!(cfg.colors.editor.bg, Color { rgb: Rgb { r: 255, g: 255, b: 255 } });
    assert_eq!(cfg.colors.file.executable_fg, Color { rgb: Rgb { r: 16, g: 32, b: 48 } });

    let mut bad = Cfg::default();
    all_colors_hex(&mut bad.colors, "#102030");
    bad.colors.msg.err_foreground = "red".to_string();
    assert!(!bad.try_convert_color_setting());
    assert_eq!(bad.colors.editor.fg, Color::default());
}

#[test]
fn theme_names() {
    for t in [ThemeSystemColorType::Black, ThemeSystemColorType::White, ThemeSystemColorType::Blue] {
        assert_eq!(ThemeSystemColorType::from_str_color_type(&t.to_string()), t);
    }
    assert_eq!(ThemeSystemColorType::from_str_color_type("green"), ThemeSystemColorType::White);
    assert_eq!(ThemeSystemColorType::Blue.to_string(), "blue");
}

#[test]
fn edited_configuration() {
    let mut edit = CfgEdit::default();
    edit.cfg.general.editor.search.regex = true;
    assert!(Cfg::get_edit_search_regex(&edit));
    assert!(!Cfg::get_edit_search_case_sens(&edit));
    let s = edit.get_search();
    assert!(s.regex && !s.case_sensitive);
    assert_eq!(Cfg::get_edit_search(&edit), s);
    assert!(!edit.get().general.editor.row_no.is_enable);
    edit.switch_editor_row_no_enable();
    assert!(edit.cfg.general.editor.row_no.is_enable);
    edit.switch_editor_row_no_enable();
    assert!(!edit.cfg.general.editor.row_no.is_enable);
}
