use ewin::cfg::Cfg;
use ewin::char_style::{Cell, CharStyle, TextStyle};
use ewin::colors::{Color, Colors, Rgb};

fn rgb(r: u8, g: u8, b: u8) -> Color {
    Color { rgb: Rgb { r, g, b } }
}

fn color_cfg() -> Cfg {
    let mut cfg = Cfg::default();
    cfg.colors.editor.fg = rgb(1, 2, 3);
    cfg.colors.editor.bg = rgb(10, 20, 30);
    cfg.colors.editor.line_number.passive_fg = rgb(1, 2, 3);
    cfg.colors.editor.line_number.passive_bg = rgb(9, 9, 9);
    cfg.colors.editor.control_char.fg = rgb(200, 100, 0);
    cfg.colors.statusbar.fg = rgb(255, 0, 7);
    cfg
}

#[test]
fn fg_and_bg_sequences() {
    assert_eq!(Colors::fg(rgb(1, 2, 3)), "\x1b[38;2;1;2;3m");
    assert_eq!(Colors::bg(rgb(255, 0, 100)), "\x1b[48;2;255;0;100m");
}

#[test]
fn default_colors() {
    let cfg = color_cfg();
    assert_eq!(Colors::get_default_fg(&cfg), "\x1b[38;2;1;2;3m");
    assert_eq!(Colors::get_default_bg(&cfg), "\x1b[48;2;10;20;30m");
    assert_eq!(Colors::get_default_fg_bg(&cfg), "\x1b[48;2;10;20;30m\x1b[38;2;1;2;3m");
    assert_eq!(Colors::get_default_inversion_fg_bg(&cfg), "\x1b[38;2;10;20;30m\x1b[48;2;1;2;3m");
}

#[test]
fn status_bar_colors() {
    let cfg = color_cfg();
    assert_eq!(Colors::get_sbar_fg_bg(&cfg), "\x1b[38;2;255;0;7m\x1b[48;2;10;20;30m");
    assert_eq!(Colors::get_sbar_inversion_fg_bg(&cfg), "\x1b[38;2;10;20;30m\x1b[48;2;255;0;7m");
}

#[test]
fn row_number_colors_only_where_they_differ() {
    let cfg = color_cfg();
    assert_eq!(Colors::get_rownum_not_curt_fg_bg(&cfg), "\x1b[48;2;9;9;9m");
}

#[test]
fn text_color_and_eof() {
    let cfg = color_cfg();
    let mut v = vec!["x".to_string()];
    Colors::set_text_color(&cfg, &mut v);
    assert_eq!(v, vec!["x".to_string(), "\x1b[38;2;1;2;3m".to_string(), "\x1b[48;2;10;20;30m".to_string()]);
    let mut w: Vec<String> = vec![];
    Colors::set_eof(&cfg, &mut w, 3);
    assert_eq!(w, vec!["\x1b[38;2;200;100;0m".to_string(), "[EO".to_string(), "\x1b[38;2;1;2;3m".to_string()]);
}

#[test]
fn hex_colors() {
    assert_eq!(Colors::hex2rgb("#e76B2c"), rgb(231, 107, 44));
    assert_eq!(Colors::hex2rgb("#fc0"), rgb(255, 204, 0));
    assert_eq!(Colors::try_hex2rgb("#000000"), Some(rgb(0, 0, 0)));
    assert_eq!(Colors::try_hex2rgb("cyan"), None);
    assert_eq!(Colors::try_hex2rgb("#12345"), None);
}

#[test]
fn char_styles() {
    let cfg = color_cfg();
    assert_eq!(CharStyle::normal(&cfg), CharStyle { fg: rgb(1, 2, 3), bg: rgb(10, 20, 30) });
    assert_eq!(CharStyle::control_char(&cfg), CharStyle { fg: rgb(200, 100, 0), bg: rgb(10, 20, 30) });
    assert_eq!(CharStyle::none(), CharStyle { fg: rgb(99, 99, 99), bg: rgb(99, 99, 99) });
    let style = TextStyle { foreground: rgb(5, 5, 5), background: rgb(6, 6, 6) };
    assert_eq!(CharStyle::from_syntect_style(&cfg, &style), CharStyle { fg: rgb(5, 5, 5), bg: rgb(10, 20, 30) });
    let mut cfg2 = color_cfg();
    cfg2.general.colors.theme.theme_bg_enable = true;
    assert_eq!(CharStyle::from_syntect_style(&cfg2, &style), CharStyle { fg: rgb(5, 5, 5), bg: rgb(6, 6, 6) });
}

#[test]
fn cell_draws_only_changed_colors() {
    let a = CharStyle { fg: rgb(1, 1, 1), bg: rgb(2, 2, 2) };
    let b = CharStyle { fg: rgb(1, 1, 1), bg: rgb(3, 3, 3) };
    let cell = Cell { from: a, to: b, c: 'x' };
    let mut v: Vec<String> = vec![];
    cell.draw_style(&mut v, false);
    assert_eq!(v, vec!["\x1b[48;2;3;3;3m".to_string()]);
    let mut w: Vec<String> = vec![];
    cell.draw_style(&mut w, true);
    assert_eq!(w, vec!["\x1b[38;2;1;1;1m".to_string(), "\x1b[48;2;3;3;3m".to_string()]);
}
