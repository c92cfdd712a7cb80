//! Colors and the terminal escape sequences that select them.
use crate::cfg::Cfg;
use crate::def::EOF_STR;
use crate::text::str_to_chars;
use colors_transform::{Color as TransformColor, Rgb as TransformRgb};
use crossterm::style::{Color as CrosstermColor, SetBackgroundColor, SetForegroundColor};
use crossterm::Command;
use vstd::prelude::*;

verus! {

/// An RGB triple.
#[derive(Debug, Default, Clone, Copy, PartialEq, Eq, Structural)]
pub struct Rgb {
    pub r: u8,
    pub g: u8,
    pub b: u8,
}

/// A terminal color.
#[derive(Debug, Default, Clone, Copy, PartialEq, Eq, Structural)]
pub struct Color {
    pub rgb: Rgb,
}

/// Namespace of the color escape-sequence builders.
pub struct Colors {}

/// The decimal digit character of `d` (`d < 10`).
pub open spec fn digit_char(d: nat) -> char {
    if d == 0 { '0' } else if d == 1 { '1' } else if d == 2 { '2' } else if d == 3 { '3' }
    else if d == 4 { '4' } else if d == 5 { '5' } else if d == 6 { '6' } else if d == 7 { '7' }
    else if d == 8 { '8' } else { '9' }
}

/// Decimal rendering of a byte, without leading zeros.
pub open spec fn dec_u8(n: u8) -> Seq<char> {
    if n < 10 {
        seq![digit_char(n as nat)]
    } else if n < 100 {
        seq![digit_char((n / 10) as nat), digit_char((n % 10) as nat)]
    } else {
        seq![digit_char((n / 100) as nat), digit_char(((n / 10) % 10) as nat), digit_char((n % 10) as nat)]
    }
}

/// The parameters `2;r;g;b` of a true-color SGR sequence.
pub open spec fn rgb_params(c: Color) -> Seq<char> {
    seq!['2', ';'] + dec_u8(c.rgb.r) + seq![';'] + dec_u8(c.rgb.g) + seq![';'] + dec_u8(c.rgb.b)
}

/// The escape sequence `ESC [ 38 ; 2 ; r ; g ; b m` that sets the foreground color.
pub open spec fn fg_seq(c: Color) -> Seq<char> {
    seq!['\x1b', '[', '3', '8', ';'] + rgb_params(c) + seq!['m']
}

/// The escape sequence `ESC [ 48 ; 2 ; r ; g ; b m` that sets the background color.
pub open spec fn bg_seq(c: Color) -> Seq<char> {
    seq!['\x1b', '[', '4', '8', ';'] + rgb_params(c) + seq!['m']
}

/// Writes the ANSI form of crossterm's `SetForegroundColor(Color::Rgb { r, g, b })` with
/// `Command::write_ansi`, which on every target is `ESC [ 38 ; 2 ; r ; g ; b m`
/// (`Colored::ForegroundColor` followed by `Color::Rgb`'s `2;r;g;b`); writing into a `String`
/// cannot fail.
#[verifier::external_body]
fn crossterm_fg(r: u8, g: u8, b: u8) -> (s: String)
    ensures
        s@ == fg_seq(Color { rgb: Rgb { r, g, b } }),
{
    let mut s = String::new();
    let _ = SetForegroundColor(CrosstermColor::Rgb { r, g, b }).write_ansi(&mut s);
    s
}

/// Writes the ANSI form of crossterm's `SetBackgroundColor(Color::Rgb { r, g, b })` with
/// `Command::write_ansi`: `ESC [ 48 ; 2 ; r ; g ; b m` on every target.
#[verifier::external_body]
fn crossterm_bg(r: u8, g: u8, b: u8) -> (s: String)
    ensures
        s@ == bg_seq(Color { rgb: Rgb { r, g, b } }),
{
    let mut s = String::new();
    let _ = SetBackgroundColor(CrosstermColor::Rgb { r, g, b }).write_ansi(&mut s);
    s
}


/// The value of a hexadecimal digit, either case.
pub open spec fn hex_digit_value(c: char) -> nat {
    if '0' <= c && c <= '9' {
        (c as nat - '0' as nat) as nat
    } else if 'a' <= c && c <= 'f' {
        (c as nat - 'a' as nat + 10) as nat
    } else {
        (c as nat - 'A' as nat + 10) as nat
    }
}

/// Is `c` a hexadecimal digit?
pub open spec fn is_hex_digit(c: char) -> bool {
    ('0' <= c && c <= '9') || ('a' <= c && c <= 'f') || ('A' <= c && c <= 'F')
}

/// The byte written by the two hexadecimal digits `hi` and `lo`.
pub open spec fn hex_byte(hi: char, lo: char) -> u8 {
    (hex_digit_value(hi) * 16 + hex_digit_value(lo)) as u8
}

/// Is `s` a CSS color of the form `#rrggbb`?
pub open spec fn is_css_hex6(s: Seq<char>) -> bool {
    &&& s.len() == 7
    &&& s[0] == '#'
    &&& forall|i: int| 1 <= i < 7 ==> is_hex_digit(#[trigger] s[i])
}

/// Is `s` a CSS color of the short form `#rgb`?
pub open spec fn is_css_hex3(s: Seq<char>) -> bool {
    &&& s.len() == 4
    &&& s[0] == '#'
    &&& forall|i: int| 1 <= i < 4 ==> is_hex_digit(#[trigger] s[i])
}

/// The color written by a CSS hex string: `#rrggbb`, or `#rgb` with each digit doubled.
pub open spec fn css_hex_rgb(s: Seq<char>) -> (u8, u8, u8) {
    if s.len() == 7 {
        (hex_byte(s[1], s[2]), hex_byte(s[3], s[4]), hex_byte(s[5], s[6]))
    } else {
        (hex_byte(s[1], s[1]), hex_byte(s[2], s[2]), hex_byte(s[3], s[3]))
    }
}

/// What `colors_transform::Rgb::from_hex_str` makes of a string: its red, green and blue
/// components, or `None` where it returns an error.
pub uninterp spec fn hex_color_value(s: Seq<char>) -> Option<(u8, u8, u8)>;

/// The color with the given components.
pub open spec fn rgb_color(t: (u8, u8, u8)) -> Color {
    Color { rgb: Rgb { r: t.0, g: t.1, b: t.2 } }
}

/// Parses a hex color with `colors_transform::Rgb::from_hex_str` and reads back its components.
/// In the crate's source (`from_str::hex`), `#` signs are removed, the rest is lower-cased, a
/// three-digit form has each digit doubled, and six hexadecimal digits are read as `0xrrggbb`,
/// split into bytes; other strings are an error. The contract names the result and states it
/// for the forms `#rrggbb` and `#rgb`.
#[verifier::external_body]
fn parse_hex_color(hex: &str) -> (r: Option<(u8, u8, u8)>)
    ensures
        r == hex_color_value(hex@),
        is_css_hex6(hex@) || is_css_hex3(hex@) ==> r == Some(css_hex_rgb(hex@)),
{
    match TransformRgb::from_hex_str(hex) {
        Ok(rgb) => {
            let t = rgb.as_tuple();
            Some((t.0 as u8, t.1 as u8, t.2 as u8))
        },
        Err(_) => None,
    }
}

/// `old` with `a` and then `b` appended.
pub open spec fn pushed_two(old: Seq<String>, new: Seq<String>, a: Seq<char>, b: Seq<char>) -> bool {
    &&& new.len() == old.len() + 2
    &&& forall|i: int| 0 <= i < old.len() ==> new[i] == old[i]
    &&& new[old.len() as int]@ == a
    &&& new[old.len() as int + 1]@ == b
}

/// The first `n` characters of a string made of single-byte characters, as a new string.
fn ascii_prefix(s: &str, n: usize) -> (r: String)
    requires
        n <= s@.len(),
    ensures
        r@ == s@.take(n as int),
{
    let v = str_to_chars(s);
    let mut r = String::new();
    let mut i: usize = 0;
    while i < n
        invariant
            v@ == s@,
            n <= s@.len(),
            i <= n,
            r@ == s@.take(i as int),
        decreases n - i,
    {
        r.push(v[i]);
        proof {
            assert(s@.take(i + 1) =~= s@.take(i as int).push(s@[i as int]));
        }
        i = i + 1;
    }
    r
}

/// Concatenation of two strings.
fn concat2(a: String, b: String) -> (s: String)
    ensures
        s@ == a@ + b@,
{
    let mut s = a;
    s.push_str(b.as_str());
    s
}

impl Colors {
    /// Foreground of the editor text.
    pub fn get_default_fg(cfg: &Cfg) -> (s: String)
        ensures
            s@ == fg_seq(cfg.colors.editor.fg),
    {
        Colors::fg(cfg.colors.editor.fg)
    }

    /// Background of the editor text.
    pub fn get_default_bg(cfg: &Cfg) -> (s: String)
        ensures
            s@ == bg_seq(cfg.colors.editor.bg),
    {
        Colors::bg(cfg.colors.editor.bg)
    }

    /// Background and foreground of the editor text.
    pub fn get_default_fg_bg(cfg: &Cfg) -> (s: String)
        ensures
            s@ == bg_seq(cfg.colors.editor.bg) + fg_seq(cfg.colors.editor.fg),
    {
        concat2(Colors::get_default_bg(cfg), Colors::get_default_fg(cfg))
    }

    /// The editor background used as a foreground.
    fn get_default_inversion_fg(cfg: &Cfg) -> (s: String)
        ensures
            s@ == fg_seq(cfg.colors.editor.bg),
    {
        Colors::fg(cfg.colors.editor.bg)
    }

    /// Editor colors swapped: the background as foreground and the foreground as background.
    pub fn get_default_inversion_fg_bg(cfg: &Cfg) -> (s: String)
        ensures
            s@ == fg_seq(cfg.colors.editor.bg) + bg_seq(cfg.colors.editor.fg),
    {
        concat2(Colors::fg(cfg.colors.editor.bg), Colors::bg(cfg.colors.editor.fg))
    }

    /// Colors of the line number of the cursor row.
    pub fn get_rownum_curt_fg_bg(cfg: &Cfg) -> (s: String)
        ensures
            s@ == fg_seq(cfg.colors.editor.line_number.active_fg) + bg_seq(cfg.colors.editor.line_number.active_bg),
    {
        concat2(Colors::fg(cfg.colors.editor.line_number.active_fg), Colors::bg(cfg.colors.editor.line_number.active_bg))
    }

    /// Colors of selected text.
    pub fn get_select_fg_bg(cfg: &Cfg) -> (s: String)
        ensures
            s@ == fg_seq(cfg.colors.editor.selection.fg) + bg_seq(cfg.colors.editor.selection.bg),
    {
        concat2(Colors::fg(cfg.colors.editor.selection.fg), Colors::bg(cfg.colors.editor.selection.bg))
    }

    /// Background of the line between split windows.
    pub fn get_window_split_line_bg(cfg: &Cfg) -> (s: String)
        ensures
            s@ == bg_seq(cfg.colors.editor.window.split_line.bg),
    {
        Colors::bg(cfg.colors.editor.window.split_line.bg)
    }

    /// Foreground of the column scale.
    pub fn get_scale_fg(cfg: &Cfg) -> (s: String)
        ensures
            s@ == fg_seq(cfg.colors.editor.scale.fg),
    {
        Colors::fg(cfg.colors.editor.scale.fg)
    }

    /// Background of the column scale.
    pub fn get_scale_bg(cfg: &Cfg) -> (s: String)
        ensures
            s@ == bg_seq(cfg.colors.editor.scale.bg),
    {
        Colors::bg(cfg.colors.editor.scale.bg)
    }

    /// Foreground and background of the column scale.
    pub fn get_scale_fg_bg(cfg: &Cfg) -> (s: String)
        ensures
            s@ == fg_seq(cfg.colors.editor.scale.fg) + bg_seq(cfg.colors.editor.scale.bg),
    {
        concat2(Colors::get_scale_fg(cfg), Colors::get_scale_bg(cfg))
    }

    /// Background of the vertical scrollbar.
    pub fn get_scrollbar_v_bg(cfg: &Cfg) -> (s: String)
        ensures
            s@ == bg_seq(cfg.colors.editor.scrollbar.bg_vertical),
    {
        Colors::bg(cfg.colors.editor.scrollbar.bg_vertical)
    }

    /// Background of the horizontal scrollbar.
    pub fn get_scrollbar_h_bg(cfg: &Cfg) -> (s: String)
        ensures
            s@ == bg_seq(cfg.colors.editor.scrollbar.bg_horizontal),
    {
        Colors::bg(cfg.colors.editor.scrollbar.bg_horizontal)
    }

    /// Background of system buttons.
    pub fn get_sytem_btn_bg(cfg: &Cfg) -> (s: String)
        ensures
            s@ == bg_seq(cfg.colors.system.btn.bg),
    {
        Colors::bg(cfg.colors.system.btn.bg)
    }

    /// Foreground of system buttons.
    pub fn get_sytem_btn_fg(cfg: &Cfg) -> (s: String)
        ensures
            s@ == fg_seq(cfg.colors.system.btn.fg),
    {
        Colors::fg(cfg.colors.system.btn.fg)
    }

    /// Background and foreground of system buttons.
    pub fn get_sytem_btn_fg_bg(cfg: &Cfg) -> (s: String)
        ensures
            s@ == bg_seq(cfg.colors.system.btn.bg) + fg_seq(cfg.colors.system.btn.fg),
    {
        concat2(Colors::get_sytem_btn_bg(cfg), Colors::get_sytem_btn_fg(cfg))
    }

    /// Background of system state marks.
    pub fn get_sytem_state_bg(cfg: &Cfg) -> (s: String)
        ensures
            s@ == bg_seq(cfg.colors.system.state.bg),
    {
        Colors::bg(cfg.colors.system.state.bg)
    }

    /// Foreground of system state marks.
    pub fn get_sytem_state_fg(cfg: &Cfg) -> (s: String)
        ensures
            s@ == fg_seq(cfg.colors.system.state.fg),
    {
        Colors::fg(cfg.colors.system.state.fg)
    }

    /// Foreground of inactive menu bar entries.
    pub fn get_mbar_passive_fg(cfg: &Cfg) -> (s: String)
        ensures
            s@ == fg_seq(cfg.colors.menubar.fg_passive),
    {
        Colors::fg(cfg.colors.menubar.fg_passive)
    }

    /// Background of inactive menu bar entries.
    pub fn get_mbar_passive_bg(cfg: &Cfg) -> (s: String)
        ensures
            s@ == bg_seq(cfg.colors.menubar.bg_passive),
    {
        Colors::bg(cfg.colors.menubar.bg_passive)
    }

    /// Background and foreground of inactive menu bar entries.
    pub fn get_mbar_passive_fg_bg(cfg: &Cfg) -> (s: String)
        ensures
            s@ == bg_seq(cfg.colors.menubar.bg_passive) + fg_seq(cfg.colors.menubar.fg_passive),
    {
        concat2(Colors::get_mbar_passive_bg(cfg), Colors::get_mbar_passive_fg(cfg))
    }

    /// Background of the active menu bar entry.
    pub fn get_mbar_bg_active(cfg: &Cfg) -> (s: String)
        ensures
            s@ == bg_seq(cfg.colors.menubar.bg_active),
    {
        Colors::bg(cfg.colors.menubar.bg_active)
    }

    /// Foreground of the active menu bar entry.
    pub fn get_mbar_fg_active(cfg: &Cfg) -> (s: String)
        ensures
            s@ == fg_seq(cfg.colors.menubar.fg_active),
    {
        Colors::fg(cfg.colors.menubar.fg_active)
    }

    /// Background and foreground of the active menu bar entry.
    pub fn get_mbar_active_fg_bg(cfg: &Cfg) -> (s: String)
        ensures
            s@ == bg_seq(cfg.colors.menubar.bg_active) + fg_seq(cfg.colors.menubar.fg_active),
    {
        concat2(Colors::get_mbar_bg_active(cfg), Colors::get_mbar_fg_active(cfg))
    }

    /// Background of the menu bar.
    pub fn get_mbar_default_bg(cfg: &Cfg) -> (s: String)
        ensures
            s@ == bg_seq(cfg.colors.menubar.bg_default),
    {
        Colors::bg(cfg.colors.menubar.bg_default)
    }

    /// Foreground of inactive file tabs.
    pub fn get_hbar_passive_fg(cfg: &Cfg) -> (s: String)
        ensures
            s@ == fg_seq(cfg.colors.filebar.fg_passive),
    {
        Colors::fg(cfg.colors.filebar.fg_passive)
    }

    /// Background of inactive file tabs.
    pub fn get_hbar_passive_bg(cfg: &Cfg) -> (s: String)
        ensures
            s@ == bg_seq(cfg.colors.filebar.bg_passive),
    {
        Colors::bg(cfg.colors.filebar.bg_passive)
    }

    /// Background and foreground of inactive file tabs.
    pub fn get_hbar_passive_fg_bg(cfg: &Cfg) -> (s: String)
        ensures
            s@ == bg_seq(cfg.colors.filebar.bg_passive) + fg_seq(cfg.colors.filebar.fg_passive),
    {
        concat2(Colors::get_hbar_passive_bg(cfg), Colors::get_hbar_passive_fg(cfg))
    }

    /// Background of the active file tab.
    pub fn get_hbar_bg_active(cfg: &Cfg) -> (s: String)
        ensures
            s@ == bg_seq(cfg.colors.filebar.bg_active),
    {
        Colors::bg(cfg.colors.filebar.bg_active)
    }

    /// Foreground of the active file tab.
    pub fn get_hbar_fg_active(cfg: &Cfg) -> (s: String)
        ensures
            s@ == fg_seq(cfg.colors.filebar.fg_active),
    {
        Colors::fg(cfg.colors.filebar.fg_active)
    }

    /// Background and foreground of the active file tab.
    pub fn get_hbar_active_fg_bg(cfg: &Cfg) -> (s: String)
        ensures
            s@ == bg_seq(cfg.colors.filebar.bg_active) + fg_seq(cfg.colors.filebar.fg_active),
    {
        concat2(Colors::get_hbar_bg_active(cfg), Colors::get_hbar_fg_active(cfg))
    }

    /// Background of the file bar.
    pub fn get_hbar_default_bg(cfg: &Cfg) -> (s: String)
        ensures
            s@ == bg_seq(cfg.colors.filebar.bg_default),
    {
        Colors::bg(cfg.colors.filebar.bg_default)
    }

    /// Background of the header bar: the editor background.
    fn get_hbar_bg(cfg: &Cfg) -> (s: String)
        ensures
            s@ == bg_seq(cfg.colors.editor.bg),
    {
        Colors::bg(cfg.colors.editor.bg)
    }

    /// Foreground of the header bar.
    fn get_hbar_fg(cfg: &Cfg) -> (s: String)
        ensures
            s@ == fg_seq(cfg.colors.headerbar.fg),
    {
        Colors::fg(cfg.colors.headerbar.fg)
    }

    /// Foreground and background of the header bar.
    pub fn get_hbar_fg_bg(cfg: &Cfg) -> (s: String)
        ensures
            s@ == fg_seq(cfg.colors.headerbar.fg) + bg_seq(cfg.colors.editor.bg),
    {
        concat2(Colors::get_hbar_fg(cfg), Colors::get_hbar_bg(cfg))
    }

    /// Background of an inactive header tab shown inverted: the control-character color.
    pub fn get_hbar_inversion_bg_passive(cfg: &Cfg) -> (s: String)
        ensures
            s@ == bg_seq(cfg.colors.editor.control_char.fg),
    {
        Colors::bg(cfg.colors.editor.control_char.fg)
    }

    /// Colors of an inactive header tab shown inverted.
    pub fn get_hbar_inversion_fg_bg_passive(cfg: &Cfg) -> (s: String)
        ensures
            s@ == bg_seq(cfg.colors.editor.control_char.fg) + fg_seq(cfg.colors.editor.bg),
    {
        concat2(Colors::get_hbar_inversion_bg_passive(cfg), Colors::get_default_inversion_fg(cfg))
    }

    /// Background of the active header tab shown inverted.
    pub fn get_hbar_inversion_bg_active(cfg: &Cfg) -> (s: String)
        ensures
            s@ == bg_seq(cfg.colors.headerbar.fg),
    {
        Colors::bg(cfg.colors.headerbar.fg)
    }

    /// Colors of the active header tab shown inverted.
    pub fn get_hbar_inversion_fg_bg_active(cfg: &Cfg) -> (s: String)
        ensures
            s@ == bg_seq(cfg.colors.headerbar.fg) + fg_seq(cfg.colors.editor.bg),
    {
        concat2(Colors::get_hbar_inversion_bg_active(cfg), Colors::get_default_inversion_fg(cfg))
    }

    /// Background of the scrollbar: the line-number background.
    pub fn get_scrollbar_bg(cfg: &Cfg) -> (s: String)
        ensures
            s@ == bg_seq(cfg.colors.editor.line_number.active_bg),
    {
        Colors::bg(cfg.colors.editor.line_number.active_bg)
    }

    /// Background of the status bar: the editor background.
    pub fn get_sbar_bg(cfg: &Cfg) -> (s: String)
        ensures
            s@ == bg_seq(cfg.colors.editor.bg),
    {
        Colors::bg(cfg.colors.editor.bg)
    }

    /// Foreground of the status bar.
    pub fn get_sbar_fg(cfg: &Cfg) -> (s: String)
        ensures
            s@ == fg_seq(cfg.colors.statusbar.fg),
    {
        Colors::fg(cfg.colors.statusbar.fg)
    }

    /// Foreground and background of the status bar.
    pub fn get_sbar_fg_bg(cfg: &Cfg) -> (s: String)
        ensures
            s@ == fg_seq(cfg.colors.statusbar.fg) + bg_seq(cfg.colors.editor.bg),
    {
        concat2(Colors::get_sbar_fg(cfg), Colors::get_sbar_bg(cfg))
    }

    /// Foreground of inverted status bar text: the editor background.
    pub fn get_sbar_inversion_fg(cfg: &Cfg) -> (s: String)
        ensures
            s@ == fg_seq(cfg.colors.editor.bg),
    {
        Colors::fg(cfg.colors.editor.bg)
    }

    /// Background of inverted status bar text: the status bar foreground.
    pub fn get_sbar_inversion_bg(cfg: &Cfg) -> (s: String)
        ensures
            s@ == bg_seq(cfg.colors.statusbar.fg),
    {
        Colors::bg(cfg.colors.statusbar.fg)
    }

    /// Colors of inverted status bar text.
    pub fn get_sbar_inversion_fg_bg(cfg: &Cfg) -> (s: String)
        ensures
            s@ == fg_seq(cfg.colors.editor.bg) + bg_seq(cfg.colors.statusbar.fg),
    {
        concat2(Colors::get_sbar_inversion_fg(cfg), Colors::get_sbar_inversion_bg(cfg))
    }

    /// Foreground of highlighted messages.
    pub fn get_msg_highlight_fg(cfg: &Cfg) -> (s: String)
        ensures
            s@ == fg_seq(cfg.colors.msg.highlight_fg),
    {
        Colors::fg(cfg.colors.msg.highlight_fg)
    }

    /// Background of inverted highlighted messages.
    pub fn get_msg_highlight_inversion_bg(cfg: &Cfg) -> (s: String)
        ensures
            s@ == bg_seq(cfg.colors.msg.highlight_fg),
    {
        Colors::bg(cfg.colors.msg.highlight_fg)
    }

    /// Colors of inverted highlighted messages.
    pub fn get_msg_highlight_inversion_fg_bg(cfg: &Cfg) -> (s: String)
        ensures
            s@ == bg_seq(cfg.colors.msg.highlight_fg) + fg_seq(cfg.colors.editor.bg),
    {
        concat2(Colors::get_msg_highlight_inversion_bg(cfg), Colors::get_default_inversion_fg(cfg))
    }

    /// Foreground of normal messages.
    pub fn get_msg_normal_fg(cfg: &Cfg) -> (s: String)
        ensures
            s@ == fg_seq(cfg.colors.msg.normal_fg),
    {
        Colors::fg(cfg.colors.msg.normal_fg)
    }

    /// Foreground of warnings.
    pub fn get_msg_warning_fg(cfg: &Cfg) -> (s: String)
        ensures
            s@ == fg_seq(cfg.colors.msg.warning_fg),
    {
        Colors::fg(cfg.colors.msg.warning_fg)
    }

    /// Background of inverted warnings.
    pub fn get_msg_warning_inversion_bg(cfg: &Cfg) -> (s: String)
        ensures
            s@ == bg_seq(cfg.colors.msg.warning_fg),
    {
        Colors::bg(cfg.colors.msg.warning_fg)
    }

    /// Colors of inverted warnings.
    pub fn get_msg_warning_inversion_fg_bg(cfg: &Cfg) -> (s: String)
        ensures
            s@ == bg_seq(cfg.colors.msg.warning_fg) + fg_seq(cfg.colors.editor.bg),
    {
        concat2(Colors::get_msg_warning_inversion_bg(cfg), Colors::get_default_inversion_fg(cfg))
    }

    /// Foreground of error messages.
    pub fn get_msg_err_fg(cfg: &Cfg) -> (s: String)
        ensures
            s@ == fg_seq(cfg.colors.msg.err_fg),
    {
        Colors::fg(cfg.colors.msg.err_fg)
    }

    /// Background of the selected context menu entry.
    pub fn get_ctx_menu_bg_sel(cfg: &Cfg) -> (s: String)
        ensures
            s@ == bg_seq(cfg.colors.ctx_menu.bg_sel),
    {
        Colors::bg(cfg.colors.ctx_menu.bg_sel)
    }

    /// Background of unselected context menu entries.
    pub fn get_ctx_menu_bg_non_sel(cfg: &Cfg) -> (s: String)
        ensures
            s@ == bg_seq(cfg.colors.ctx_menu.bg_non_sel),
    {
        Colors::bg(cfg.colors.ctx_menu.bg_non_sel)
    }

    /// Foreground of the selected context menu entry.
    pub fn get_ctx_menu_fg_sel(cfg: &Cfg) -> (s: String)
        ensures
            s@ == fg_seq(cfg.colors.ctx_menu.fg_sel),
    {
        Colors::fg(cfg.colors.ctx_menu.fg_sel)
    }

    /// Foreground of unselected context menu entries.
    pub fn get_ctx_menu_fg_non_sel(cfg: &Cfg) -> (s: String)
        ensures
            s@ == fg_seq(cfg.colors.ctx_menu.fg_non_sel),
    {
        Colors::fg(cfg.colors.ctx_menu.fg_non_sel)
    }

    /// Colors of the selected context menu entry.
    pub fn get_ctx_menu_fg_bg_sel(cfg: &Cfg) -> (s: String)
        ensures
            s@ == bg_seq(cfg.colors.ctx_menu.bg_sel) + fg_seq(cfg.colors.ctx_menu.fg_sel),
    {
        concat2(Colors::get_ctx_menu_bg_sel(cfg), Colors::get_ctx_menu_fg_sel(cfg))
    }

    /// Colors of unselected context menu entries.
    pub fn get_ctx_menu_fg_bg_non_sel(cfg: &Cfg) -> (s: String)
        ensures
            s@ == bg_seq(cfg.colors.ctx_menu.bg_non_sel) + fg_seq(cfg.colors.ctx_menu.fg_non_sel),
    {
        concat2(Colors::get_ctx_menu_bg_non_sel(cfg), Colors::get_ctx_menu_fg_non_sel(cfg))
    }

    /// Foreground of plain files in file lists.
    pub fn get_file_normal_fg(cfg: &Cfg) -> (s: String)
        ensures
            s@ == fg_seq(cfg.colors.file.normal_fg),
    {
        Colors::fg(cfg.colors.file.normal_fg)
    }

    /// Background of plain files in file lists: the editor background.
    pub fn get_file_normal_bg(cfg: &Cfg) -> (s: String)
        ensures
            s@ == bg_seq(cfg.colors.editor.bg),
    {
        Colors::get_default_bg(cfg)
    }

    /// Colors of plain files in file lists.
    pub fn get_file_normal_fg_bg(cfg: &Cfg) -> (s: String)
        ensures
            s@ == fg_seq(cfg.colors.file.normal_fg) + bg_seq(cfg.colors.editor.bg),
    {
        concat2(Colors::get_file_normal_fg(cfg), Colors::get_file_normal_bg(cfg))
    }

    /// Foreground of selected plain files in file lists: the editor background.
    pub fn get_file_normal_inversion_fg(cfg: &Cfg) -> (s: String)
        ensures
            s@ == fg_seq(cfg.colors.editor.bg),
    {
        Colors::fg(cfg.colors.editor.bg)
    }

    /// Background of selected plain files in file lists.
    pub fn get_file_normal_inversion_bg(cfg: &Cfg) -> (s: String)
        ensures
            s@ == bg_seq(cfg.colors.file.normal_fg),
    {
        Colors::bg(cfg.colors.file.normal_fg)
    }

    /// Colors of selected plain files in file lists.
    pub fn get_file_normal_inversion_fg_bg(cfg: &Cfg) -> (s: String)
        ensures
            s@ == fg_seq(cfg.colors.editor.bg) + bg_seq(cfg.colors.file.normal_fg),
    {
        concat2(Colors::get_file_normal_inversion_fg(cfg), Colors::get_file_normal_inversion_bg(cfg))
    }

    /// Foreground of directories in file lists.
    pub fn get_file_dir_fg(cfg: &Cfg) -> (s: String)
        ensures
            s@ == fg_seq(cfg.colors.file.directory_fg),
    {
        Colors::fg(cfg.colors.file.directory_fg)
    }

    /// Background of directories in file lists: the editor background.
    pub fn get_file_dir_bg(cfg: &Cfg) -> (s: String)
        ensures
            s@ == bg_seq(cfg.colors.editor.bg),
    {
        Colors::get_default_bg(cfg)
    }

    /// Colors of directories in file lists.
    pub fn get_file_dir_fg_bg(cfg: &Cfg) -> (s: String)
        ensures
            s@ == fg_seq(cfg.colors.file.directory_fg) + bg_seq(cfg.colors.editor.bg),
    {
        concat2(Colors::get_file_dir_fg(cfg), Colors::get_file_dir_bg(cfg))
    }

    /// Foreground of selected directories in file lists: the editor background.
    pub fn get_file_dir_inversion_fg(cfg: &Cfg) -> (s: String)
        ensures
            s@ == fg_seq(cfg.colors.editor.bg),
    {
        Colors::fg(cfg.colors.editor.bg)
    }

    /// Background of selected directories in file lists.
    pub fn get_file_dir_inversion_bg(cfg: &Cfg) -> (s: String)
        ensures
            s@ == bg_seq(cfg.colors.file.directory_fg),
    {
        Colors::bg(cfg.colors.file.directory_fg)
    }

    /// Colors of selected directories in file lists.
    pub fn get_file_dir_inversion_fg_bg(cfg: &Cfg) -> (s: String)
        ensures
            s@ == fg_seq(cfg.colors.editor.bg) + bg_seq(cfg.colors.file.directory_fg),
    {
        concat2(Colors::get_file_dir_inversion_fg(cfg), Colors::get_file_dir_inversion_bg(cfg))
    }

    /// Foreground of executable files in file lists.
    pub fn get_file_executable_fg(cfg: &Cfg) -> (s: String)
        ensures
            s@ == fg_seq(cfg.colors.file.executable_fg),
    {
        Colors::fg(cfg.colors.file.executable_fg)
    }

    /// Background of executable files in file lists: the editor background.
    pub fn get_file_executable_bg(cfg: &Cfg) -> (s: String)
        ensures
            s@ == bg_seq(cfg.colors.editor.bg),
    {
        Colors::get_default_bg(cfg)
    }

    /// Colors of executable files in file lists.
    pub fn get_file_executable_fg_bg(cfg: &Cfg) -> (s: String)
        ensures
            s@ == fg_seq(cfg.colors.file.executable_fg) + bg_seq(cfg.colors.editor.bg),
    {
        concat2(Colors::get_file_executable_fg(cfg), Colors::get_file_executable_bg(cfg))
    }

    /// Foreground of selected executable files in file lists: the editor background.
    pub fn get_file_executable_inversion_fg(cfg: &Cfg) -> (s: String)
        ensures
            s@ == fg_seq(cfg.colors.editor.bg),
    {
        Colors::fg(cfg.colors.editor.bg)
    }

    /// Background of selected executable files in file lists.
    pub fn get_file_executable_inversion_bg(cfg: &Cfg) -> (s: String)
        ensures
            s@ == bg_seq(cfg.colors.file.executable_fg),
    {
        Colors::bg(cfg.colors.file.executable_fg)
    }

    /// Colors of selected executable files in file lists.
    pub fn get_file_executable_inversion_fg_bg(cfg: &Cfg) -> (s: String)
        ensures
            s@ == fg_seq(cfg.colors.editor.bg) + bg_seq(cfg.colors.file.executable_fg),
    {
        concat2(Colors::get_file_executable_inversion_fg(cfg), Colors::get_file_executable_inversion_bg(cfg))
    }

    /// Colors of the line numbers of other rows: each of the line-number foreground and
    /// background, only where it differs from the editor's.
    pub fn get_rownum_not_curt_fg_bg(cfg: &Cfg) -> (s: String)
        ensures
            s@ == (if cfg.colors.editor.line_number.passive_fg != cfg.colors.editor.fg {
                fg_seq(cfg.colors.editor.line_number.passive_fg)
            } else {
                Seq::<char>::empty()
            }) + (if cfg.colors.editor.line_number.passive_bg != cfg.colors.editor.bg {
                bg_seq(cfg.colors.editor.line_number.passive_bg)
            } else {
                Seq::<char>::empty()
            }),
    {
        let mut s = String::new();
        if cfg.colors.editor.line_number.passive_fg != cfg.colors.editor.fg {
            let f = Colors::fg(cfg.colors.editor.line_number.passive_fg);
            s.push_str(f.as_str());
        }
        if cfg.colors.editor.line_number.passive_bg != cfg.colors.editor.bg {
            let b = Colors::bg(cfg.colors.editor.line_number.passive_bg);
            s.push_str(b.as_str());
        }
        s
    }

    /// Appends the sequences that select the editor's text colors.
    pub fn set_text_color(cfg: &Cfg, str_vec: &mut Vec<String>)
        ensures
            pushed_two(old(str_vec)@, final(str_vec)@, fg_seq(cfg.colors.editor.fg), bg_seq(cfg.colors.editor.bg)),
    {
        str_vec.push(Colors::fg(cfg.colors.editor.fg));
        str_vec.push(Colors::bg(cfg.colors.editor.bg));
    }

    /// Appends the sequences that select the colors of the cursor row's line number:
    /// the line-number foreground on the editor background.
    pub fn set_rownum_curt_color(cfg: &Cfg, str_vec: &mut Vec<String>)
        ensures
            pushed_two(old(str_vec)@, final(str_vec)@, fg_seq(cfg.colors.editor.line_number.active_fg), bg_seq(cfg.colors.editor.bg)),
    {
        str_vec.push(Colors::fg(cfg.colors.editor.line_number.active_fg));
        str_vec.push(Colors::bg(cfg.colors.editor.bg));
    }

    /// Appends the sequences that select the line-number colors.
    pub fn set_rownum_color(cfg: &Cfg, str_vec: &mut Vec<String>)
        ensures
            pushed_two(old(str_vec)@, final(str_vec)@, fg_seq(cfg.colors.editor.line_number.active_fg), bg_seq(cfg.colors.editor.line_number.active_bg)),
    {
        str_vec.push(Colors::fg(cfg.colors.editor.line_number.active_fg));
        str_vec.push(Colors::bg(cfg.colors.editor.line_number.active_bg));
    }

    /// Appends the sequences that select the colors of selected text.
    pub fn set_select_color(cfg: &Cfg, str_vec: &mut Vec<String>)
        ensures
            pushed_two(old(str_vec)@, final(str_vec)@, fg_seq(cfg.colors.editor.selection.fg), bg_seq(cfg.colors.editor.selection.bg)),
    {
        str_vec.push(Colors::fg(cfg.colors.editor.selection.fg));
        str_vec.push(Colors::bg(cfg.colors.editor.selection.bg));
    }

    /// Appends the end-of-file mark cut to `rest` characters, in the control-character color,
    /// followed by the sequence that restores the editor foreground.
    pub fn set_eof(cfg: &Cfg, str_vec: &mut Vec<String>, rest: usize)
        requires
            rest <= EOF_STR@.len(),
        ensures
            final(str_vec)@.len() == old(str_vec)@.len() + 3,
            forall|i: int| 0 <= i < old(str_vec)@.len() ==> final(str_vec)@[i] == old(str_vec)@[i],
            final(str_vec)@[old(str_vec)@.len() as int]@ == fg_seq(cfg.colors.editor.control_char.fg),
            final(str_vec)@[old(str_vec)@.len() as int + 1]@ == EOF_STR@.take(rest as int),
            final(str_vec)@[old(str_vec)@.len() as int + 2]@ == fg_seq(cfg.colors.editor.fg),
    {
        str_vec.push(Colors::fg(cfg.colors.editor.control_char.fg));
        str_vec.push(ascii_prefix(EOF_STR, rest));
        str_vec.push(Colors::fg(cfg.colors.editor.fg));
    }

    /// The color written by a hex string such as `#e76b2c` or `#fc0`.
    pub fn hex2rgb(hex: &str) -> (c: Color)
        requires
            hex_color_value(hex@) is Some,
        ensures
            c == rgb_color(hex_color_value(hex@).unwrap()),
    {
        let t = parse_hex_color(hex);
        match t {
            Some(v) => Color { rgb: Rgb { r: v.0, g: v.1, b: v.2 } },
            None => Color { rgb: Rgb { r: 0, g: 0, b: 0 } },
        }
    }

    /// The color written by a hex string, or `None` where the string is no hex color.
    pub fn try_hex2rgb(hex: &str) -> (c: Option<Color>)
        ensures
            c == (match hex_color_value(hex@) {
                Some(t) => Some(rgb_color(t)),
                None => None::<Color>,
            }),
    {
        match parse_hex_color(hex) {
            Some(_) => Some(Colors::hex2rgb(hex)),
            None => None,
        }
    }

    /// Escape sequence that sets `c` as the foreground color.
    pub fn fg(c: Color) -> (s: String)
        ensures
            s@ == fg_seq(c),
    {
        crossterm_fg(c.rgb.r, c.rgb.g, c.rgb.b)
    }

    /// Escape sequence that sets `c` as the background color.
    pub fn bg(c: Color) -> (s: String)
        ensures
            s@ == bg_seq(c),
    {
        crossterm_bg(c.rgb.r, c.rgb.g, c.rgb.b)
    }
}

} // verus!
