//! The foreground and background a character is drawn with, and the sequences that switch
//! from one style to another.
use crate::cfg::Cfg;
use crate::colors::{bg_seq, fg_seq, Color, Colors, Rgb};
use vstd::prelude::*;

verus! {

/// Foreground and background of a character.
#[derive(Debug, Default, Clone, Copy, PartialEq, Eq, Structural)]
pub struct CharStyle {
    pub fg: Color,
    pub bg: Color,
}

/// The colors a syntax highlighter gives a piece of text.
#[derive(Debug, Default, Clone, Copy, PartialEq, Eq, Structural)]
pub struct TextStyle {
    pub foreground: Color,
    pub background: Color,
}

/// A character on the screen with the style it was drawn with and the style to draw it with.
#[derive(Debug, Clone, Copy, PartialEq, Eq, Structural)]
pub struct Cell {
    pub from: CharStyle,
    pub to: CharStyle,
    pub c: char,
}

impl CharStyle {
    /// The style of highlighted text: the highlighter's foreground, and its background where
    /// the theme's background is enabled, else the editor background.
    pub fn from_syntect_style(cfg: &Cfg, style: &TextStyle) -> (s: CharStyle)
        ensures
            s.fg == style.foreground,
            s.bg == (if cfg.general.colors.theme.theme_bg_enable { style.background } else { cfg.colors.editor.bg }),
    {
        if cfg.general.colors.theme.theme_bg_enable {
            CharStyle { bg: style.background, fg: style.foreground }
        } else {
            CharStyle { bg: cfg.colors.editor.bg, fg: style.foreground }
        }
    }

    /// The style of plain text: the editor colors.
    pub fn normal(cfg: &Cfg) -> (s: CharStyle)
        ensures
            s == (CharStyle { fg: cfg.colors.editor.fg, bg: cfg.colors.editor.bg }),
    {
        let editor = &cfg.colors.editor;
        CharStyle {
            fg: Color { rgb: Rgb { r: editor.fg.rgb.r, g: editor.fg.rgb.g, b: editor.fg.rgb.b } },
            bg: Color { rgb: Rgb { r: editor.bg.rgb.r, g: editor.bg.rgb.g, b: editor.bg.rgb.b } },
        }
    }

    /// A placeholder style that no setting produces in practice, used before the first draw.
    pub fn none() -> (s: CharStyle)
        ensures
            s == (CharStyle { fg: Color { rgb: Rgb { r: 99, g: 99, b: 99 } }, bg: Color { rgb: Rgb { r: 99, g: 99, b: 99 } } }),
    {
        CharStyle { fg: Color { rgb: Rgb { r: 99, g: 99, b: 99 } }, bg: Color { rgb: Rgb { r: 99, g: 99, b: 99 } } }
    }

    /// The style of control characters: their color on the editor background.
    pub fn control_char(cfg: &Cfg) -> (s: CharStyle)
        ensures
            s == (CharStyle { fg: cfg.colors.editor.control_char.fg, bg: cfg.colors.editor.bg }),
    {
        let control_char = &cfg.colors.editor.control_char;
        let editor = &cfg.colors.editor;
        CharStyle {
            fg: Color { rgb: Rgb { r: control_char.fg.rgb.r, g: control_char.fg.rgb.g, b: control_char.fg.rgb.b } },
            bg: Color { rgb: Rgb { r: editor.bg.rgb.r, g: editor.bg.rgb.g, b: editor.bg.rgb.b } },
        }
    }

    /// The style of the space that fills the gap left by a wide character at a column edge.
    pub fn column_char_width_gap_space(cfg: &Cfg) -> (s: CharStyle)
        ensures
            s == (CharStyle {
                fg: cfg.colors.editor.column_char_width_gap_space.fg,
                bg: cfg.colors.editor.column_char_width_gap_space.bg,
            }),
    {
        let fg = &cfg.colors.editor.column_char_width_gap_space.fg;
        let bg = &cfg.colors.editor.column_char_width_gap_space.bg;
        CharStyle { fg: Color { rgb: Rgb { r: fg.rgb.r, g: fg.rgb.g, b: fg.rgb.b } }, bg: Color { rgb: Rgb { r: bg.rgb.r, g: bg.rgb.g, b: bg.rgb.b } } }
    }

    /// The style of selected text.
    pub fn selected(cfg: &Cfg) -> (s: CharStyle)
        ensures
            s == (CharStyle { fg: cfg.colors.editor.selection.fg, bg: cfg.colors.editor.selection.bg }),
    {
        let selection = &cfg.colors.editor.selection;
        CharStyle {
            fg: Color { rgb: Rgb { r: selection.fg.rgb.r, g: selection.fg.rgb.g, b: selection.fg.rgb.b } },
            bg: Color { rgb: Rgb { r: selection.bg.rgb.r, g: selection.bg.rgb.g, b: selection.bg.rgb.b } },
        }
    }

    /// The style of search matches.
    pub fn searched(cfg: &Cfg) -> (s: CharStyle)
        ensures
            s == (CharStyle { fg: cfg.colors.editor.search.fg, bg: cfg.colors.editor.search.bg }),
    {
        let search = &cfg.colors.editor.search;
        CharStyle {
            fg: Color { rgb: Rgb { r: search.fg.rgb.r, g: search.fg.rgb.g, b: search.fg.rgb.b } },
            bg: Color { rgb: Rgb { r: search.bg.rgb.r, g: search.bg.rgb.g, b: search.bg.rgb.b } },
        }
    }
}

/// The sequences `draw_style` appends: the new foreground where it changes (or a change is
/// forced), then the new background where it changes (or a change is forced).
pub open spec fn style_change_seqs(cell: Cell, forced_change: bool) -> Seq<Seq<char>> {
    (if cell.from.fg != cell.to.fg || forced_change { seq![fg_seq(cell.to.fg)] } else { Seq::empty() })
        + (if cell.from.bg != cell.to.bg || forced_change { seq![bg_seq(cell.to.bg)] } else { Seq::empty() })
}

impl Cell {
    /// Append the sequences that switch from the style the cell was drawn with to its new style.
    pub fn draw_style(&self, str_vec: &mut Vec<String>, forced_change: bool)
        ensures
            final(str_vec)@.len() == old(str_vec)@.len() + style_change_seqs(*self, forced_change).len(),
            forall|i: int| 0 <= i < old(str_vec)@.len() ==> final(str_vec)@[i] == old(str_vec)@[i],
            forall|i: int|
                0 <= i < style_change_seqs(*self, forced_change).len() ==> #[trigger] final(str_vec)@[old(str_vec)@.len() + i]@
                    == style_change_seqs(*self, forced_change)[i],
    {
        let ghost old_v = str_vec@;
        if self.from.fg != self.to.fg || forced_change {
            str_vec.push(Colors::fg(self.to.fg));
        }
        let ghost mid = str_vec@;
        if self.from.bg != self.to.bg || forced_change {
            str_vec.push(Colors::bg(self.to.bg));
        }
        proof {
            let seqs = style_change_seqs(*self, forced_change);
            assert forall|i: int| 0 <= i < seqs.len() implies #[trigger] str_vec@[old_v.len() + i]@ == seqs[i] by {
                if self.from.fg != self.to.fg || forced_change {
                    if i == 0 {
                        assert(seqs[0] == fg_seq(self.to.fg));
                    } else {
                        assert(seqs[1] == bg_seq(self.to.bg));
                    }
                } else {
                    assert(seqs[0] == bg_seq(self.to.bg));
                }
            }
        }
    }
}

} // verus!
