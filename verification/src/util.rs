//! Display-width arithmetic and string utilities of the editor.
use crate::cfg::Cfg;
use crate::colors::digit_char;
use crate::def::{
    CONTINUE_STR, FULL_SPACE_CHAR, HALF_SPACE_CHAR, MAIN_SEPARATOR, NEW_LINE_CR, NEW_LINE_CRLF_STR, NEW_LINE_LF, NEW_LINE_LF_STR, TAB_CHAR,
    TERM_MINIMUM_HEIGHT, TERM_MINIMUM_WIDTH,
};
use crate::text::str_eq;
use crate::model::{CharType, Env};
use crate::text::{chars_eq, chars_to_string, str_contains_char, str_to_chars, string_of};
use unicode_width::UnicodeWidthChar;
use vstd::prelude::*;

verus! {

/// The width that `unicode_width::UnicodeWidthChar::width` gives a character
/// (`None` for control characters; East Asian ambiguous characters are narrow).
pub uninterp spec fn unicode_width(c: char) -> Option<usize>;

/// The width that `unicode_width::UnicodeWidthChar::width_cjk` gives a character
/// (`None` for control characters; East Asian ambiguous characters are wide).
pub uninterp spec fn unicode_width_cjk(c: char) -> Option<usize>;

/// Is `c` a control character in the sense of `unicode_width` (C0 controls and DEL..U+009F)?
pub open spec fn is_control(c: char) -> bool {
    (c as u32) < 0x20 || (0x7f <= (c as u32) && (c as u32) < 0xa0)
}

/// Is `c` a printable ASCII character?
pub open spec fn is_printable_ascii(c: char) -> bool {
    0x20 <= (c as u32) && (c as u32) < 0x7f
}

/// Calls `UnicodeWidthChar::width` of the `unicode-width` crate.
/// In its source (`single_char_width`), control characters give `None`, printable ASCII gives
/// `Some(1)`, and every other character a table value of at most 3; the contract states these
/// facts and names the rest.
#[verifier::external_body]
fn uw_width(c: char) -> (w: Option<usize>)
    ensures
        w == unicode_width(c),
        is_control(c) ==> w is None,
        is_printable_ascii(c) ==> w == Some(1usize),
        w matches Some(n) ==> n <= 3,
{
    UnicodeWidthChar::width(c)
}

/// Calls `UnicodeWidthChar::width_cjk` of the `unicode-width` crate.
/// In its source (`single_char_width_cjk`), control characters give `None`, printable ASCII
/// gives `Some(1)`, and every other character a table value of at most 3.
#[verifier::external_body]
fn uw_width_cjk(c: char) -> (w: Option<usize>)
    ensures
        w == unicode_width_cjk(c),
        is_control(c) ==> w is None,
        is_printable_ascii(c) ==> w == Some(1usize),
        w matches Some(n) ==> n <= 3,
{
    UnicodeWidthChar::width_cjk(c)
}

/// `o.unwrap_or(0)`.
pub open spec fn width_or_zero(o: Option<usize>) -> nat {
    match o {
        Some(n) => n as nat,
        None => 0,
    }
}

/// Display width of a character as configured: with `font.ambiguous_width == Some(2)`
/// ambiguous characters count as wide, otherwise as narrow.
pub open spec fn c_width(cfg: Cfg, c: char) -> nat {
    match cfg.general.font.ambiguous_width {
        Some(a) => if a == 2 { width_or_zero(unicode_width_cjk(c)) } else { width_or_zero(unicode_width(c)) },
        None => width_or_zero(unicode_width(c)),
    }
}

/// Display width of a character where a tab is not expanded; a line feed counts as one column.
pub open spec fn width_not_tab(cfg: Cfg, c: char) -> nat {
    if c == NEW_LINE_LF { 1 } else { c_width(cfg, c) }
}

/// Columns a tab occupies when it starts at column `width`: up to the next tab stop.
pub open spec fn tab_width(width: nat, tab_size: nat) -> nat
    recommends
        tab_size > 0,
{
    (tab_size - width % tab_size) as nat
}

/// Display width of a character that starts at column `width`.
pub open spec fn char_width(cfg: Cfg, c: char, width: nat) -> nat {
    if c == TAB_CHAR {
        tab_width(width, cfg.general.editor.tab.size as nat)
    } else {
        width_not_tab(cfg, c)
    }
}

/// Total display width of `s` laid out from column `base` (tabs expand to the next tab stop).
pub open spec fn run_width(cfg: Cfg, s: Seq<char>, base: nat) -> nat
    decreases s.len(),
{
    if s.len() == 0 {
        0
    } else {
        let w = run_width(cfg, s.drop_last(), base);
        w + char_width(cfg, s.last(), base + w)
    }
}

/// Total display width of `s` where tabs are not expanded.
pub open spec fn str_width(cfg: Cfg, s: Seq<char>) -> nat
    decreases s.len(),
{
    if s.len() == 0 {
        0
    } else {
        str_width(cfg, s.drop_last()) + width_not_tab(cfg, s.last())
    }
}

/// The widest a single character can be: three columns, or a whole tab.
pub open spec fn max_char_width(cfg: Cfg) -> nat {
    if cfg.general.editor.tab.size > 3 { cfg.general.editor.tab.size as nat } else { 3 }
}

/// Arithmetic step used to bound running widths.
pub proof fn lemma_mul_step(i: nat, n: nat, m: nat)
    requires
        i < n,
    ensures
        (i + 1) * m == i * m + m,
        i * m + m <= n * m,
{
    assert((i + 1) * m == i * m + m) by (nonlinear_arith);
    assert(i * m + m <= n * m) by (nonlinear_arith)
        requires
            i + 1 <= n,
    ;
}

/// The configuration may lay out tabs: the tab size is positive.
pub open spec fn tab_ok(cfg: Cfg) -> bool {
    cfg.general.editor.tab.size > 0
}

/// The columns a tab takes reach exactly the next tab stop.
pub proof fn lemma_tab_width_reaches_tab_stop(width: nat, tab_size: nat)
    requires
        tab_size > 0,
    ensures
        1 <= tab_width(width, tab_size) <= tab_size,
        (width + tab_width(width, tab_size)) % tab_size == 0,
{
    let t = tab_size as int;
    let w = width as int;
    let r = w % t;
    let q = w / t;
    assert(0 <= r < t) by (nonlinear_arith)
        requires
            t > 0,
            r == w % t,
    ;
    assert(w == q * t + r) by (nonlinear_arith)
        requires
            t > 0,
            r == w % t,
            q == w / t,
    ;
    assert(w + (t - r) == (q + 1) * t) by (nonlinear_arith)
        requires
            w == q * t + r,
    ;
    assert(((q + 1) * t) % t == 0) by (nonlinear_arith)
        requires
            t > 0,
    ;
}

/// Columns a tab occupies when it starts at column `width`.
pub fn get_tab_width(width: usize, cfg_tab_width: usize) -> (w: usize)
    requires
        cfg_tab_width > 0,
    ensures
        w == tab_width(width as nat, cfg_tab_width as nat),
        1 <= w <= cfg_tab_width,
        (width + w) % (cfg_tab_width as int) == 0,
{
    proof {
        lemma_tab_width_reaches_tab_stop(width as nat, cfg_tab_width as nat);
    }
    cfg_tab_width - width % cfg_tab_width
}

/// Display width of a character as configured (ambiguous width setting; narrow by default).
pub fn get_c_width(cfg: &Cfg, c: &char) -> (w: usize)
    ensures
        w == c_width(*cfg, *c),
        w <= 3,
{
    let o = match cfg.general.font.ambiguous_width {
        Some(a) => if a == 2 { uw_width_cjk(*c) } else { uw_width(*c) },
        None => uw_width(*c),
    };
    match o {
        Some(n) => n,
        None => 0,
    }
}

/// Display width of a character without tab expansion; a line feed counts as one column.
pub fn get_char_width_not_tab(cfg: &Cfg, c: &char) -> (w: usize)
    ensures
        w == width_not_tab(*cfg, *c),
        w <= 3,
{
    if *c == NEW_LINE_LF {
        return 1;
    }
    get_c_width(cfg, c)
}

/// Display width of a character that starts at column `width` (tabs included).
pub fn get_char_width(cfg: &Cfg, c: &char, width: usize) -> (w: usize)
    requires
        tab_ok(*cfg),
    ensures
        w == char_width(*cfg, *c, width as nat),
        w <= max_char_width(*cfg),
{
    if *c == TAB_CHAR {
        get_tab_width(width, cfg.general.editor.tab.size)
    } else {
        get_char_width_not_tab(cfg, c)
    }
}

/// Is `c` a line feed or a carriage return?
pub open spec fn is_nl(c: char) -> bool {
    c == NEW_LINE_LF || c == NEW_LINE_CR
}

/// Display width of the first `i` characters of `s` laid out from column `base`.
pub open spec fn prefix_width(cfg: Cfg, s: Seq<char>, i: int, base: nat) -> nat {
    run_width(cfg, s.take(i), base)
}

/// Index of the first line feed or carriage return in `s` at or after `i` (or `s.len()`).
pub open spec fn first_nl_from(s: Seq<char>, i: int) -> int
    decreases s.len() - i,
{
    if 0 <= i < s.len() && !is_nl(s[i]) {
        first_nl_from(s, i + 1)
    } else {
        i
    }
}

/// Index of the first line feed or carriage return in `s` (or `s.len()`).
pub open spec fn first_nl(s: Seq<char>) -> int {
    first_nl_from(s, 0)
}

/// Starting at `i`, the length of the longest prefix of `s.take(n)` whose display width
/// (from column 0) does not exceed `limit`.
pub open spec fn fit_len_from(cfg: Cfg, s: Seq<char>, limit: nat, n: int, i: int) -> int
    decreases n - i,
{
    if 0 <= i < n && prefix_width(cfg, s, i + 1, 0) <= limit {
        fit_len_from(cfg, s, limit, n, i + 1)
    } else {
        i
    }
}

/// The length of the longest prefix of `s.take(n)` whose display width does not exceed `limit`.
pub open spec fn fit_len(cfg: Cfg, s: Seq<char>, limit: nat, n: int) -> int {
    fit_len_from(cfg, s, limit, n, 0)
}

/// The part of a row that is laid out: everything when control characters are included,
/// otherwise up to the first newline character.
pub open spec fn layout_end(s: Seq<char>, is_ctrlchar_incl: bool) -> int {
    if is_ctrlchar_incl { s.len() as int } else { first_nl(s) }
}

/// The first newline at or after `i` is within the text, and none comes before it.
pub proof fn lemma_first_nl_from_bounds(s: Seq<char>, i: int)
    requires
        0 <= i <= s.len(),
    ensures
        i <= first_nl_from(s, i) <= s.len(),
        first_nl_from(s, i) < s.len() ==> is_nl(s[first_nl_from(s, i)]),
        forall|j: int| i <= j < first_nl_from(s, i) ==> !is_nl(#[trigger] s[j]),
    decreases s.len() - i,
{
    if i < s.len() && !is_nl(s[i]) {
        lemma_first_nl_from_bounds(s, i + 1);
    }
}

/// One more character adds its width, measured at the column where it starts.
pub proof fn lemma_prefix_width_step(cfg: Cfg, s: Seq<char>, i: int, base: nat)
    requires
        0 <= i < s.len(),
    ensures
        prefix_width(cfg, s, i + 1, base) == prefix_width(cfg, s, i, base) + char_width(
            cfg,
            s[i],
            base + prefix_width(cfg, s, i, base),
        ),
{
    assert(s.take(i + 1).drop_last() =~= s.take(i));
    assert(s.take(i + 1).last() == s[i]);
}

/// Display width grows with the prefix.
pub proof fn lemma_prefix_width_monotone(cfg: Cfg, s: Seq<char>, i: int, j: int, base: nat)
    requires
        0 <= i <= j <= s.len(),
    ensures
        prefix_width(cfg, s, i, base) <= prefix_width(cfg, s, j, base),
    decreases j - i,
{
    if i < j {
        lemma_prefix_width_step(cfg, s, j - 1, base);
        lemma_prefix_width_monotone(cfg, s, i, j - 1, base);
    }
}

/// The whole of `s` is a prefix of itself.
pub proof fn lemma_take_all<T>(s: Seq<T>)
    ensures
        s.take(s.len() as int) == s,
{
    assert(s.take(s.len() as int) =~= s);
}

/// Number of characters and display width of `char_vec` up to display column `disp_x`:
/// the longest prefix that fits in `disp_x` columns, stopping at the first newline unless
/// control characters are included.
pub fn get_until_disp_x(cfg: &Cfg, char_vec: &[char], disp_x: usize, is_ctrlchar_incl: bool) -> (r: (usize, usize))
    requires
        tab_ok(*cfg),
        char_vec@.len() * max_char_width(*cfg) <= usize::MAX,
    ensures
        r.0 == fit_len(*cfg, char_vec@, disp_x as nat, layout_end(char_vec@, is_ctrlchar_incl)),
        r.1 == prefix_width(*cfg, char_vec@, r.0 as int, 0),
        r.1 <= disp_x,
{
    let ghost s = char_vec@;
    let ghost n = layout_end(s, is_ctrlchar_incl);
    proof {
        lemma_first_nl_from_bounds(s, 0);
        lemma_take_all(s);
    }
    let (mut cur_x, mut width): (usize, usize) = (0, 0);
    while cur_x < char_vec.len()
        invariant
            tab_ok(*cfg),
            s == char_vec@,
            n == layout_end(s, is_ctrlchar_incl),
            0 <= n <= s.len(),
            s.len() * max_char_width(*cfg) <= usize::MAX,
            cur_x <= n,
            !is_ctrlchar_incl ==> first_nl_from(s, cur_x as int) == first_nl(s),
            width == prefix_width(*cfg, s, cur_x as int, 0),
            width <= cur_x * max_char_width(*cfg),
            width <= disp_x,
            fit_len(*cfg, s, disp_x as nat, n) == fit_len_from(*cfg, s, disp_x as nat, n, cur_x as int),
            s.take(s.len() as int) == s,
        ensures
            fit_len_from(*cfg, s, disp_x as nat, n, cur_x as int) == cur_x,
        decreases s.len() - cur_x,
    {
        let c = char_vec[cur_x];
        if (c == NEW_LINE_LF || c == NEW_LINE_CR) && !is_ctrlchar_incl {
            break;
        }
        proof {
            lemma_prefix_width_step(*cfg, s, cur_x as int, 0);
            lemma_mul_step(cur_x as nat, s.len(), max_char_width(*cfg));
            if !is_ctrlchar_incl {
                lemma_first_nl_from_bounds(s, cur_x as int + 1);
            }
        }
        let c_len = get_char_width(cfg, &c, width);
        if width + c_len > disp_x {
            break;
        } else {
            width += c_len;
            cur_x += 1;
        }
    }
    (cur_x, width)
}

/// Layout of a row: the number of characters up to the first newline and their display
/// width when the row starts at column `offset_disp_x`; a newline itself counts as one
/// character of width one when control characters are included.
pub open spec fn row_cur_x_disp_x(cfg: Cfg, s: Seq<char>, offset_disp_x: nat, is_ctrlchar_incl: bool) -> (nat, nat) {
    let n = first_nl(s);
    if n < s.len() && is_ctrlchar_incl {
        ((n + 1) as nat, prefix_width(cfg, s, n, offset_disp_x) + 1)
    } else {
        (n as nat, prefix_width(cfg, s, n, offset_disp_x))
    }
}

/// Cursor index for display column `disp_x`: the first character that does not fit entirely
/// left of `disp_x`; when every laid-out character fits, the index after them is returned only
/// if a newline stops the row at or beyond `disp_x`, or if `is_return_on_the_way` asks for it.
pub open spec fn row_x_opt(cfg: Cfg, s: Seq<char>, disp_x: nat, is_ctrlchar_incl: bool, is_return_on_the_way: bool) -> Option<usize> {
    let n = layout_end(s, is_ctrlchar_incl);
    let k = fit_len(cfg, s, disp_x, n);
    if k < n {
        Some(k as usize)
    } else if n < s.len() && prefix_width(cfg, s, n, 0) >= disp_x {
        Some(n as usize)
    } else if is_return_on_the_way && n > 0 {
        Some(n as usize)
    } else {
        None
    }
}

/// Get the layout (characters, display width) of a row up to its first newline.
pub fn get_row_cur_x_disp_x(cfg: &Cfg, char_arr: &[char], offset_disp_x: usize, is_ctrlchar_incl: bool) -> (r: (usize, usize))
    requires
        tab_ok(*cfg),
        offset_disp_x + char_arr@.len() * max_char_width(*cfg) + 1 <= usize::MAX,
    ensures
        r.0 == row_cur_x_disp_x(*cfg, char_arr@, offset_disp_x as nat, is_ctrlchar_incl).0,
        r.1 == row_cur_x_disp_x(*cfg, char_arr@, offset_disp_x as nat, is_ctrlchar_incl).1,
{
    let ghost s = char_arr@;
    proof {
        lemma_first_nl_from_bounds(s, 0);
        lemma_take_all(s);
    }
    let (mut cur_x, mut disp_x): (usize, usize) = (0, 0);
    while cur_x < char_arr.len()
        invariant
            tab_ok(*cfg),
            s == char_arr@,
            s.take(s.len() as int) == s,
            offset_disp_x + s.len() * max_char_width(*cfg) + 1 <= usize::MAX,
            cur_x <= first_nl(s),
            disp_x <= cur_x * max_char_width(*cfg),
            first_nl(s) <= s.len(),
            first_nl_from(s, cur_x as int) == first_nl(s),
            disp_x == prefix_width(*cfg, s, cur_x as int, offset_disp_x as nat),
        ensures
            cur_x == first_nl(s),
            disp_x <= cur_x * max_char_width(*cfg),
            disp_x == prefix_width(*cfg, s, cur_x as int, offset_disp_x as nat),
            cur_x < s.len() ==> is_nl(s[cur_x as int]),
        decreases s.len() - cur_x,
    {
        let c = char_arr[cur_x];
        if c == NEW_LINE_LF || c == NEW_LINE_CR {
            break;
        }
        proof {
            lemma_prefix_width_step(*cfg, s, cur_x as int, offset_disp_x as nat);
            lemma_mul_step(cur_x as nat, s.len(), max_char_width(*cfg));
            lemma_first_nl_from_bounds(s, cur_x as int + 1);
        }
        let c_len = get_char_width(cfg, &c, disp_x + offset_disp_x);
        disp_x += c_len;
        cur_x += 1;
    }
    if cur_x < char_arr.len() && is_ctrlchar_incl {
        proof {
            lemma_mul_step(cur_x as nat, s.len(), max_char_width(*cfg));
        }
        disp_x += 1;
        cur_x += 1;
    }
    (cur_x, disp_x)
}

/// Get the cursor index of a display column; `None` when no character stands there.
pub fn get_row_x_opt(cfg: &Cfg, char_arr: &[char], disp_x: usize, is_ctrlchar_incl: bool, is_return_on_the_way: bool) -> (r: Option<usize>)
    requires
        tab_ok(*cfg),
        char_arr@.len() * max_char_width(*cfg) <= usize::MAX,
    ensures
        r == row_x_opt(*cfg, char_arr@, disp_x as nat, is_ctrlchar_incl, is_return_on_the_way),
{
    let ghost s = char_arr@;
    let ghost n = layout_end(s, is_ctrlchar_incl);
    proof {
        lemma_first_nl_from_bounds(s, 0);
        lemma_take_all(s);
    }
    let (mut cur_x, mut width): (usize, usize) = (0, 0);
    while cur_x < char_arr.len()
        invariant
            tab_ok(*cfg),
            s == char_arr@,
            s.take(s.len() as int) == s,
            n == layout_end(s, is_ctrlchar_incl),
            0 <= n <= s.len(),
            s.len() * max_char_width(*cfg) <= usize::MAX,
            cur_x <= n,
            !is_ctrlchar_incl ==> first_nl_from(s, cur_x as int) == first_nl(s),
            width == prefix_width(*cfg, s, cur_x as int, 0),
            width <= cur_x * max_char_width(*cfg),
            width <= disp_x,
            fit_len(*cfg, s, disp_x as nat, n) == fit_len_from(*cfg, s, disp_x as nat, n, cur_x as int),
        ensures
            cur_x == n,
            width == prefix_width(*cfg, s, cur_x as int, 0),
            n < s.len() ==> width < disp_x,
            fit_len(*cfg, s, disp_x as nat, n) == n,
        decreases s.len() - cur_x,
    {
        let c = char_arr[cur_x];
        if c == NEW_LINE_LF || c == NEW_LINE_CR {
            if is_ctrlchar_incl {
            } else if width >= disp_x {
                return Some(cur_x);
            } else {
                break;
            }
        }
        proof {
            lemma_prefix_width_step(*cfg, s, cur_x as int, 0);
            lemma_mul_step(cur_x as nat, s.len(), max_char_width(*cfg));
            if !is_ctrlchar_incl {
                lemma_first_nl_from_bounds(s, cur_x as int + 1);
            }
        }
        let c_len = get_char_width(cfg, &c, width);
        if width + c_len > disp_x {
            return Some(cur_x);
        }
        width += c_len;
        cur_x += 1;
    }
    if is_return_on_the_way && cur_x > 0 {
        return Some(cur_x);
    }
    None
}

/// Display width of a string where tabs are not expanded.
pub fn get_str_width(cfg: &Cfg, msg: &str) -> (w: usize)
    requires
        msg@.len() * 3 <= usize::MAX,
    ensures
        w == str_width(*cfg, msg@),
{
    let chars = str_to_chars(msg);
    let ghost s = msg@;
    let mut width: usize = 0;
    let mut i: usize = 0;
    while i < chars.len()
        invariant
            chars@ == s,
            i <= s.len(),
            width == str_width(*cfg, s.take(i as int)),
            width <= i * 3,
            s.len() * 3 <= usize::MAX,
        decreases s.len() - i,
    {
        proof {
            assert(s.take(i + 1).drop_last() =~= s.take(i as int));
            lemma_mul_step(i as nat, s.len(), 3);
        }
        width += get_char_width_not_tab(cfg, &chars[i]);
        i = i + 1;
    }
    proof {
        lemma_take_all(s);
    }
    width
}

/// Width without tab expansion grows with the prefix.
pub proof fn lemma_str_width_monotone(cfg: Cfg, s: Seq<char>, i: int, j: int)
    requires
        0 <= i <= j <= s.len(),
    ensures
        str_width(cfg, s.take(i)) <= str_width(cfg, s.take(j)),
    decreases j - i,
{
    if i < j {
        assert(s.take(j).drop_last() =~= s.take(j - 1));
        lemma_str_width_monotone(cfg, s, i, j - 1);
    }
}

/// Number of characters at the end of `chars` that fit in `col_len` columns, counted from
/// the end; the result is the index where that tail starts.
pub open spec fn x_offset(cfg: Cfg, s: Seq<char>, col_len: nat) -> int {
    s.len() - fit_len(cfg, s.reverse(), col_len, s.len() as int)
}

/// The reversed sequence has the same length and holds the elements back to front.
pub proof fn lemma_reverse_index<T>(s: Seq<T>)
    ensures
        s.reverse().len() == s.len(),
        forall|i: int| 0 <= i < s.len() ==> #[trigger] s.reverse()[i] == s[s.len() - 1 - i],
{
}

/// Get the offset from which the end of a row fits in `col_len` columns.
pub fn get_x_offset(cfg: &Cfg, chars: &[char], col_len: usize) -> (r: usize)
    requires
        tab_ok(*cfg),
        chars@.len() * max_char_width(*cfg) <= usize::MAX,
    ensures
        r == x_offset(*cfg, chars@, col_len as nat),
{
    let ghost s = chars@;
    let ghost rs = s.reverse();
    proof {
        lemma_reverse_index(s);
        lemma_take_all(rs);
    }
    let (mut cur_x, mut width): (usize, usize) = (0, 0);
    while cur_x < chars.len()
        invariant_except_break
            width == prefix_width(*cfg, rs, cur_x as int, 0),
            width <= col_len,
            width <= cur_x * max_char_width(*cfg),
        invariant
            tab_ok(*cfg),
            s == chars@,
            rs == s.reverse(),
            rs.len() == s.len(),
            forall|i: int| 0 <= i < s.len() ==> #[trigger] rs[i] == s[s.len() - 1 - i],
            rs.take(rs.len() as int) == rs,
            s.len() * max_char_width(*cfg) <= usize::MAX,
            cur_x <= s.len(),
            fit_len(*cfg, rs, col_len as nat, s.len() as int) == fit_len_from(*cfg, rs, col_len as nat, s.len() as int, cur_x as int),
        ensures
            fit_len_from(*cfg, rs, col_len as nat, s.len() as int, cur_x as int) == cur_x,
            cur_x <= s.len(),
        decreases s.len() - cur_x,
    {
        let c = chars[chars.len() - 1 - cur_x];
        proof {
            assert(c == rs[cur_x as int]);
            lemma_prefix_width_step(*cfg, rs, cur_x as int, 0);
            lemma_mul_step(cur_x as nat, s.len(), max_char_width(*cfg));
        }
        width += get_char_width(cfg, &c, width);
        if width > col_len {
            break;
        }
        cur_x += 1;
    }
    chars.len() - cur_x
}

/// Character class of `c`: a configured word delimiter, a half-width space, a full-width
/// space, or any other character.
pub open spec fn char_type(cfg: Cfg, c: char) -> CharType {
    if cfg.general.editor.word.word_delimiter@.contains(c) {
        CharType::Delim
    } else if c == HALF_SPACE_CHAR {
        CharType::HalfSpace
    } else if c == FULL_SPACE_CHAR {
        CharType::FullSpace
    } else {
        CharType::Nomal
    }
}

/// Character class of `c` for word movement and selection.
pub fn get_char_type(cfg: &Cfg, c: char) -> (t: CharType)
    ensures
        t == char_type(*cfg, c),
{
    if str_contains_char(cfg.general.editor.word.word_delimiter.as_str(), c) {
        CharType::Delim
    } else if c == HALF_SPACE_CHAR {
        CharType::HalfSpace
    } else if c == FULL_SPACE_CHAR {
        CharType::FullSpace
    } else {
        CharType::Nomal
    }
}

/// Starting at index `i`, the end of the leading run of `t` in which each character has the
/// class of the character before it.
pub open spec fn type_run_from(cfg: Cfg, t: Seq<char>, i: int) -> int
    decreases t.len() - i,
{
    if 1 <= i < t.len() && char_type(cfg, t[i]) == char_type(cfg, t[i - 1]) {
        type_run_from(cfg, t, i + 1)
    } else {
        i
    }
}

/// Boundary of the run of same-class characters that starts at position `x` of the row;
/// `t` is the row read from `x` backwards (`is_forward`) or forwards.
pub open spec fn delim_pos(cfg: Cfg, t: Seq<char>, x: int, is_forward: bool) -> int {
    if t.len() == 0 {
        0
    } else {
        let m = type_run_from(cfg, t, 1);
        if m < t.len() {
            if is_forward { x - m + 1 } else { x + m }
        } else {
            if is_forward { x - (t.len() - 1) } else { x + t.len() }
        }
    }
}

/// The word (run of same-class characters) around index `x` of a row: its start, and the index
/// just after its end; `(0, 0)` where `x` is not in the row.
pub open spec fn delim_x(cfg: Cfg, row: Seq<char>, x: int) -> (int, int) {
    if x < row.len() {
        (delim_pos(cfg, row.take(x + 1).reverse(), x, true), delim_pos(cfg, row.skip(x), x, false))
    } else {
        (0, 0)
    }
}

fn get_delim(cfg: &Cfg, target: &Vec<char>, x: usize, is_forward: bool) -> (r: usize)
    requires
        target@.len() > 0,
        is_forward ==> target@.len() == x + 1,
        !is_forward ==> x + target@.len() <= usize::MAX,
    ensures
        r == delim_pos(*cfg, target@, x as int, is_forward),
{
    let ghost t = target@;
    let mut rtn_x: usize = 0;
    let mut i: usize = 1;
    let mut char_type_org = get_char_type(cfg, target[0]);
    while i < target.len()
        invariant
            t == target@,
            1 <= i <= t.len(),
            is_forward ==> t.len() == x + 1,
            !is_forward ==> x + t.len() <= usize::MAX,
            char_type_org == char_type(*cfg, t[i - 1]),
            type_run_from(*cfg, t, 1) == type_run_from(*cfg, t, i as int),
        ensures
            type_run_from(*cfg, t, 1) == i,
        decreases t.len() - i,
    {
        let char_type = get_char_type(cfg, target[i]);
        if char_type != char_type_org {
            break;
        }
        char_type_org = char_type;
        i = i + 1;
    }
    if i < target.len() {
        rtn_x = if is_forward { x - i + 1 } else { x + i };
    } else {
        rtn_x = if is_forward { x - (i - 1) } else { x + i };
    }
    rtn_x
}

/// Get the start of the word around index `x` of a row and the index just after it
/// (`(0, 0)` where `x` is past the row).
pub fn get_delim_x(cfg: &Cfg, row: &[char], x: usize) -> (r: (usize, usize))
    ensures
        r.0 == delim_x(*cfg, row@, x as int).0,
        r.1 == delim_x(*cfg, row@, x as int).1,
{
    let ghost s = row@;
    let (mut sx, mut ex): (usize, usize) = (0, 0);
    if x < row.len() {
        let mut forward: Vec<char> = Vec::new();
        let mut j: usize = 0;
        while j <= x
            invariant
                s == row@,
                x < s.len(),
                j <= x + 1,
                forward@ == s.take(x + 1).reverse().take(j as int),
            decreases x + 1 - j,
        {
            proof {
                lemma_reverse_index(s.take(x + 1));
                assert(s.take(x + 1).reverse().take(j + 1) =~= forward@.push(s[x - j]));
            }
            forward.push(row[x - j]);
            j = j + 1;
        }
        proof {
            lemma_reverse_index(s.take(x + 1));
            lemma_take_all(s.take(x + 1).reverse());
        }
        sx = get_delim(cfg, &forward, x, true);
        let mut backward: Vec<char> = Vec::new();
        let mut k: usize = x;
        while k < row.len()
            invariant
                s == row@,
                x <= k <= s.len(),
                backward@ == s.subrange(x as int, k as int),
            decreases s.len() - k,
        {
            proof {
                assert(s.subrange(x as int, k + 1) =~= backward@.push(s[k as int]));
            }
            backward.push(row[k]);
            k = k + 1;
        }
        proof {
            assert(backward@ =~= s.skip(x as int));
        }
        ex = get_delim(cfg, &backward, x, false);
    }
    (sx, ex)
}

/// Index just after the last word delimiter of `s`, or 0 when it has none.
pub open spec fn last_delim_end(cfg: Cfg, s: Seq<char>) -> int
    decreases s.len(),
{
    if s.len() == 0 {
        0
    } else if cfg.general.editor.word.word_delimiter@.contains(s.last()) {
        s.len() as int
    } else {
        last_delim_end(cfg, s.drop_last())
    }
}

/// Get the index where the word that ends the row starts (just after its last delimiter).
pub fn get_until_delim_sx(cfg: &Cfg, rows: &[char]) -> (r: usize)
    ensures
        r == last_delim_end(*cfg, rows@),
{
    let ghost s = rows@;
    let row_len = rows.len();
    let mut i: usize = 0;
    proof {
        lemma_take_all(s);
    }
    while i < row_len
        invariant
            s == rows@,
            row_len == s.len(),
            i <= row_len,
            last_delim_end(*cfg, s) == last_delim_end(*cfg, s.take(row_len - i)),
        decreases row_len - i,
    {
        let c = rows[row_len - 1 - i];
        proof {
            let p = s.take(row_len - i);
            assert(p.last() == c);
            assert(p.drop_last() =~= s.take(row_len - i - 1));
        }
        if str_contains_char(cfg.general.editor.word.word_delimiter.as_str(), c) {
            return row_len - i;
        }
        i = i + 1;
    }
    proof {
        assert(s.take(0) =~= Seq::<char>::empty());
    }
    return 0;
}

/// Starting at `i`, the length of the longest prefix of `t` whose width (tabs not expanded)
/// does not exceed `limit`.
pub open spec fn str_fit_from(cfg: Cfg, t: Seq<char>, limit: int, i: int) -> int
    decreases t.len() - i,
{
    if 0 <= i < t.len() && str_width(cfg, t.take(i + 1)) <= limit {
        str_fit_from(cfg, t, limit, i + 1)
    } else {
        i
    }
}

/// `s` shortened to `limit_width` columns: unchanged when it fits; otherwise the longest
/// prefix (or, `is_from_before`, suffix) that fits, with room kept for and the mark ".."
/// added on the cut side when `is_add_continue_str`.
pub open spec fn cut_str_spec(cfg: Cfg, s: Seq<char>, limit_width: nat, is_from_before: bool, is_add_continue_str: bool) -> Seq<char> {
    if limit_width >= str_width(cfg, s) {
        s
    } else {
        let limit = if is_add_continue_str { limit_width - str_width(cfg, CONTINUE_STR@) } else { limit_width as int };
        let t = if is_from_before { s.reverse() } else { s };
        let k = str_fit_from(cfg, t, limit, 0);
        if k < t.len() {
            let body = if is_from_before { s.skip(s.len() - k) } else { s.take(k) };
            if is_add_continue_str {
                if is_from_before { CONTINUE_STR@ + body } else { body + CONTINUE_STR@ }
            } else {
                body
            }
        } else {
            s
        }
    }
}

/// Reserving room for the ".." mark is possible whenever a cut is needed.
pub open spec fn cut_str_ok(cfg: Cfg, s: Seq<char>, limit_width: nat, is_add_continue_str: bool) -> bool {
    is_add_continue_str && limit_width < str_width(cfg, s) ==> limit_width >= str_width(cfg, CONTINUE_STR@)
}

/// Widths add up over concatenation.
pub proof fn lemma_str_width_concat(cfg: Cfg, a: Seq<char>, b: Seq<char>)
    ensures
        str_width(cfg, a + b) == str_width(cfg, a) + str_width(cfg, b),
    decreases b.len(),
{
    if b.len() > 0 {
        assert((a + b).drop_last() =~= a + b.drop_last());
        assert((a + b).last() == b.last());
        lemma_str_width_concat(cfg, a, b.drop_last());
    }
}

/// Reversing a text keeps its width.
pub proof fn lemma_str_width_reverse(cfg: Cfg, s: Seq<char>)
    ensures
        str_width(cfg, s.reverse()) == str_width(cfg, s),
    decreases s.len(),
{
    if s.len() > 0 {
        assert(s.reverse() =~= seq![s.last()] + s.drop_last().reverse());
        lemma_str_width_reverse(cfg, s.drop_last());
        lemma_str_width_concat(cfg, seq![s.last()], s.drop_last().reverse());
        assert(seq![s.last()].drop_last() =~= Seq::<char>::empty());
        assert(str_width(cfg, Seq::<char>::empty()) == 0);
        assert(seq![s.last()].last() == s.last());
        assert(str_width(cfg, seq![s.last()]) == width_not_tab(cfg, s.last()));
    }
}

proof fn lemma_str_fit_from(cfg: Cfg, t: Seq<char>, limit: int, i: int)
    requires
        0 <= i <= t.len(),
        str_width(cfg, t.take(i)) <= limit,
    ensures
        i <= str_fit_from(cfg, t, limit, i) <= t.len(),
        str_width(cfg, t.take(str_fit_from(cfg, t, limit, i))) <= limit,
    decreases t.len() - i,
{
    if i < t.len() && str_width(cfg, t.take(i + 1)) <= limit {
        lemma_str_fit_from(cfg, t, limit, i + 1);
    }
}

/// A cut string never takes more columns than asked for.
pub proof fn lemma_cut_str_fits(cfg: Cfg, s: Seq<char>, limit_width: nat, is_from_before: bool, is_add_continue_str: bool)
    requires
        cut_str_ok(cfg, s, limit_width, is_add_continue_str),
    ensures
        str_width(cfg, cut_str_spec(cfg, s, limit_width, is_from_before, is_add_continue_str)) <= limit_width,
{
    if limit_width < str_width(cfg, s) {
        let c = CONTINUE_STR@;
        let limit = if is_add_continue_str { limit_width - str_width(cfg, c) } else { limit_width as int };
        let t = if is_from_before { s.reverse() } else { s };
        assert(t.take(0) =~= Seq::<char>::empty());
        lemma_str_fit_from(cfg, t, limit, 0);
        let k = str_fit_from(cfg, t, limit, 0);
        lemma_str_width_reverse(cfg, s);
        if k < t.len() {
            let body = if is_from_before { s.skip(s.len() - k) } else { s.take(k) };
            if is_from_before {
                assert(s.reverse().take(k) =~= s.skip(s.len() - k).reverse());
                lemma_str_width_reverse(cfg, s.skip(s.len() - k));
            }
            assert(str_width(cfg, body) <= limit);
            if is_add_continue_str {
                if is_from_before {
                    lemma_str_width_concat(cfg, c, body);
                } else {
                    lemma_str_width_concat(cfg, body, c);
                }
            }
        } else {
            assert(t.take(t.len() as int) =~= t);
        }
    }
}

/// Cut a string to a display width, keeping its beginning or (`is_from_before`) its end,
/// and mark the cut with ".." when `is_add_continue_str`.
pub fn cut_str(cfg: &Cfg, str: &str, limit_width: usize, is_from_before: bool, is_add_continue_str: bool) -> (r: String)
    requires
        str@.len() * 3 <= usize::MAX,
        cut_str_ok(*cfg, str@, limit_width as nat, is_add_continue_str),
    ensures
        r@ == cut_str_spec(*cfg, str@, limit_width as nat, is_from_before, is_add_continue_str),
{
    let ghost s = str@;
    let src = str_to_chars(str);
    let total_width = get_str_width(cfg, str);
    if limit_width >= total_width {
        return string_of(str);
    }
    proof {
        reveal_strlit("..");
    }
    let limit = if is_add_continue_str { limit_width - get_str_width(cfg, CONTINUE_STR) } else { limit_width };
    let mut chars: Vec<char> = Vec::new();
    if is_from_before {
        let mut j: usize = 0;
        while j < src.len()
            invariant
                src@ == s,
                j <= s.len(),
                chars@ == s.reverse().take(j as int),
            decreases s.len() - j,
        {
            proof {
                lemma_reverse_index(s);
                assert(s.reverse().take(j + 1) =~= chars@.push(s[s.len() - 1 - j]));
            }
            chars.push(src[src.len() - 1 - j]);
            j = j + 1;
        }
        proof {
            lemma_reverse_index(s);
            lemma_take_all(s.reverse());
        }
    } else {
        chars = src;
        proof {
            lemma_take_all(s);
        }
    }
    let ghost t = chars@;
    let mut width: usize = 0;
    let mut i: usize = 0;
    while i < chars.len()
        invariant
            s == str@,
            t == chars@,
            t == (if is_from_before { s.reverse() } else { s }),
            t.len() == s.len(),
            s.len() * 3 <= usize::MAX,
            i <= t.len(),
            width == str_width(*cfg, t.take(i as int)),
            width <= i * 3,
            width <= limit,
            str_fit_from(*cfg, t, limit as int, 0) == str_fit_from(*cfg, t, limit as int, i as int),
            limit == (if is_add_continue_str { limit_width - str_width(*cfg, CONTINUE_STR@) } else { limit_width as int }),
            !(limit_width >= str_width(*cfg, s)),
        decreases t.len() - i,
    {
        let w = get_char_width_not_tab(cfg, &chars[i]);
        proof {
            assert(t.take(i + 1).drop_last() =~= t.take(i as int));
            lemma_mul_step(i as nat, t.len(), 3);
        }
        if width + w > limit {
            proof {
                assert(t.take(i + 1).last() == t[i as int]);
                assert(str_width(*cfg, t.take(i + 1)) == width + w);
                assert(str_fit_from(*cfg, t, limit as int, i as int) == i);
            }
            let mut rtn: Vec<char> = Vec::new();
            if is_from_before {
                let mut j: usize = src_len_minus(chars.len(), i);
                let ghost start = j;
                while j < chars.len()
                    invariant
                        t == chars@,
                        t == s.reverse(),
                        t.len() == s.len(),
                        i <= t.len(),
                        start == s.len() - i,
                        start <= j <= s.len(),
                        rtn@ == s.subrange(start as int, j as int),
                    decreases s.len() - j,
                {
                    proof {
                        lemma_reverse_index(s);
                        assert(s.subrange(start as int, j + 1) =~= rtn@.push(s[j as int]));
                    }
                    rtn.push(chars[chars.len() - 1 - j]);
                    j = j + 1;
                }
                proof {
                    assert(rtn@ =~= s.skip(s.len() - i));
                }
            } else {
                let mut j: usize = 0;
                while j < i
                    invariant
                        t == chars@,
                        t == s,
                        i <= t.len(),
                        j <= i,
                        rtn@ == s.take(j as int),
                    decreases i - j,
                {
                    proof {
                        assert(s.take(j + 1) =~= rtn@.push(s[j as int]));
                    }
                    rtn.push(chars[j]);
                    j = j + 1;
                }
            }
            let mut rtn_str = chars_to_string(rtn.as_slice());
            if is_add_continue_str {
                if is_from_before {
                    let mut cont = string_of(CONTINUE_STR);
                    cont.push_str(rtn_str.as_str());
                    rtn_str = cont;
                } else {
                    rtn_str.push_str(CONTINUE_STR);
                }
            }
            return rtn_str;
        }
        width += w;
        i = i + 1;
    }
    string_of(str)
}

/// `n - i` for `i <= n`.
fn src_len_minus(n: usize, i: usize) -> (r: usize)
    requires
        i <= n,
    ensures
        r == n - i,
{
    n - i
}

/// `cut_str` where the cut is possible; `None` where reserving room for ".." would leave a
/// negative width (the situation in which the width arithmetic cannot proceed).
pub fn cut_str_checked(cfg: &Cfg, str: &str, limit_width: usize, is_from_before: bool, is_add_continue_str: bool) -> (r: Option<String>)
    requires
        str@.len() * 3 <= usize::MAX,
    ensures
        cut_str_ok(*cfg, str@, limit_width as nat, is_add_continue_str) <==> r is Some,
        r matches Some(v) ==> v@ == cut_str_spec(*cfg, str@, limit_width as nat, is_from_before, is_add_continue_str),
{
    proof {
        reveal_strlit("..");
    }
    if is_add_continue_str && limit_width < get_str_width(cfg, str) && limit_width < get_str_width(cfg, CONTINUE_STR) {
        return None;
    }
    Some(cut_str(cfg, str, limit_width, is_from_before, is_add_continue_str))
}

/// `s` with every occurrence of `pat` replaced by `rep`, scanning left to right without
/// overlaps (what `str::replace` documents).
pub open spec fn replace_spec(s: Seq<char>, pat: Seq<char>, rep: Seq<char>) -> Seq<char>
    decreases s.len(),
{
    if pat.len() == 0 || s.len() < pat.len() {
        s
    } else if s.take(pat.len() as int) == pat {
        rep + replace_spec(s.skip(pat.len() as int), pat, rep)
    } else {
        seq![s[0]] + replace_spec(s.skip(1), pat, rep)
    }
}

/// Does `pat` occur in `s` at index `i`?
pub open spec fn occurs_at(s: Seq<char>, pat: Seq<char>, i: int) -> bool {
    0 <= i && i + pat.len() <= s.len() && s.subrange(i, i + pat.len()) == pat
}

/// Replacing in the part from index `i` on, after what was already produced.
proof fn lemma_replace_step(s: Seq<char>, pat: Seq<char>, rep: Seq<char>, i: int)
    requires
        pat.len() > 0,
        0 <= i < s.len(),
    ensures
        s.len() - i < pat.len() ==> replace_spec(s.skip(i), pat, rep) == s.skip(i),
        s.len() - i >= pat.len() && occurs_at(s, pat, i) ==> replace_spec(s.skip(i), pat, rep) == rep + replace_spec(
            s.skip(i + pat.len()),
            pat,
            rep,
        ),
        s.len() - i >= pat.len() && !occurs_at(s, pat, i) ==> replace_spec(s.skip(i), pat, rep) == seq![s[i]] + replace_spec(
            s.skip(i + 1),
            pat,
            rep,
        ),
{
    let t = s.skip(i);
    if t.len() >= pat.len() {
        assert(t.take(pat.len() as int) =~= s.subrange(i, i + pat.len()));
        assert(t.skip(pat.len() as int) =~= s.skip(i + pat.len()));
        assert(t.skip(1) =~= s.skip(i + 1));
    }
}

/// `s` with every occurrence of `pat` replaced by `rep` (`pat` not empty).
pub fn replace_all(s: &[char], pat: &[char], rep: &[char]) -> (r: Vec<char>)
    requires
        pat@.len() > 0,
    ensures
        r@ == replace_spec(s@, pat@, rep@),
{
    let mut r: Vec<char> = Vec::new();
    let mut i: usize = 0;
    let slen = s.len();
    proof {
        assert(s@.skip(0) =~= s@);
        assert(r@ + replace_spec(s@, pat@, rep@) =~= replace_spec(s@, pat@, rep@));
    }
    while i < s.len()
        invariant
            pat@.len() > 0,
            slen == s@.len(),
            i <= s@.len(),
            r@ + replace_spec(s@.skip(i as int), pat@, rep@) == replace_spec(s@, pat@, rep@),
        decreases s@.len() - i,
    {
        proof {
            lemma_replace_step(s@, pat@, rep@, i as int);
        }
        let mut is_match = s.len() - i >= pat.len();
        let mut k: usize = 0;
        while is_match && k < pat.len()
            invariant
                is_match ==> i + pat@.len() <= s@.len(),
                slen == s@.len(),
                i < s@.len(),
                k <= pat@.len(),
                is_match ==> forall|j: int| 0 <= j < k ==> s@[i + j] == pat@[j],
                !is_match ==> !occurs_at(s@, pat@, i as int),
            decreases pat@.len() - k,
        {
            if s[i + k] != pat[k] {
                is_match = false;
                proof {
                    if i + pat@.len() <= s@.len() {
                        assert(s@.subrange(i as int, i + pat@.len())[k as int] != pat@[k as int]);
                    }
                }
            }
            k = k + 1;
        }
        if is_match {
            proof {
                assert(s@.subrange(i as int, i + pat@.len()) =~= pat@);
            }
            let mut j: usize = 0;
            let ghost r0 = r@;
            while j < rep.len()
                invariant
                    j <= rep@.len(),
                    r@ == r0 + rep@.take(j as int),
                decreases rep@.len() - j,
            {
                r.push(rep[j]);
                j = j + 1;
                proof {
                    assert(rep@.take(j as int) =~= rep@.take(j - 1).push(rep@[j - 1]));
                }
            }
            proof {
                assert(rep@.take(rep@.len() as int) =~= rep@);
                assert(r0 + rep@ + replace_spec(s@.skip(i + pat@.len()), pat@, rep@) =~= r0 + (rep@ + replace_spec(
                    s@.skip(i + pat@.len()),
                    pat@,
                    rep@,
                )));
            }
            i = i + pat.len();
        } else {
            let ghost r0 = r@;
            r.push(s[i]);
            proof {
                if s@.len() - i < pat@.len() {
                    assert(s@.skip(i as int) =~= seq![s@[i as int]] + s@.skip(i + 1));
                    assert(s@.len() - (i + 1) < pat@.len());
                    if i + 1 < s@.len() {
                        lemma_replace_step(s@, pat@, rep@, i + 1);
                    } else {
                        assert(s@.skip(i + 1) =~= Seq::<char>::empty());
                    }
                }
                assert(r0.push(s@[i as int]) + replace_spec(s@.skip(i + 1), pat@, rep@) =~= r0 + (seq![s@[i as int]]
                    + replace_spec(s@.skip(i + 1), pat@, rep@)));
            }
            i = i + 1;
        }
    }
    proof {
        assert(s@.skip(i as int) =~= Seq::<char>::empty());
        assert(r@ + Seq::<char>::empty() =~= r@);
    }
    r
}

/// One character of `split_chars`: a split character closes the pending piece (kept when not
/// empty) and, when `is_inclusive`, becomes a piece of its own; a newline character is dropped
/// when `is_new_line_code_ignore`; any other character extends the pending piece.
pub open spec fn split_step(
    state: (Seq<Seq<char>>, Seq<char>),
    c: char,
    is_inclusive: bool,
    is_new_line_code_ignore: bool,
    split_char: Seq<char>,
) -> (Seq<Seq<char>>, Seq<char>) {
    let v = state.0;
    let buf = state.1;
    if split_char.contains(c) {
        let v1 = if buf.len() > 0 { v.push(buf) } else { v };
        (if is_inclusive { v1.push(seq![c]) } else { v1 }, Seq::empty())
    } else if is_new_line_code_ignore && is_nl(c) {
        (v, buf)
    } else {
        (v, buf.push(c))
    }
}

/// The closed pieces and the pending piece after splitting `s`.
pub open spec fn split_state(
    s: Seq<char>,
    is_inclusive: bool,
    is_new_line_code_ignore: bool,
    split_char: Seq<char>,
) -> (Seq<Seq<char>>, Seq<char>)
    decreases s.len(),
{
    if s.len() == 0 {
        (Seq::empty(), Seq::empty())
    } else {
        split_step(
            split_state(s.drop_last(), is_inclusive, is_new_line_code_ignore, split_char),
            s.last(),
            is_inclusive,
            is_new_line_code_ignore,
            split_char,
        )
    }
}

/// The pieces of `s` cut at the split characters, the last pending piece included.
pub open spec fn split_spec(s: Seq<char>, is_inclusive: bool, is_new_line_code_ignore: bool, split_char: Seq<char>) -> Seq<Seq<char>> {
    let st = split_state(s, is_inclusive, is_new_line_code_ignore, split_char);
    if st.1.len() > 0 { st.0.push(st.1) } else { st.0 }
}

/// Cut `target` at the characters of `split_char`; pieces are never empty, the split
/// characters are pieces of their own when `is_inclusive`, and newline characters are dropped
/// when `is_new_line_code_ignore`.
pub fn split_chars(target: &str, is_inclusive: bool, is_new_line_code_ignore: bool, split_char: &[char]) -> (r: Vec<String>)
    ensures
        r@.len() == split_spec(target@, is_inclusive, is_new_line_code_ignore, split_char@).len(),
        forall|i: int|
            0 <= i < r@.len() ==> #[trigger] r@[i]@ == split_spec(target@, is_inclusive, is_new_line_code_ignore, split_char@)[i],
{
    let chars = str_to_chars(target);
    let ghost t = target@;
    let mut vec: Vec<String> = Vec::new();
    let mut string = String::new();
    let mut i: usize = 0;
    while i < chars.len()
        invariant
            chars@ == t,
            i <= t.len(),
            vec@.len() == split_state(t.take(i as int), is_inclusive, is_new_line_code_ignore, split_char@).0.len(),
            forall|j: int|
                0 <= j < vec@.len() ==> #[trigger] vec@[j]@ == split_state(
                    t.take(i as int),
                    is_inclusive,
                    is_new_line_code_ignore,
                    split_char@,
                ).0[j],
            string@ == split_state(t.take(i as int), is_inclusive, is_new_line_code_ignore, split_char@).1,
        decreases t.len() - i,
    {
        let c = chars[i];
        proof {
            assert(t.take(i + 1).drop_last() =~= t.take(i as int));
            assert(t.take(i + 1).last() == c);
        }
        let mut is_split = false;
        let mut k: usize = 0;
        while k < split_char.len()
            invariant
                k <= split_char@.len(),
                is_split == (exists|j: int| 0 <= j < k && split_char@[j] == c),
            decreases split_char@.len() - k,
        {
            if split_char[k] == c {
                is_split = true;
            }
            k = k + 1;
        }
        proof {
            if is_split {
                let j = choose|j: int| 0 <= j < split_char@.len() && split_char@[j] == c;
                assert(split_char@.contains(c));
            }
        }
        if is_split {
            if !string.as_str().is_empty() {
                vec.push(string);
            }
            if is_inclusive {
                let mut one = String::new();
                one.push(c);
                vec.push(one);
            }
            string = String::new();
        } else if !(is_new_line_code_ignore && (c == NEW_LINE_LF || c == NEW_LINE_CR)) {
            string.push(c);
        }
        i = i + 1;
    }
    proof {
        lemma_take_all(t);
    }
    if !string.as_str().is_empty() {
        vec.push(string);
    }
    vec
}

/// The characters `split_chars` keeps: split characters when they are pieces of their own, and
/// every other character unless it is a dropped newline.
pub open spec fn split_keeps(c: char, is_inclusive: bool, is_new_line_code_ignore: bool, split_char: Seq<char>) -> bool {
    if split_char.contains(c) { is_inclusive } else { !(is_new_line_code_ignore && is_nl(c)) }
}

proof fn lemma_split_state_flatten(s: Seq<char>, is_inclusive: bool, is_new_line_code_ignore: bool, split_char: Seq<char>)
    ensures
        ({
            let st = split_state(s, is_inclusive, is_new_line_code_ignore, split_char);
            &&& st.0.flatten() + st.1 == s.filter(|c: char| split_keeps(c, is_inclusive, is_new_line_code_ignore, split_char))
            &&& forall|i: int| 0 <= i < st.0.len() ==> #[trigger] st.0[i].len() > 0
            &&& !is_inclusive ==> forall|i: int, j: int|
                0 <= i < st.0.len() && 0 <= j < st.0[i].len() ==> !split_char.contains(#[trigger] st.0[i][j])
            &&& !is_inclusive ==> forall|j: int| 0 <= j < st.1.len() ==> !split_char.contains(#[trigger] st.1[j])
        }),
    decreases s.len(),
{
    let keep = |c: char| split_keeps(c, is_inclusive, is_new_line_code_ignore, split_char);
    if s.len() == 0 {
        reveal(Seq::filter);
        assert(s.filter(keep) =~= Seq::<char>::empty());
        assert(Seq::<Seq<char>>::empty().flatten() + Seq::<char>::empty() =~= Seq::<char>::empty());
    } else {
        let p = s.drop_last();
        let c = s.last();
        lemma_split_state_flatten(p, is_inclusive, is_new_line_code_ignore, split_char);
        let prev = split_state(p, is_inclusive, is_new_line_code_ignore, split_char);
        assert(p.push(c) =~= s);
        p.lemma_filter_push(c, keep);
        if split_char.contains(c) {
            let v1 = if prev.1.len() > 0 { prev.0.push(prev.1) } else { prev.0 };
            if prev.1.len() > 0 {
                prev.0.lemma_flatten_push(prev.1);
            } else {
                assert(prev.0.flatten() + prev.1 =~= prev.0.flatten());
            }
            assert(v1.flatten() == prev.0.flatten() + prev.1);
            if is_inclusive {
                v1.lemma_flatten_push(seq![c]);
                assert(v1.push(seq![c]).flatten() + Seq::<char>::empty() =~= (prev.0.flatten() + prev.1).push(c));
            } else {
                assert(v1.flatten() + Seq::<char>::empty() =~= prev.0.flatten() + prev.1);
            }
        } else if is_new_line_code_ignore && is_nl(c) {
        } else {
            assert(prev.0.flatten() + prev.1.push(c) =~= (prev.0.flatten() + prev.1).push(c));
        }
    }
}

/// Joined back together, the pieces of `split_chars` give the kept characters of the target in
/// their order: with split characters as pieces and newlines not dropped, the whole target. No
/// piece is empty, and without the split characters as pieces, no piece holds one.
pub proof fn lemma_split_chars_rejoin(s: Seq<char>, is_inclusive: bool, is_new_line_code_ignore: bool, split_char: Seq<char>)
    ensures
        split_spec(s, is_inclusive, is_new_line_code_ignore, split_char).flatten() == s.filter(
            |c: char| split_keeps(c, is_inclusive, is_new_line_code_ignore, split_char),
        ),
        is_inclusive && !is_new_line_code_ignore ==> split_spec(s, is_inclusive, is_new_line_code_ignore, split_char).flatten() == s,
        forall|i: int|
            0 <= i < split_spec(s, is_inclusive, is_new_line_code_ignore, split_char).len() ==> #[trigger] split_spec(
                s,
                is_inclusive,
                is_new_line_code_ignore,
                split_char,
            )[i].len() > 0,
        !is_inclusive ==> forall|i: int, j: int|
            0 <= i < split_spec(s, is_inclusive, is_new_line_code_ignore, split_char).len() && 0 <= j < split_spec(
                s,
                is_inclusive,
                is_new_line_code_ignore,
                split_char,
            )[i].len() ==> !split_char.contains(#[trigger] split_spec(s, is_inclusive, is_new_line_code_ignore, split_char)[i][j]),
{
    let keep = |c: char| split_keeps(c, is_inclusive, is_new_line_code_ignore, split_char);
    lemma_split_state_flatten(s, is_inclusive, is_new_line_code_ignore, split_char);
    let st = split_state(s, is_inclusive, is_new_line_code_ignore, split_char);
    if st.1.len() > 0 {
        st.0.lemma_flatten_push(st.1);
    } else {
        assert(st.0.flatten() + st.1 =~= st.0.flatten());
    }
    if is_inclusive && !is_new_line_code_ignore {
        lemma_filter_all(s, keep);
    }
}

/// Filtering with a predicate that holds of every element keeps the whole sequence.
proof fn lemma_filter_all(s: Seq<char>, keep: spec_fn(char) -> bool)
    requires
        forall|c: char| #[trigger] keep(c),
    ensures
        s.filter(keep) == s,
    decreases s.len(),
{
    reveal(Seq::filter);
    if s.len() > 0 {
        lemma_filter_all(s.drop_last(), keep);
        assert(s.drop_last().push(s.last()) =~= s);
    }
}

/// A carriage return and a line feed.
pub open spec fn crlf() -> Seq<char> {
    seq![NEW_LINE_CR, NEW_LINE_LF]
}

/// The text with its newlines made `to_nl`: every CRLF becomes LF, and then, for `CRLF`,
/// every LF becomes CRLF.
pub open spec fn nl_changed(s: Seq<char>, to_nl: Seq<char>) -> Seq<char> {
    let lf = replace_spec(s, crlf(), seq![NEW_LINE_LF]);
    if to_nl == NEW_LINE_CRLF_STR@ { replace_spec(lf, seq![NEW_LINE_LF], crlf()) } else { lf }
}

/// Change the newlines of a text to LF, or to CRLF when `to_nl` is `CRLF`.
pub fn change_nl(string: &mut String, to_nl: &str)
    ensures
        final(string)@ == nl_changed(old(string)@, to_nl@),
{
    let chars = str_to_chars(string.as_str());
    let crlf_v: Vec<char> = vec![NEW_LINE_CR, NEW_LINE_LF];
    let lf_v: Vec<char> = vec![NEW_LINE_LF];
    proof {
        assert(crlf_v@ =~= crlf());
        assert(lf_v@ =~= seq![NEW_LINE_LF]);
    }
    let lf = replace_all(chars.as_slice(), crlf_v.as_slice(), lf_v.as_slice());
    if str_eq(to_nl, NEW_LINE_CRLF_STR) {
        let out = replace_all(lf.as_slice(), lf_v.as_slice(), crlf_v.as_slice());
        *string = chars_to_string(out.as_slice());
    } else {
        *string = chars_to_string(lf.as_slice());
    }
}

/// Turning every LF of a text without carriage returns into CRLF and back gives the text.
pub proof fn lemma_change_nl_round_trip(s: Seq<char>)
    requires
        !s.contains(NEW_LINE_CR),
    ensures
        replace_spec(replace_spec(s, seq![NEW_LINE_LF], crlf()), crlf(), seq![NEW_LINE_LF]) == s,
    decreases s.len(),
{
    let lf = seq![NEW_LINE_LF];
    if s.len() > 0 {
        let rest = s.skip(1);
        assert forall|c: char| rest.contains(c) implies s.contains(c) by {
            let j = choose|j: int| 0 <= j < rest.len() && rest[j] == c;
            assert(s[j + 1] == c);
        }
        lemma_change_nl_round_trip(rest);
        let once = replace_spec(rest, lf, crlf());
        if s.take(1) == lf {
            assert(replace_spec(s, lf, crlf()) == crlf() + once);
            let t = crlf() + once;
            assert(t.take(2) =~= crlf());
            assert(t.skip(2) =~= once);
            assert(replace_spec(t, crlf(), lf) == lf + replace_spec(once, crlf(), lf));
            assert(lf + rest =~= s);
        } else {
            assert(s[0] != NEW_LINE_LF) by {
                if s[0] == NEW_LINE_LF {
                    assert(s.take(1) =~= lf);
                }
            }
            assert(s[0] != NEW_LINE_CR) by {
                assert(s.contains(s[0]));
            }
            assert(replace_spec(s, lf, crlf()) == seq![s[0]] + once);
            let t = seq![s[0]] + once;
            if t.len() >= 2 {
                assert(t.take(2) != crlf()) by {
                    assert(t.take(2)[0] == s[0]);
                }
                assert(t.skip(1) =~= once);
                assert(replace_spec(t, crlf(), lf) == seq![s[0]] + replace_spec(once, crlf(), lf));
            } else {
                assert(once.len() == 0);
                assert(replace_spec(once, crlf(), lf) =~= once);
            }
            assert(seq![s[0]] + rest =~= s);
        }
    } else {
        assert(replace_spec(s, lf, crlf()) =~= s);
    }
}

/// `\n`, `\t` and `\r` typed into a regular-expression search become the characters they name,
/// and escaped quotes and apostrophes the bare characters.
pub open spec fn regex_unescaped(s: Seq<char>) -> Seq<char> {
    let s1 = replace_spec(s, seq!['\\', 'n'], seq!['\n']);
    let s2 = replace_spec(s1, seq!['\\', 't'], seq!['\t']);
    let s3 = replace_spec(s2, seq!['\\', 'r'], seq!['\r']);
    let s4 = replace_spec(s3, seq!['\\'], seq!['\\']);
    let s5 = replace_spec(s4, seq!['\\', '\''], seq!['\'']);
    replace_spec(s5, seq!['\\', '"'], seq!['"'])
}

/// A search string as the search uses it: unescaped when searches use regular expressions,
/// unchanged otherwise.
pub fn change_regex(cfg: &Cfg, string: String) -> (r: String)
    ensures
        r@ == (if cfg.general.editor.search.regex { regex_unescaped(string@) } else { string@ }),
{
    if cfg.general.editor.search.regex {
        let s0 = str_to_chars(string.as_str());
        let bs: Vec<char> = vec!['\\'];
        let (p1, r1): (Vec<char>, Vec<char>) = (vec!['\\', 'n'], vec!['\n']);
        let (p2, r2): (Vec<char>, Vec<char>) = (vec!['\\', 't'], vec!['\t']);
        let (p3, r3): (Vec<char>, Vec<char>) = (vec!['\\', 'r'], vec!['\r']);
        let (p5, r5): (Vec<char>, Vec<char>) = (vec!['\\', '\''], vec!['\'']);
        let (p6, r6): (Vec<char>, Vec<char>) = (vec!['\\', '"'], vec!['"']);
        proof {
            assert(bs@ =~= seq!['\\']);
            assert(p1@ =~= seq!['\\', 'n'] && r1@ =~= seq!['\n']);
            assert(p2@ =~= seq!['\\', 't'] && r2@ =~= seq!['\t']);
            assert(p3@ =~= seq!['\\', 'r'] && r3@ =~= seq!['\r']);
            assert(p5@ =~= seq!['\\', '\''] && r5@ =~= seq!['\'']);
            assert(p6@ =~= seq!['\\', '"'] && r6@ =~= seq!['"']);
        }
        let s1 = replace_all(s0.as_slice(), p1.as_slice(), r1.as_slice());
        let s2 = replace_all(s1.as_slice(), p2.as_slice(), r2.as_slice());
        let s3 = replace_all(s2.as_slice(), p3.as_slice(), r3.as_slice());
        let s4 = replace_all(s3.as_slice(), bs.as_slice(), bs.as_slice());
        let s5 = replace_all(s4.as_slice(), p5.as_slice(), r5.as_slice());
        let s6 = replace_all(s5.as_slice(), p6.as_slice(), r6.as_slice());
        return chars_to_string(s6.as_slice());
    }
    string
}

/// The directory part of a path as typed: up to and including its last `/`; a path that ends
/// with `/` is kept whole.
pub open spec fn dir_path_spec(path: Seq<char>) -> Seq<char> {
    let pieces = split_spec(path, true, true, seq![MAIN_SEPARATOR]);
    if pieces.len() > 0 && pieces.last() != seq![MAIN_SEPARATOR] { pieces.drop_last().flatten() } else { pieces.flatten() }
}

/// The directory part of a path as typed (newlines dropped).
pub fn get_dir_path(path_str: &str) -> (r: String)
    ensures
        r@ == dir_path_spec(path_str@),
{
    let sep: Vec<char> = vec![MAIN_SEPARATOR];
    proof {
        assert(sep@ =~= seq![MAIN_SEPARATOR]);
    }
    let vec = split_chars(path_str, true, true, sep.as_slice());
    let ghost pieces = split_spec(path_str@, true, true, seq![MAIN_SEPARATOR]);
    let mut n = vec.len();
    if n > 0 {
        let last = str_to_chars(vec[n - 1].as_str());
        if !chars_eq(last.as_slice(), sep.as_slice()) {
            n = n - 1;
        }
    }
    proof {
        if vec@.len() > 0 {
            assert(pieces.last() == vec@[vec@.len() - 1]@);
        }
    }
    let mut out = String::new();
    let mut i: usize = 0;
    while i < n
        invariant
            n <= vec@.len(),
            vec@.len() == pieces.len(),
            forall|j: int| 0 <= j < vec@.len() ==> #[trigger] vec@[j]@ == pieces[j],
            i <= n,
            out@ == pieces.take(i as int).flatten(),
        decreases n - i,
    {
        proof {
            pieces.take(i as int).lemma_flatten_push(pieces[i as int]);
            assert(pieces.take(i + 1) =~= pieces.take(i as int).push(pieces[i as int]));
        }
        out.push_str(vec[i].as_str());
        i = i + 1;
    }
    proof {
        if n == vec@.len() {
            assert(pieces.take(n as int) =~= pieces);
        } else {
            assert(pieces.take(n as int) =~= pieces.drop_last());
        }
    }
    out
}

/// The English ordinal suffix of a number: `th` for 11 to 13 (mod 100), otherwise `st`, `nd`,
/// `rd` for a last digit of 1, 2, 3, and `th` for the rest.
pub open spec fn ordinal_suffix_spec(number: nat) -> Seq<char> {
    if 11 <= number % 100 && number % 100 <= 13 {
        "th"@
    } else if number % 10 == 1 {
        "st"@
    } else if number % 10 == 2 {
        "nd"@
    } else if number % 10 == 3 {
        "rd"@
    } else {
        "th"@
    }
}

/// The English ordinal suffix of a number.
pub fn ordinal_suffix(number: usize) -> (r: &'static str)
    ensures
        r@ == ordinal_suffix_spec(number as nat),
{
    let (a, b) = (number % 10, number % 100);
    if 11 <= b && b <= 13 {
        "th"
    } else if a == 1 {
        "st"
    } else if a == 2 {
        "nd"
    } else if a == 3 {
        "rd"
    } else {
        "th"
    }
}

/// The parts of `s` between the separators `sep`, as `str::split` gives them (empty parts
/// included; one part more than there are separators).
pub open spec fn split_parts(s: Seq<char>, sep: char) -> Seq<Seq<char>> {
    let st = split_parts_state(s, sep);
    st.0.push(st.1)
}

/// The finished parts and the current part after reading `s`.
pub open spec fn split_parts_state(s: Seq<char>, sep: char) -> (Seq<Seq<char>>, Seq<char>)
    decreases s.len(),
{
    if s.len() == 0 {
        (Seq::empty(), Seq::empty())
    } else {
        let st = split_parts_state(s.drop_last(), sep);
        if s.last() == sep { (st.0.push(st.1), Seq::empty()) } else { (st.0, st.1.push(s.last())) }
    }
}

/// The parts of a path between its `/` separators.
fn path_parts(s: &str) -> (r: Vec<Vec<char>>)
    ensures
        r@.len() == split_parts(s@, MAIN_SEPARATOR).len(),
        forall|i: int| 0 <= i < r@.len() ==> #[trigger] r@[i]@ == split_parts(s@, MAIN_SEPARATOR)[i],
{
    let chars = str_to_chars(s);
    let ghost t = s@;
    let mut done: Vec<Vec<char>> = Vec::new();
    let mut cur: Vec<char> = Vec::new();
    let mut i: usize = 0;
    while i < chars.len()
        invariant
            chars@ == t,
            i <= t.len(),
            done@.len() == split_parts_state(t.take(i as int), MAIN_SEPARATOR).0.len(),
            forall|j: int| 0 <= j < done@.len() ==> #[trigger] done@[j]@ == split_parts_state(t.take(i as int), MAIN_SEPARATOR).0[j],
            cur@ == split_parts_state(t.take(i as int), MAIN_SEPARATOR).1,
        decreases t.len() - i,
    {
        proof {
            assert(t.take(i + 1).drop_last() =~= t.take(i as int));
        }
        if chars[i] == MAIN_SEPARATOR {
            done.push(cur);
            cur = Vec::new();
        } else {
            cur.push(chars[i]);
        }
        i = i + 1;
    }
    proof {
        lemma_take_all(t);
    }
    done.push(cur);
    done
}

/// Does the path `src` lie within `dst`, as the editor decides it: the last part of `src`
/// equals the part of `dst` at the same position.
pub open spec fn include_path_spec(src: Seq<char>, dst: Seq<char>) -> bool {
    let sp = split_parts(src, MAIN_SEPARATOR);
    let dp = split_parts(dst, MAIN_SEPARATOR);
    sp.len() - 1 < dp.len() && sp[sp.len() - 1] == dp[sp.len() - 1]
}

/// Does the path `src` lie within `dst` (decided by the last part of `src`)?
pub fn is_include_path(src: &str, dst: &str) -> (b: bool)
    ensures
        b == include_path_spec(src@, dst@),
{
    let src_vec = path_parts(src);
    let dst_vec = path_parts(dst);
    let i = src_vec.len() - 1;
    if i < dst_vec.len() {
        chars_eq(src_vec[i].as_slice(), dst_vec[i].as_slice())
    } else {
        false
    }
}

/// Is `c` a line feed or a carriage return?
pub fn is_nl_char(c: char) -> (b: bool)
    ensures
        b == is_nl(c),
{
    c == NEW_LINE_LF || c == NEW_LINE_CR
}

/// Is `c` a line feed or a carriage return?
pub fn is_newline_char(c: char) -> (b: bool)
    ensures
        b == is_nl(c),
{
    c == NEW_LINE_LF || c == NEW_LINE_CR
}

/// Does `s` hold a line feed or a carriage return?
pub fn is_contain_row_end_str(s: &str) -> (b: bool)
    ensures
        b == (exists|i: int| 0 <= i < s@.len() && is_nl(#[trigger] s@[i])),
{
    let chars = str_to_chars(s);
    let mut i: usize = 0;
    while i < chars.len()
        invariant
            chars@ == s@,
            i <= s@.len(),
            forall|j: int| 0 <= j < i ==> !is_nl(#[trigger] s@[j]),
        decreases s@.len() - i,
    {
        if is_nl_char(chars[i]) {
            assert(is_nl(s@[i as int]));
            return true;
        }
        i = i + 1;
    }
    false
}

/// Is syntax highlighting on for files with the extension `ext`: it is not empty and not in
/// the configured list of extensions without highlighting?
pub fn is_enable_syntax_highlight(cfg: &Cfg, ext: &str) -> (b: bool)
    ensures
        b == !(ext@.len() == 0 || exists|i: int|
            0 <= i < cfg.general.colors.theme.disable_highlight_ext@.len()
                && #[trigger] cfg.general.colors.theme.disable_highlight_ext@[i]@ == ext@),
{
    if ext.is_empty() {
        return false;
    }
    let list = &cfg.general.colors.theme.disable_highlight_ext;
    let mut i: usize = 0;
    while i < list.len()
        invariant
            list@ == cfg.general.colors.theme.disable_highlight_ext@,
            i <= list@.len(),
            forall|j: int| 0 <= j < i ==> #[trigger] list@[j]@ != ext@,
        decreases list@.len() - i,
    {
        if str_eq(list[i].as_str(), ext) {
            assert(cfg.general.colors.theme.disable_highlight_ext@[i as int]@ == ext@);
            return false;
        }
        i = i + 1;
    }
    true
}

/// The text a tab key inserts.
pub fn get_tab_str(cfg: &Cfg) -> (s: String)
    ensures
        s@ == cfg.general.editor.tab.tab@,
{
    cfg.general.editor.tab.tab.clone()
}

/// The terminal size to lay out for, from the size the terminal reports (columns, rows): the
/// minimum size where none is known, or where it reports 1×1, which only a test harness does.
pub fn term_size_from(size: Option<(u16, u16)>) -> (r: (usize, usize))
    ensures
        r == (match size {
            Some((c, w)) => if c == 1 && w == 1 {
                (TERM_MINIMUM_WIDTH, TERM_MINIMUM_HEIGHT)
            } else {
                (c as usize, w as usize)
            },
            None => (TERM_MINIMUM_WIDTH, TERM_MINIMUM_HEIGHT),
        }),
{
    match size {
        Some((c, w)) => if c == 1 && w == 1 {
            (TERM_MINIMUM_WIDTH, TERM_MINIMUM_HEIGHT)
        } else {
            (c as usize, w as usize)
        },
        None => (TERM_MINIMUM_WIDTH, TERM_MINIMUM_HEIGHT),
    }
}

/// `c` in lower case where it is an ASCII upper-case letter.
pub open spec fn ascii_lower(c: char) -> char {
    if 'A' <= c && c <= 'Z' { ((c as u32) + 32) as char } else { c }
}

/// `char::to_ascii_lowercase`, whose documentation maps `A`–`Z` to `a`–`z` and leaves every
/// other character unchanged.
pub fn to_ascii_lower(c: char) -> (l: char)
    ensures
        l == ascii_lower(c),
{
    if 'A' <= c && c <= 'Z' {
        let n: u8 = (c as u8) + 32;
        n as char
    } else {
        c
    }
}

/// Does the ASCII-lower-cased `s` contain `pat` at index `i`?
pub open spec fn lower_occurs_at(s: Seq<char>, pat: Seq<char>, i: int) -> bool {
    0 <= i && i + pat.len() <= s.len() && forall|k: int| 0 <= k < pat.len() ==> #[trigger] ascii_lower(s[i + k]) == pat[k]
}

/// The platform, from the kernel release that `uname -r` reports: WSL where it mentions
/// Microsoft (in any case), Linux otherwise.
pub fn get_env_platform(kernel_release: &str) -> (e: Env)
    ensures
        e == (if exists|i: int| lower_occurs_at(kernel_release@, "microsoft"@, i) { Env::WSL } else { Env::Linux }),
{
    proof {
        reveal_strlit("microsoft");
    }
    let s = str_to_chars(kernel_release);
    let pat = str_to_chars("microsoft");
    let n = s.len();
    let m = pat.len();
    if n < m {
        assert forall|i: int| !lower_occurs_at(kernel_release@, "microsoft"@, i) by {}
        return Env::Linux;
    }
    let mut i: usize = 0;
    while i <= n - m
        invariant
            s@ == kernel_release@,
            pat@ == "microsoft"@,
            n == s@.len(),
            m == pat@.len(),
            m <= n,
            i <= n - m + 1,
            forall|j: int| 0 <= j < i ==> !lower_occurs_at(kernel_release@, "microsoft"@, j),
        decreases n - m + 1 - i,
    {
        let mut k: usize = 0;
        let mut ok = true;
        while k < m && ok
            invariant
                s@ == kernel_release@,
                pat@ == "microsoft"@,
                n == s@.len(),
                m == pat@.len(),
                i + m <= n,
                k <= m,
                ok ==> forall|q: int| 0 <= q < k ==> ascii_lower(s@[i + q]) == pat@[q],
                !ok ==> !lower_occurs_at(kernel_release@, "microsoft"@, i as int),
            decreases m - k + (if ok { 1int } else { 0int }),
        {
            let lc = to_ascii_lower(s[i + k]);
            if lc != pat[k] {
                ok = false;
                proof {
                    let ii = i as int;
                    let kk = k as int;
                    if lower_occurs_at(kernel_release@, "microsoft"@, ii) {
                        assert(ascii_lower(s@[ii + kk]) == pat@[kk]);
                    }
                }
            } else {
                k = k + 1;
            }
        }
        if ok {
            assert(lower_occurs_at(kernel_release@, "microsoft"@, i as int));
            return Env::WSL;
        }
        i = i + 1;
    }
    assert forall|j: int| !lower_occurs_at(kernel_release@, "microsoft"@, j) by {
        if 0 <= j && j + m <= n {
            assert(j < i);
        }
    }
    Env::Linux
}

/// The decimal digits of `n`, without leading zeros.
pub open spec fn dec_nat(n: nat) -> Seq<char>
    decreases n,
{
    if n < 10 { seq![digit_char(n)] } else { dec_nat(n / 10).push(digit_char(n % 10)) }
}

/// A number below 1000 with three digits, padded with zeros on the left.
pub open spec fn pad3(n: nat) -> Seq<char> {
    if n < 10 { seq!['0', '0'] + dec_nat(n) } else if n < 100 { seq!['0'] + dec_nat(n) } else { dec_nat(n) }
}

/// The digit character of `d < 10`.
fn digit(d: u64) -> (c: char)
    requires
        d < 10,
    ensures
        c == digit_char(d as nat),
{
    if d == 0 { '0' } else if d == 1 { '1' } else if d == 2 { '2' } else if d == 3 { '3' } else if d == 4 { '4' }
    else if d == 5 { '5' } else if d == 6 { '6' } else if d == 7 { '7' } else if d == 8 { '8' } else { '9' }
}

/// Append the decimal digits of `n`.
fn push_dec(out: &mut String, n: u64)
    ensures
        final(out)@ == old(out)@ + dec_nat(n as nat),
    decreases n,
{
    if n >= 10 {
        push_dec(out, n / 10);
    }
    out.push(digit(n % 10));
    proof {
        if n >= 10 {
            assert(old(out)@ + dec_nat((n / 10) as nat) + seq![digit_char((n % 10) as nat)] =~= old(out)@ + dec_nat(
                n as nat,
            ));
        } else {
            assert(old(out)@ + seq![digit_char(n as nat)] =~= old(out)@ + dec_nat(n as nat));
        }
    }
}

/// A time as seconds since the Unix epoch with milliseconds, `secs.mmm`.
pub fn unixtime_str(secs: u64, millis: u32) -> (s: String)
    requires
        millis < 1000,
    ensures
        s@ == dec_nat(secs as nat) + seq!['.'] + pad3(millis as nat),
{
    let mut s = String::new();
    push_dec(&mut s, secs);
    s.push('.');
    if millis < 10 {
        s.push('0');
        s.push('0');
    } else if millis < 100 {
        s.push('0');
    }
    let ghost before = s@;
    push_dec(&mut s, millis as u64);
    proof {
        let d = dec_nat(secs as nat);
        let m = dec_nat(millis as nat);
        if millis < 10 {
            assert(s@ =~= d + seq!['.'] + (seq!['0', '0'] + m));
        } else if millis < 100 {
            assert(s@ =~= d + seq!['.'] + (seq!['0'] + m));
        } else {
            assert(s@ =~= d + seq!['.'] + m);
        }
    }
    s
}

/// Without carriage returns there is no CRLF to turn into LF.
proof fn lemma_no_cr_no_crlf(s: Seq<char>)
    requires
        !s.contains(NEW_LINE_CR),
    ensures
        replace_spec(s, crlf(), seq![NEW_LINE_LF]) == s,
    decreases s.len(),
{
    if s.len() >= 2 {
        assert(s.take(2) != crlf()) by {
            assert(s.contains(s[0]));
            assert(s.take(2)[0] == s[0]);
        }
        let rest = s.skip(1);
        assert forall|c: char| rest.contains(c) implies s.contains(c) by {
            let j = choose|j: int| 0 <= j < rest.len() && rest[j] == c;
            assert(s[j + 1] == c);
        }
        lemma_no_cr_no_crlf(rest);
        assert(seq![s[0]] + rest =~= s);
    }
}

/// A text without carriage returns, changed to CRLF and then back to LF, is unchanged.
pub proof fn lemma_change_nl_crlf_then_lf(s: Seq<char>)
    requires
        !s.contains(NEW_LINE_CR),
    ensures
        nl_changed(nl_changed(s, NEW_LINE_CRLF_STR@), NEW_LINE_LF_STR@) == s,
{
    reveal_strlit("CRLF");
    reveal_strlit("LF");
    assert(NEW_LINE_LF_STR@.len() != NEW_LINE_CRLF_STR@.len());
    lemma_no_cr_no_crlf(s);
    lemma_change_nl_round_trip(s);
}

} // verus!
