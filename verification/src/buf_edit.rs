//! Lines of a buffer and the edits made to it: where each line starts, reading a character,
//! inserting text at a row and column, and removing a range of characters.
use crate::buf::{rope_text, TextBuffer};
use vstd::prelude::*;

verus! {

/// Does a line break end at index `i` of `s`? LF, VT, FF, NEL, LS and PS each end one; CR
/// ends one where no LF follows it (CR LF is one break, ending at the LF).
pub open spec fn is_break_end(s: Seq<char>, i: int) -> bool {
    &&& 0 <= i < s.len()
    &&& (s[i] == '\n' || s[i] == '\u{000B}' || s[i] == '\u{000C}' || s[i] == '\u{0085}'
        || s[i] == '\u{2028}' || s[i] == '\u{2029}' || (s[i] == '\r' && !(i + 1 < s.len() && s[i + 1] == '\n')))
}

/// Number of line breaks of `s` that end before index `k`.
pub open spec fn breaks_before(s: Seq<char>, k: int) -> nat
    decreases k,
{
    if k <= 0 {
        0
    } else {
        breaks_before(s, k - 1) + if is_break_end(s, k - 1) { 1nat } else { 0nat }
    }
}

/// Number of lines of `s`: one more than its line breaks.
pub open spec fn line_count(s: Seq<char>) -> nat {
    breaks_before(s, s.len() as int) + 1
}

/// Does line `y` of `s` start at index `k`? Line 0 starts at 0; every other line right after
/// the line break that ends it, the `y`-th.
pub open spec fn is_line_start(s: Seq<char>, y: nat, k: int) -> bool {
    if y == 0 {
        k == 0
    } else {
        0 < k <= s.len() && is_break_end(s, k - 1) && breaks_before(s, k) == y
    }
}

/// The index at which line `y` of `s` starts (for `y` below `line_count(s)`).
pub open spec fn line_start(s: Seq<char>, y: nat) -> int {
    choose|k: int| is_line_start(s, y, k)
}

/// More characters never count fewer breaks.
pub proof fn lemma_breaks_before_mono(s: Seq<char>, j: int, k: int)
    requires
        j <= k,
    ensures
        breaks_before(s, j) <= breaks_before(s, k),
    decreases k - j,
{
    if j < k {
        lemma_breaks_before_mono(s, j, k - 1);
    }
}

/// A line starts at one index only.
pub proof fn lemma_line_start_unique(s: Seq<char>, y: nat, k1: int, k2: int)
    requires
        is_line_start(s, y, k1),
        is_line_start(s, y, k2),
    ensures
        k1 == k2,
{
    if y > 0 {
        if k1 < k2 {
            lemma_breaks_before_mono(s, k1, k2 - 1);
        } else if k2 < k1 {
            lemma_breaks_before_mono(s, k2, k1 - 1);
        }
    }
}

/// A start found for line `y` is `line_start(s, y)`.
pub proof fn lemma_line_start_is(s: Seq<char>, y: nat, k: int)
    requires
        is_line_start(s, y, k),
    ensures
        line_start(s, y) == k,
{
    lemma_line_start_unique(s, y, k, line_start(s, y));
}

/// `Rope::len_chars`: the number of characters of the rope.
#[verifier::external_body]
fn rope_len_chars(r: &ropey::Rope) -> (n: usize)
    ensures
        n == rope_text(*r).len(),
{
    r.len_chars()
}

/// `Rope::char`: the character at `i` (it panics at or past the end).
#[verifier::external_body]
fn rope_char(r: &ropey::Rope, i: usize) -> (c: char)
    requires
        i < rope_text(*r).len(),
    ensures
        c == rope_text(*r)[i as int],
{
    r.char(i)
}

/// `Rope::line_to_char`: where line `y` starts. Ropey's crate documentation (with its default
/// features, which recognize the breaks `is_break_end` lists) starts lines at the start of
/// the text and right after each line break; `y` one past the last line gives the length of
/// the text, and any larger `y` panics.
#[verifier::external_body]
fn rope_line_to_char(r: &ropey::Rope, y: usize) -> (k: usize)
    requires
        y <= line_count(rope_text(*r)),
    ensures
        k <= rope_text(*r).len(),
        y < line_count(rope_text(*r)) ==> is_line_start(rope_text(*r), y as nat, k as int),
        y == line_count(rope_text(*r)) ==> k == rope_text(*r).len(),
{
    r.line_to_char(y)
}

/// `Rope::len_lines`: one more than the line breaks of the text.
#[verifier::external_body]
fn rope_len_lines(r: &ropey::Rope) -> (n: usize)
    ensures
        n == line_count(rope_text(*r)),
{
    r.len_lines()
}

/// `Rope::char_to_line`: the line index `i` lies on, which Ropey's documentation makes the
/// number of line endings before it (it panics past the end). Between the CR and the LF of a
/// pair the count of what comes before may take the CR for an ending, so that index is left
/// out.
#[verifier::external_body]
fn rope_char_to_line(r: &ropey::Rope, i: usize) -> (y: usize)
    requires
        i <= rope_text(*r).len(),
        !(0 < i < rope_text(*r).len() && rope_text(*r)[i - 1] == '\r' && rope_text(*r)[i as int] == '\n'),
    ensures
        y == breaks_before(rope_text(*r), i as int),
{
    r.char_to_line(i)
}

/// `Rope::insert`: `t` goes in before the character at `i` (it panics past the end).
#[verifier::external_body]
fn rope_insert(r: &mut ropey::Rope, i: usize, t: &str)
    requires
        i <= rope_text(*old(r)).len(),
    ensures
        rope_text(*final(r)) == rope_text(*old(r)).take(i as int) + t@ + rope_text(*old(r)).skip(i as int),
{
    r.insert(i, t)
}

/// `Rope::remove` of the range `s..e`: those characters leave (it panics where `s > e` or
/// `e` is past the end).
#[verifier::external_body]
fn rope_remove(r: &mut ropey::Rope, s: usize, e: usize)
    requires
        s <= e <= rope_text(*old(r)).len(),
    ensures
        rope_text(*final(r)) == rope_text(*old(r)).take(s as int) + rope_text(*old(r)).skip(e as int),
{
    r.remove(s..e)
}

impl TextBuffer {
    /// Number of characters of the text.
    pub fn len_chars(&self) -> (n: usize)
        ensures
            n == rope_text(self.text).len(),
    {
        rope_len_chars(&self.text)
    }

    /// Number of rows of the text.
    pub fn len_rows(&self) -> (n: usize)
        ensures
            n == line_count(rope_text(self.text)),
    {
        rope_len_lines(&self.text)
    }

    /// The row index `i` lies on.
    pub fn char_to_row(&self, i: usize) -> (y: usize)
        requires
            i <= rope_text(self.text).len(),
            !(0 < i < rope_text(self.text).len() && rope_text(self.text)[i - 1] == '\r' && rope_text(self.text)[i as int] == '\n'),
        ensures
            y == breaks_before(rope_text(self.text), i as int),
    {
        rope_char_to_line(&self.text, i)
    }

    /// The character at index `i` of the text.
    pub fn char_idx(&self, i: usize) -> (c: char)
        requires
            i < rope_text(self.text).len(),
        ensures
            c == rope_text(self.text)[i as int],
    {
        rope_char(&self.text, i)
    }

    /// The index at which row `y` starts.
    pub fn line_to_char(&self, y: usize) -> (k: usize)
        requires
            y < line_count(rope_text(self.text)),
        ensures
            k == line_start(rope_text(self.text), y as nat),
            is_line_start(rope_text(self.text), y as nat, k as int),
            k <= rope_text(self.text).len(),
    {
        let k = rope_line_to_char(&self.text, y);
        proof {
            lemma_line_start_is(rope_text(self.text), y as nat, k as int);
        }
        k
    }

    /// Insert `s` on row `y` before its `x`-th character.
    pub fn insert(&mut self, y: usize, x: usize, s: &str)
        requires
            y < line_count(rope_text(old(self).text)),
            line_start(rope_text(old(self).text), y as nat) + x <= rope_text(old(self).text).len(),
        ensures
            rope_text(final(self).text) == rope_text(old(self).text).take(line_start(rope_text(old(self).text), y as nat) + x)
                + s@ + rope_text(old(self).text).skip(line_start(rope_text(old(self).text), y as nat) + x),
    {
        let k = self.line_to_char(y);
        let n = self.len_chars();
        assert(k + x <= n);
        rope_insert(&mut self.text, k + x, s);
    }

    /// Insert `s` before the character at index `i`.
    pub fn text_insert_at(&mut self, i: usize, s: &str)
        requires
            i <= rope_text(old(self).text).len(),
        ensures
            rope_text(final(self).text) == rope_text(old(self).text).take(i as int) + s@ + rope_text(old(self).text).skip(i as int),
    {
        rope_insert(&mut self.text, i, s);
    }

    /// Remove the characters from index `s` up to `e`.
    pub fn remove(&mut self, s: usize, e: usize)
        requires
            s <= e <= rope_text(old(self).text).len(),
        ensures
            rope_text(final(self).text) == rope_text(old(self).text).take(s as int) + rope_text(old(self).text).skip(e as int),
    {
        rope_remove(&mut self.text, s, e);
    }
}

/// Removing what was just inserted gives the text back.
pub proof fn lemma_insert_then_remove(s: Seq<char>, i: int, t: Seq<char>)
    requires
        0 <= i <= s.len(),
    ensures
        ({
            let ins = s.take(i) + t + s.skip(i);
            ins.take(i) + ins.skip(i + t.len()) == s
        }),
{
    let ins = s.take(i) + t + s.skip(i);
    assert(ins.take(i) =~= s.take(i));
    assert(ins.skip(i + t.len()) =~= s.skip(i));
    assert(s.take(i) + s.skip(i) =~= s);
}

/// Putting back what was just removed gives the text back.
pub proof fn lemma_remove_then_insert(s: Seq<char>, i: int, j: int)
    requires
        0 <= i <= j <= s.len(),
    ensures
        ({
            let rem = s.take(i) + s.skip(j);
            rem.take(i) + s.subrange(i, j) + rem.skip(i) == s
        }),
{
    let rem = s.take(i) + s.skip(j);
    assert(rem.take(i) =~= s.take(i));
    assert(rem.skip(i) =~= s.skip(j));
    assert(s.take(i) + s.subrange(i, j) + s.skip(j) =~= s);
}

} // verus!
