//! Indenting XML and HTML text: the text is cut before every tag, and each piece is placed on
//! a line of its own at the depth of the element it belongs to.
use crate::cfg::Cfg;
use crate::model::FileType;
use crate::text::{chars_eq, chars_to_string, str_to_chars};
use crate::util::{occurs_at, replace_all, replace_spec};
use vstd::prelude::*;

verus! {

/// The indenting formatter.
pub struct FormatXml {}

/// Unicode's White_Space property, which `char::is_whitespace`, `str::trim` and the `\s` of
/// regular expressions all go by.
pub open spec fn is_white_space(c: char) -> bool {
    let n = c as u32;
    (0x9 <= n && n <= 0xd) || n == 0x20 || n == 0x85 || n == 0xa0 || n == 0x1680 || (0x2000 <= n && n <= 0x200a)
        || n == 0x2028 || n == 0x2029 || n == 0x202f || n == 0x205f || n == 0x3000
}

/// Does `c` have Unicode's White_Space property?
pub fn white_space(c: char) -> (b: bool)
    ensures
        b == is_white_space(c),
{
    let n = c as u32;
    (0x9 <= n && n <= 0xd) || n == 0x20 || n == 0x85 || n == 0xa0 || n == 0x1680 || (0x2000 <= n && n <= 0x200a)
        || n == 0x2028 || n == 0x2029 || n == 0x202f || n == 0x205f || n == 0x3000
}

/// What `char::is_alphanumeric` gives: the Alphabetic or Numeric property of Unicode.
pub uninterp spec fn char_alphanumeric(c: char) -> bool;

/// Calls `char::is_alphanumeric`. Its documentation makes the result the Alphabetic or Numeric
/// property, which for ASCII holds exactly of the letters and digits; the contract states the
/// ASCII part and names the rest.
#[verifier::external_body]
fn alphanumeric(c: char) -> (b: bool)
    ensures
        b == char_alphanumeric(c),
        (c as u32) < 128 ==> (b <==> (('0' <= c && c <= '9') || ('a' <= c && c <= 'z') || ('A' <= c && c <= 'Z'))),
{
    c.is_alphanumeric()
}

/// A word character of the tag patterns: a letter, a digit or `_`. Beyond ASCII, letters and
/// digits are those `char::is_alphanumeric` accepts; combining marks and connector
/// punctuation other than `_` do not count.
pub open spec fn is_word(c: char) -> bool {
    c == '_' || char_alphanumeric(c)
}

/// A word character.
fn word(c: char) -> (b: bool)
    ensures
        b == is_word(c),
{
    c == '_' || alphanumeric(c)
}

/// A character that may stand in a tag name: a word character, `:`, `-`, `.` or `,`.
pub open spec fn is_tag_char(c: char) -> bool {
    is_word(c) || c == ':' || c == '-' || c == '.' || c == ','
}

/// The end of the run of white space that starts at `i`.
pub open spec fn ws_end(s: Seq<char>, i: int) -> int
    decreases s.len() - i,
{
    if 0 <= i < s.len() && is_white_space(s[i]) { ws_end(s, i + 1) } else { i }
}

/// The end of the run of word characters that starts at `i`.
pub open spec fn word_end(s: Seq<char>, i: int) -> int
    decreases s.len() - i,
{
    if 0 <= i < s.len() && is_word(s[i]) { word_end(s, i + 1) } else { i }
}

/// The end of the run of tag-name characters that starts at `i`.
pub open spec fn tag_end(s: Seq<char>, i: int) -> int
    decreases s.len() - i,
{
    if 0 <= i < s.len() && is_tag_char(s[i]) { tag_end(s, i + 1) } else { i }
}

/// The start of the run of white space that ends at `j`, going no further back than `lo`.
pub open spec fn ws_start(s: Seq<char>, lo: int, j: int) -> int
    decreases j - lo,
{
    if lo < j && j <= s.len() && is_white_space(s[j - 1]) { ws_start(s, lo, j - 1) } else { j }
}

/// `s` without white space at either end.
pub open spec fn trim(s: Seq<char>) -> Seq<char> {
    let a = ws_end(s, 0);
    s.subrange(a, ws_start(s, a, s.len() as int))
}

/// The first index at or after `i` where `pat` occurs in `s`.
pub open spec fn find_from(s: Seq<char>, pat: Seq<char>, i: int) -> Option<int>
    decreases s.len() + 1 - i,
{
    if i < 0 || i + pat.len() > s.len() {
        None
    } else if occurs_at(s, pat, i) {
        Some(i)
    } else {
        find_from(s, pat, i + 1)
    }
}

/// Does `pat` occur in `s`?
pub open spec fn contains_sub(s: Seq<char>, pat: Seq<char>) -> bool {
    find_from(s, pat, 0) is Some
}

/// The end of the run of white space that starts at `i`.
fn ws_end_at(s: &[char], i: usize) -> (r: usize)
    requires
        i <= s@.len(),
    ensures
        r == ws_end(s@, i as int),
        i <= r <= s@.len(),
{
    let mut j = i;
    while j < s.len() && white_space(s[j])
        invariant
            i <= j <= s@.len(),
            ws_end(s@, i as int) == ws_end(s@, j as int),
        decreases s@.len() - j,
    {
        j = j + 1;
    }
    j
}

/// The end of the run of word characters that starts at `i`.
fn word_end_at(s: &[char], i: usize) -> (r: usize)
    requires
        i <= s@.len(),
    ensures
        r == word_end(s@, i as int),
        i <= r <= s@.len(),
{
    let mut j = i;
    while j < s.len() && word(s[j])
        invariant
            i <= j <= s@.len(),
            word_end(s@, i as int) == word_end(s@, j as int),
        decreases s@.len() - j,
    {
        j = j + 1;
    }
    j
}

/// The end of the run of tag-name characters that starts at `i`.
fn tag_end_at(s: &[char], i: usize) -> (r: usize)
    requires
        i <= s@.len(),
    ensures
        r == tag_end(s@, i as int),
        i <= r <= s@.len(),
{
    let mut j = i;
    while j < s.len() && (word(s[j]) || s[j] == ':' || s[j] == '-' || s[j] == '.' || s[j] == ',')
        invariant
            i <= j <= s@.len(),
            tag_end(s@, i as int) == tag_end(s@, j as int),
        decreases s@.len() - j,
    {
        j = j + 1;
    }
    j
}

/// The characters of `s` from `a` to `b`.
fn slice_of(s: &[char], a: usize, b: usize) -> (r: Vec<char>)
    requires
        a <= b <= s@.len(),
    ensures
        r@ == s@.subrange(a as int, b as int),
{
    let mut r: Vec<char> = Vec::new();
    let mut i = a;
    while i < b
        invariant
            a <= i <= b <= s@.len(),
            r@ == s@.subrange(a as int, i as int),
        decreases b - i,
    {
        r.push(s[i]);
        i = i + 1;
        proof {
            assert(s@.subrange(a as int, i as int) =~= s@.subrange(a as int, i - 1).push(s@[i - 1]));
        }
    }
    r
}

/// `s` without white space at either end.
fn trim_chars(s: &[char]) -> (r: Vec<char>)
    ensures
        r@ == trim(s@),
{
    let a = ws_end_at(s, 0);
    let mut b = s.len();
    while a < b && white_space(s[b - 1])
        invariant
            a <= b <= s@.len(),
            a == ws_end(s@, 0),
            ws_start(s@, a as int, s@.len() as int) == ws_start(s@, a as int, b as int),
        decreases b - a,
    {
        b = b - 1;
    }
    slice_of(s, a, b)
}

/// Does `pat` occur in `s` at `i`?
fn occurs(s: &[char], pat: &[char], i: usize) -> (b: bool)
    ensures
        b == occurs_at(s@, pat@, i as int),
{
    let n = s.len();
    if i > n || n - i < pat.len() {
        return false;
    }
    let mut k: usize = 0;
    while k < pat.len()
        invariant
            n == s@.len(),
            i + pat@.len() <= s@.len(),
            k <= pat@.len(),
            forall|q: int| 0 <= q < k ==> s@[i + q] == pat@[q],
        decreases pat@.len() - k,
    {
        if s[i + k] != pat[k] {
            proof {
                assert(s@.subrange(i as int, i + pat@.len())[k as int] != pat@[k as int]);
            }
            return false;
        }
        k = k + 1;
    }
    assert(s@.subrange(i as int, i + pat@.len()) =~= pat@);
    true
}

/// The first index at or after `i` where `pat` occurs in `s`.
fn find_at(s: &[char], pat: &[char], i: usize) -> (r: Option<usize>)
    ensures
        r matches Some(j) ==> find_from(s@, pat@, i as int) == Some(j as int),
        r is None ==> find_from(s@, pat@, i as int) is None,
{
    let mut j = i;
    let n = s.len();
    while j <= n && n - j >= pat.len()
        invariant
            n == s@.len(),
            i <= j,
            find_from(s@, pat@, i as int) == find_from(s@, pat@, j as int),
        decreases s@.len() + 1 - j,
    {
        if occurs(s, pat, j) {
            return Some(j);
        }
        assert(pat@.len() > 0) by {
            if pat@.len() == 0 {
                assert(s@.subrange(j as int, j as int) =~= pat@);
            }
        }
        j = j + 1;
    }
    None
}

/// Does `pat` occur in `s`?
pub fn has_sub(s: &[char], pat: &[char]) -> (b: bool)
    ensures
        b == contains_sub(s@, pat@),
{
    find_at(s, pat, 0).is_some()
}

/// Does `pat`, a literal, occur in `s`?
fn has_str(s: &[char], pat: &str) -> (b: bool)
    ensures
        b == contains_sub(s@, pat@),
{
    let p = str_to_chars(pat);
    has_sub(s, p.as_slice())
}

/// Where `find_from` finds `pat`, it occurs, no earlier than where the search started.
pub proof fn lemma_find_from_bounds(s: Seq<char>, pat: Seq<char>, i: int)
    ensures
        find_from(s, pat, i) matches Some(j) ==> i <= j && j + pat.len() <= s.len() && occurs_at(s, pat, j),
    decreases s.len() + 1 - i,
{
    if !(i < 0 || i + pat.len() > s.len()) && !occurs_at(s, pat, i) {
        lemma_find_from_bounds(s, pat, i + 1);
    }
}

/// A run of white space ends no earlier than it starts and within the text.
pub proof fn lemma_ws_end_bounds(s: Seq<char>, i: int)
    requires
        0 <= i <= s.len(),
    ensures
        i <= ws_end(s, i) <= s.len(),
    decreases s.len() - i,
{
    if i < s.len() && is_white_space(s[i]) {
        lemma_ws_end_bounds(s, i + 1);
    }
}

/// The text with every comment `<!-- ... -->` removed, from index `i` on; an opening `<!--`
/// without a closing `-->` after it stays.
pub open spec fn strip_comments_from(s: Seq<char>, i: int) -> Seq<char>
    decreases s.len() - i,
{
    if i < 0 || i >= s.len() {
        Seq::empty()
    } else if occurs_at(s, "<!--"@, i) && find_from(s, "-->"@, i + 4) is Some {
        let j = find_from(s, "-->"@, i + 4).unwrap();
        proof {
            lemma_find_from_bounds(s, "-->"@, i + 4);
            reveal_strlit("-->");
        }
        strip_comments_from(s, j + 3)
    } else {
        seq![s[i]] + strip_comments_from(s, i + 1)
    }
}

/// The text with a mark `~::~` before every `pat` (and the white space in front of it dropped),
/// from index `i` on.
pub open spec fn mark_before_ws_from(s: Seq<char>, pat: Seq<char>, i: int) -> Seq<char>
    decreases s.len() - i,
{
    if i < 0 || i >= s.len() {
        Seq::empty()
    } else if pat.len() > 0 && occurs_at(s, pat, ws_end(s, i)) {
        proof {
            lemma_ws_end_bounds(s, i);
        }
        "~::~"@ + pat + mark_before_ws_from(s, pat, ws_end(s, i) + pat.len())
    } else {
        seq![s[i]] + mark_before_ws_from(s, pat, i + 1)
    }
}

/// The text with a mark `~::~` before every `function` followed by white space (which becomes
/// a blank), from index `i` on.
pub open spec fn mark_function_from(s: Seq<char>, i: int) -> Seq<char>
    decreases s.len() - i,
{
    if i < 0 || i >= s.len() {
        Seq::empty()
    } else if occurs_at(s, "function"@, i) && i + "function"@.len() < s.len() && is_white_space(
        s[i + "function"@.len()],
    ) {
        "~::~function "@ + mark_function_from(s, i + "function"@.len() + 1)
    } else {
        seq![s[i]] + mark_function_from(s, i + 1)
    }
}

/// The pieces of `s` from index `i` on between the occurrences of `sep`, as `str::split` gives
/// them.
pub open spec fn pieces_from(s: Seq<char>, sep: Seq<char>, i: int) -> Seq<Seq<char>>
    decreases s.len() + 1 - i,
{
    if i < 0 || i > s.len() || sep.len() == 0 {
        Seq::empty()
    } else {
        match find_from(s, sep, i) {
            Some(j) => {
                proof {
                    lemma_find_from_bounds(s, sep, i);
                }
                seq![s.subrange(i, j)] + pieces_from(s, sep, j + sep.len())
            },
            None => seq![s.subrange(i, s.len() as int)],
        }
    }
}

/// The text with its comments removed.
fn strip_comments(s: &[char]) -> (r: Vec<char>)
    ensures
        r@ == strip_comments_from(s@, 0),
{
    let open = str_to_chars("<!--");
    let close = str_to_chars("-->");
    let mut r: Vec<char> = Vec::new();
    let mut i: usize = 0;
    proof {
        assert(r@ + strip_comments_from(s@, 0) =~= strip_comments_from(s@, 0));
    }
    while i < s.len()
        invariant
            open@ == "<!--"@,
            close@ == "-->"@,
            i <= s@.len(),
            r@ + strip_comments_from(s@, i as int) == strip_comments_from(s@, 0),
        decreases s@.len() - i,
    {
        let mut skipped = false;
        if occurs(s, open.as_slice(), i) {
            proof {
                assert(i + 4 <= s@.len()) by {
                    assert(open@.len() == 4) by {
                        reveal_strlit("<!--");
                    }
                }
            }
            match find_at(s, close.as_slice(), i + 4) {
                Some(j) => {
                    proof {
                        lemma_find_from_bounds(s@, close@, i + 4);
                        assert(close@.len() == 3) by {
                            reveal_strlit("-->");
                        }
                    }
                    i = j + 3;
                    skipped = true;
                },
                None => {},
            }
        }
        if !skipped {
            let ghost r0 = r@;
            r.push(s[i]);
            proof {
                assert(r0.push(s@[i as int]) + strip_comments_from(s@, i + 1) =~= r0 + (seq![s@[i as int]]
                    + strip_comments_from(s@, i + 1)));
            }
            i = i + 1;
        }
    }
    proof {
        assert(r@ + Seq::<char>::empty() =~= r@);
    }
    r
}

/// Append the characters of `t`.
fn push_all(r: &mut Vec<char>, t: &[char])
    ensures
        final(r)@ == old(r)@ + t@,
{
    let mut i: usize = 0;
    while i < t.len()
        invariant
            i <= t@.len(),
            r@ == old(r)@ + t@.take(i as int),
        decreases t@.len() - i,
    {
        r.push(t[i]);
        i = i + 1;
        proof {
            assert(t@.take(i as int) =~= t@.take(i - 1).push(t@[i - 1]));
        }
    }
    proof {
        assert(t@.take(t@.len() as int) =~= t@);
    }
}

/// The text with the mark `~::~` before every `pat` and the white space in front of it dropped.
fn mark_before_ws(s: &[char], pat: &[char]) -> (r: Vec<char>)
    ensures
        r@ == mark_before_ws_from(s@, pat@, 0),
{
    let mark = str_to_chars("~::~");
    let mut r: Vec<char> = Vec::new();
    let mut i: usize = 0;
    proof {
        assert(r@ + mark_before_ws_from(s@, pat@, 0) =~= mark_before_ws_from(s@, pat@, 0));
    }
    while i < s.len()
        invariant
            mark@ == "~::~"@,
            i <= s@.len(),
            r@ + mark_before_ws_from(s@, pat@, i as int) == mark_before_ws_from(s@, pat@, 0),
        decreases s@.len() - i,
    {
        let j = ws_end_at(s, i);
        if pat.len() > 0 && occurs(s, pat, j) {
            let ghost r0 = r@;
            push_all(&mut r, mark.as_slice());
            push_all(&mut r, pat);
            proof {
                assert(r0 + "~::~"@ + pat@ + mark_before_ws_from(s@, pat@, j + pat@.len()) =~= r0 + ("~::~"@ + pat@
                    + mark_before_ws_from(s@, pat@, j + pat@.len())));
            }
            i = j + pat.len();
        } else {
            let ghost r0 = r@;
            r.push(s[i]);
            proof {
                assert(r0.push(s@[i as int]) + mark_before_ws_from(s@, pat@, i + 1) =~= r0 + (seq![s@[i as int]]
                    + mark_before_ws_from(s@, pat@, i + 1)));
            }
            i = i + 1;
        }
    }
    proof {
        assert(r@ + Seq::<char>::empty() =~= r@);
    }
    r
}

/// The text with the mark `~::~` before every `function` followed by white space.
fn mark_function(s: &[char]) -> (r: Vec<char>)
    ensures
        r@ == mark_function_from(s@, 0),
{
    let func = str_to_chars("function");
    let marked = str_to_chars("~::~function ");
    let mut r: Vec<char> = Vec::new();
    let mut i: usize = 0;
    proof {
        assert(r@ + mark_function_from(s@, 0) =~= mark_function_from(s@, 0));
    }
    while i < s.len()
        invariant
            func@ == "function"@,
            marked@ == "~::~function "@,
            i <= s@.len(),
            r@ + mark_function_from(s@, i as int) == mark_function_from(s@, 0),
        decreases s@.len() - i,
    {
        if occurs(s, func.as_slice(), i) && s.len() - i > func.len() && white_space(s[i + func.len()]) {
            let ghost r0 = r@;
            push_all(&mut r, marked.as_slice());
            proof {
                assert(r0 + "~::~function "@ + mark_function_from(s@, i + func@.len() + 1) =~= r0 + ("~::~function "@
                    + mark_function_from(s@, i + func@.len() + 1)));
            }
            i = i + func.len() + 1;
        } else {
            let ghost r0 = r@;
            r.push(s[i]);
            proof {
                assert(r0.push(s@[i as int]) + mark_function_from(s@, i + 1) =~= r0 + (seq![s@[i as int]]
                    + mark_function_from(s@, i + 1)));
            }
            i = i + 1;
        }
    }
    proof {
        assert(r@ + Seq::<char>::empty() =~= r@);
    }
    r
}

/// The pieces of `s` between the occurrences of `sep` (not empty).
fn split_pieces(s: &[char], sep: &[char]) -> (r: Vec<Vec<char>>)
    requires
        sep@.len() > 0,
    ensures
        r@.len() == pieces_from(s@, sep@, 0).len(),
        forall|k: int| 0 <= k < r@.len() ==> #[trigger] r@[k]@ == pieces_from(s@, sep@, 0)[k],
{
    let mut r: Vec<Vec<char>> = Vec::new();
    let mut i: usize = 0;
    let n = s.len();
    loop
        invariant
            n == s@.len(),
            sep@.len() > 0,
            i <= s@.len(),
            r@.len() + pieces_from(s@, sep@, i as int).len() == pieces_from(s@, sep@, 0).len(),
            forall|k: int| 0 <= k < r@.len() ==> #[trigger] r@[k]@ == pieces_from(s@, sep@, 0)[k],
            forall|k: int|
                0 <= k < pieces_from(s@, sep@, i as int).len() ==> #[trigger] pieces_from(s@, sep@, i as int)[k]
                    == pieces_from(s@, sep@, 0)[r@.len() + k],
        decreases s@.len() + 1 - i,
    {
        proof {
            lemma_find_from_bounds(s@, sep@, i as int);
        }
        match find_at(s, sep, i) {
            Some(j) => {
                let piece = slice_of(s, i, j);
                proof {
                    let rest = pieces_from(s@, sep@, j + sep@.len());
                    assert(pieces_from(s@, sep@, i as int) == seq![s@.subrange(i as int, j as int)] + rest);
                    assert(pieces_from(s@, sep@, i as int)[0] == s@.subrange(i as int, j as int));
                    assert forall|k: int| 0 <= k < rest.len() implies #[trigger] rest[k] == pieces_from(s@, sep@, 0)[r@.len() + 1 + k] by {
                        assert(pieces_from(s@, sep@, i as int)[k + 1] == rest[k]);
                    }
                }
                r.push(piece);
                i = j + sep.len();
            },
            None => {
                let piece = slice_of(s, i, s.len());
                proof {
                    assert(pieces_from(s@, sep@, i as int)[0] == s@.subrange(i as int, s@.len() as int));
                }
                r.push(piece);
                return r;
            },
        }
    }
}

/// Does the piece start with an opening tag, `<` and a word character?
pub open spec fn starts_open_tag(q: Seq<char>) -> bool {
    q.len() >= 2 && q[0] == '<' && is_word(q[1])
}

/// Does the piece start with a closing tag, `</` and a word character?
pub open spec fn starts_close_tag(p: Seq<char>) -> bool {
    p.len() >= 3 && p[0] == '<' && p[1] == '/' && is_word(p[2])
}

/// Does the piece contain `<` followed by a word character?
pub open spec fn has_lt_word(p: Seq<char>) -> bool {
    exists|i: int| 0 <= i < p.len() - 1 && p[i] == '<' && #[trigger] is_word(p[i + 1])
}

/// Does the piece contain `function` followed by white space?
pub open spec fn has_function_ws(p: Seq<char>) -> bool {
    exists|i: int|
        #[trigger] occurs_at(p, "function"@, i) && i + "function"@.len() < p.len() && is_white_space(p[i + "function"@.len()])
}

/// The piece with the tag that starts it (from `<`, or `</` for a closing tag, to the first
/// `>` after it) put first and the rest trimmed after it, with every other copy of the tag
/// removed; in a comment the piece is left as it is. `false` where no such tag is found.
pub open spec fn remove_space(in_comment: bool, node: Seq<char>, is_close: bool) -> (Seq<char>, bool) {
    if in_comment {
        (node, true)
    } else {
        let open = if is_close { "</"@ } else { "<"@ };
        match find_from(node, open, 0) {
            Some(a) => match find_from(node, ">"@, a + open.len()) {
                Some(b) => {
                    let tag = node.subrange(a, b + 1);
                    (tag + trim(replace_spec(node, tag, Seq::empty())), true)
                },
                None => (Seq::empty(), false),
            },
            None => (Seq::empty(), false),
        }
    }
}

/// The first `<` at or after `i` that white space and then `/` follow.
pub open spec fn close_lt_from(s: Seq<char>, i: int) -> Option<int>
    decreases s.len() - i,
{
    if i < 0 || i >= s.len() {
        None
    } else if s[i] == '<' && ws_end(s, i + 1) < s.len() && s[ws_end(s, i + 1)] == '/' {
        Some(i)
    } else {
        close_lt_from(s, i + 1)
    }
}

/// The name of the element a piece opens: the word after its first `<` and white space.
pub open spec fn open_tag_name(node: Seq<char>) -> Seq<char> {
    let a = find_from(node, "<"@, 0).unwrap();
    let cap = node.subrange(a, ws_end(node, word_end(node, ws_end(node, a + 1))));
    trim(replace_spec(cap, "<"@, Seq::empty()))
}

/// The name of the element a piece closes: what follows its first `<` (white space) `/`, up to
/// the end of the word and the white space after it, without the `<` and `/`.
pub open spec fn close_tag_name(node: Seq<char>) -> Seq<char> {
    let a = close_lt_from(node, 0).unwrap();
    let k = ws_end(node, a + 1);
    let cap = node.subrange(a, ws_end(node, word_end(node, ws_end(node, k + 1))));
    replace_spec(replace_spec(cap, "<"@, Seq::empty()), "/"@, Seq::empty())
}

/// The element name for the end-tag search: the word after the first `<` and white space,
/// with that white space.
pub open spec fn end_tag_search_name(node: Seq<char>) -> Seq<char> {
    let a = find_from(node, "<"@, 0).unwrap();
    let cap = node.subrange(a, word_end(node, ws_end(node, a + 1)));
    replace_spec(replace_spec(cap, "<"@, Seq::empty()), "/"@, Seq::empty())
}

/// Is there an end tag `<` (white space) `/` (white space) `tag` at index `i` of `s`?
pub open spec fn end_tag_at(s: Seq<char>, tag: Seq<char>, i: int) -> bool {
    &&& 0 <= i < s.len()
    &&& s[i] == '<'
    &&& ws_end(s, i + 1) < s.len()
    &&& s[ws_end(s, i + 1)] == '/'
    &&& exists|m: int|
        ws_end(s, i + 1) + 1 <= m <= ws_end(s, ws_end(s, i + 1) + 1) && #[trigger] occurs_at(s, tag, m)
}

/// Does the text hold an end tag for the element the piece opens?
pub open spec fn is_exist_end_tag_spec(node: Seq<char>, text: Seq<char>) -> bool {
    exists|i: int| #[trigger] end_tag_at(text, end_tag_search_name(node), i)
}

/// The deepest indentation remembered for an element name.
pub open spec fn max_indent(tags: Seq<(Seq<char>, int)>, name: Seq<char>) -> Option<int>
    decreases tags.len(),
{
    if tags.len() == 0 {
        None
    } else {
        let rest = max_indent(tags.drop_last(), name);
        let last = tags.last();
        if last.0 == name {
            match rest {
                Some(d) => if d >= last.1 { Some(d) } else { Some(last.1) },
                None => Some(last.1),
            }
        } else {
            rest
        }
    }
}

/// The remembered opening tags with `x` removed.
pub open spec fn without_tag(tags: Seq<(Seq<char>, int)>, x: (Seq<char>, int)) -> Seq<(Seq<char>, int)>
    decreases tags.len(),
{
    if tags.len() == 0 {
        tags
    } else {
        let r = without_tag(tags.drop_last(), x);
        if tags.last() != x { r.push(tags.last()) } else { r }
    }
}

/// `unit` repeated `k` times.
pub open spec fn repeat(unit: Seq<char>, k: nat) -> Seq<char>
    decreases k,
{
    if k == 0 { Seq::empty() } else { repeat(unit, (k - 1) as nat) + unit }
}

/// The line start at depth `k`: the newline and `k` indentation steps.
pub open spec fn indent_at(nl: Seq<char>, unit: Seq<char>, k: int) -> Seq<char> {
    nl + repeat(unit, k as nat)
}

/// The remembered opening tags after the closing tag of element `name`: the one remembered at
/// the deepest indentation is forgotten (where there is none, the entry `("", usize::MAX)`,
/// which the formatter never makes, is removed).
pub open spec fn unmemorized(tags: Seq<(Seq<char>, int)>, name: Seq<char>) -> Seq<(Seq<char>, int)> {
    match max_indent(tags, name) {
        Some(d) => without_tag(tags, (name, d)),
        None => without_tag(tags, (Seq::empty(), usize::MAX as int)),
    }
}

/// The formatter's state: the text so far, the depth, whether a comment is open, the
/// remembered opening tags (name and depth), and whether nothing has gone wrong.
pub type FmtState = (Seq<char>, int, bool, Seq<(Seq<char>, int)>, bool);

/// One piece of the cut text `p`, after the piece `prev`: comments and CDATA are copied as they
/// are; an element closed right after it opened stays on its line; an opening tag starts a line
/// at the depth and goes one deeper where the text closes it; a closing tag goes back to the
/// depth its opening tag had; other tags and text start a line or follow, trimmed.
pub open spec fn fmt_step(st: FmtState, prev: Option<Seq<char>>, p: Seq<char>, is_html: bool, text_nc: Seq<char>, unit: Seq<char>, nl: Seq<char>) -> FmtState {
    let out = st.0;
    let deep = st.1;
    let inc = st.2;
    let tags = st.3;
    let ok = st.4;
    let ind_ok = 0 <= deep <= 100;
    let ind = indent_at(nl, unit, deep);
    if contains_sub(p, "<!"@) {
        let ends = contains_sub(p, "-->"@) || contains_sub(p, "]>"@) || contains_sub(p, "!DOCTYPE"@) || contains_sub(p, "!doctype"@);
        let node = if ends { trim(p) } else { p };
        (out + ind + node, deep, !ends, tags, ok && ind_ok)
    } else if contains_sub(p, "-->"@) || contains_sub(p, "]>"@) {
        (out + p, deep, false, tags, ok)
    } else if is_html && (contains_sub(p, "(function("@) || has_function_ws(p)) {
        (if !inc { out + ind + p } else { out + p }, deep, inc, tags, ok && (inc || ind_ok))
    } else if prev matches Some(q) && starts_open_tag(q) && starts_close_tag(p) && q.subrange(0, tag_end(q, 1))
        == replace_spec(p.subrange(0, tag_end(p, 2)), "/"@, Seq::empty()) {
        let rs = remove_space(inc, p, true);
        let node = trim(p);
        (
            out + rs.0,
            if !inc { if deep == 0 { 0 } else { deep - 1 } } else { deep },
            inc,
            unmemorized(tags, close_tag_name(node)),
            ok && rs.1 && close_lt_from(node, 0) is Some,
        )
    } else if has_lt_word(p) && !contains_sub(p, "</"@) && !contains_sub(p, "/>"@) {
        let rs = remove_space(inc, p, false);
        let node = trim(p);
        let name = open_tag_name(node);
        let deep2 = if !inc && is_exist_end_tag_spec(node, text_nc) { deep + 1 } else { deep };
        (
            if inc { out + rs.0 } else { out + ind + rs.0 },
            deep2,
            inc,
            if tags.contains((name, deep)) { tags } else { tags.push((name, deep)) },
            ok && rs.1 && (inc || ind_ok) && find_from(node, "<"@, 0) is Some,
        )
    } else if contains_sub(p, "</"@) {
        let node = trim(p);
        let name = close_tag_name(node);
        let found = max_indent(tags, name);
        let deep2 = match found {
            Some(d) => if !inc { if deep < d { deep - 1 } else { d } } else { deep },
            None => if !inc { if deep == 0 { 0 } else { deep - 1 } } else { deep },
        };
        (
            if inc { out + p } else { out + indent_at(nl, unit, deep2) + node },
            deep2,
            inc,
            unmemorized(tags, name),
            ok && close_lt_from(node, 0) is Some && (inc || 0 <= deep2 <= 100),
        )
    } else if contains_sub(p, "/>"@) {
        (if !inc { out + ind + p } else { out + p }, deep, inc, tags, ok && (inc || ind_ok))
    } else if contains_sub(p, "<?"@) || contains_sub(p, "xmlns:"@) || contains_sub(p, "xmlns="@) {
        (out + ind + trim(p), deep, inc, tags, ok && ind_ok)
    } else {
        (out + trim(p), deep, inc, tags, ok)
    }
}

/// The state after the first `n` pieces.
pub open spec fn fmt_fold(pieces: Seq<Seq<char>>, n: int, is_html: bool, text_nc: Seq<char>, unit: Seq<char>, nl: Seq<char>) -> FmtState
    decreases n,
{
    if n <= 0 {
        (Seq::empty(), 0, false, Seq::empty(), true)
    } else {
        fmt_step(
            fmt_fold(pieces, n - 1, is_html, text_nc, unit, nl),
            if n >= 2 { Some(pieces[n - 2]) } else { None },
            pieces[n - 1],
            is_html,
            text_nc,
            unit,
            nl,
        )
    }
}

/// `s` without the first occurrence of `nl`.
pub open spec fn without_first(s: Seq<char>, nl: Seq<char>) -> Seq<char> {
    if nl.len() == 0 {
        s
    } else {
        match find_from(s, nl, 0) {
            Some(j) => s.subrange(0, j) + s.subrange(j + nl.len(), s.len() as int),
            None => s,
        }
    }
}

/// The text cut before every tag, `xmlns` attribute and script function, at the marks `~::~`.
pub open spec fn xml_pieces(text: Seq<char>) -> Seq<Seq<char>> {
    let t1 = replace_spec(text, "<"@, "~::~<"@);
    let t2 = mark_before_ws_from(t1, "xmlns:"@, 0);
    let t3 = mark_before_ws_from(t2, "xmlns="@, 0);
    let t4 = replace_spec(t3, "(function("@, "~::~(function("@);
    let t5 = mark_function_from(t4, 0);
    pieces_from(t5, "~::~"@, 0)
}

/// The formatted text (without the newline it would start with) and whether formatting
/// succeeds: it fails where a tag has no closing `>`, where the depth would go below zero, or
/// where a line would be indented deeper than 100 steps.
pub open spec fn format_xml_spec(text: Seq<char>, is_html: bool, unit: Seq<char>, nl: Seq<char>) -> (Seq<char>, bool) {
    let pieces = xml_pieces(text);
    let st = fmt_fold(pieces, pieces.len() as int, is_html, strip_comments_from(text, 0), unit, nl);
    (without_first(st.0, nl), st.4)
}

/// The tag that starts a piece put first, the rest trimmed after it (see `remove_space`).
fn remove_space_between_tag_and_elm(in_comment: bool, node: &[char], is_close: bool) -> (r: Vec<char>)
    requires
        remove_space(in_comment, node@, is_close).1,
    ensures
        r@ == remove_space(in_comment, node@, is_close).0,
{
    let n = node.len();
    if in_comment {
        return slice_of(node, 0, n);
    }
    let open = if is_close { str_to_chars("</") } else { str_to_chars("<") };
    let gt = str_to_chars(">");
    let empty: Vec<char> = Vec::new();
    proof {
        lemma_find_from_bounds(node@, open@, 0);
    }
    match find_at(node, open.as_slice(), 0) {
        Some(a) => {
            proof {
                lemma_find_from_bounds(node@, gt@, a + open@.len());
            }
            match find_at(node, gt.as_slice(), a + open.len()) {
                Some(b) => {
                    proof {
                        assert(gt@.len() == 1) by {
                            reveal_strlit(">");
                        }
                    }
                    let tag = slice_of(node, a, b + 1);
                    let mut r = slice_of(tag.as_slice(), 0, tag.len());
                    if tag.len() > 0 {
                        let rest = replace_all(node, tag.as_slice(), empty.as_slice());
                        let t = trim_chars(rest.as_slice());
                        push_all(&mut r, t.as_slice());
                    } else {
                        proof {
                            assert(false);
                        }
                    }
                    proof {
                        assert(empty@ =~= Seq::<char>::empty());
                        assert(tag@ =~= node@.subrange(a as int, b + 1));
                    }
                    r
                },
                None => Vec::new(),
            }
        },
        None => Vec::new(),
    }
}

/// The first `<` at or after `i` that white space and then `/` follow.
fn close_lt_at(s: &[char], i: usize) -> (r: Option<usize>)
    ensures
        r matches Some(j) ==> close_lt_from(s@, i as int) == Some(j as int),
        r is None ==> close_lt_from(s@, i as int) is None,
{
    let mut j = i;
    while j < s.len()
        invariant
            i <= j,
            close_lt_from(s@, i as int) == close_lt_from(s@, j as int),
        decreases s@.len() - j,
    {
        if s[j] == '<' {
            let k = ws_end_at(s, j + 1);
            if k < s.len() && s[k] == '/' {
                return Some(j);
            }
        }
        j = j + 1;
    }
    None
}

/// The name of the element a piece closes (see `close_tag_name`).
fn close_tag_name_exec(node: &[char]) -> (r: Vec<char>)
    requires
        close_lt_from(node@, 0) is Some,
    ensures
        r@ == close_tag_name(node@),
{
    let n = node.len();
    let a = match close_lt_at(node, 0) {
        Some(a) => a,
        None => 0,
    };
    proof {
        lemma_close_lt_bounds(node@, 0);
    }
    let k = ws_end_at(node, a + 1);
    let k2 = ws_end_at(node, k + 1);
    let k3 = word_end_at(node, k2);
    let k4 = ws_end_at(node, k3);
    let cap = slice_of(node, a, k4);
    let lt = str_to_chars("<");
    let slash = str_to_chars("/");
    let empty: Vec<char> = Vec::new();
    proof {
        assert(empty@ =~= Seq::<char>::empty());
        assert(lt@.len() > 0 && slash@.len() > 0) by {
            reveal_strlit("<");
            reveal_strlit("/");
        }
    }
    let c1 = replace_all(cap.as_slice(), lt.as_slice(), empty.as_slice());
    replace_all(c1.as_slice(), slash.as_slice(), empty.as_slice())
}

/// Where `close_lt_from` finds a `<`, it is in the piece, with `/` after the white space.
pub proof fn lemma_close_lt_bounds(s: Seq<char>, i: int)
    ensures
        close_lt_from(s, i) matches Some(a) ==> i <= a < s.len() && s[a] == '<' && ws_end(s, a + 1) < s.len(),
    decreases s.len() - i,
{
    if !(i < 0 || i >= s.len()) && !(s[i] == '<' && ws_end(s, i + 1) < s.len() && s[ws_end(s, i + 1)] == '/') {
        lemma_close_lt_bounds(s, i + 1);
    }
}

/// The name of the element a piece opens (see `open_tag_name`).
fn open_tag_name_exec(node: &[char]) -> (r: Vec<char>)
    requires
        find_from(node@, "<"@, 0) is Some,
    ensures
        r@ == open_tag_name(node@),
{
    let lt = str_to_chars("<");
    let empty: Vec<char> = Vec::new();
    proof {
        lemma_find_from_bounds(node@, "<"@, 0);
        assert(empty@ =~= Seq::<char>::empty());
        assert(lt@.len() == 1) by {
            reveal_strlit("<");
        }
    }
    let n = node.len();
    let a = match find_at(node, lt.as_slice(), 0) {
        Some(a) => a,
        None => 0,
    };
    let j1 = ws_end_at(node, a + 1);
    let j2 = word_end_at(node, j1);
    let j3 = ws_end_at(node, j2);
    let cap = slice_of(node, a, j3);
    let c1 = replace_all(cap.as_slice(), lt.as_slice(), empty.as_slice());
    trim_chars(c1.as_slice())
}

/// The element name for the end-tag search (see `end_tag_search_name`).
fn end_tag_search_name_exec(node: &[char]) -> (r: Vec<char>)
    requires
        find_from(node@, "<"@, 0) is Some,
    ensures
        r@ == end_tag_search_name(node@),
{
    let lt = str_to_chars("<");
    let slash = str_to_chars("/");
    let empty: Vec<char> = Vec::new();
    proof {
        lemma_find_from_bounds(node@, "<"@, 0);
        assert(empty@ =~= Seq::<char>::empty());
        assert(lt@.len() == 1 && slash@.len() == 1) by {
            reveal_strlit("<");
            reveal_strlit("/");
        }
    }
    let n = node.len();
    let a = match find_at(node, lt.as_slice(), 0) {
        Some(a) => a,
        None => 0,
    };
    let j1 = ws_end_at(node, a + 1);
    let j2 = word_end_at(node, j1);
    let cap = slice_of(node, a, j2);
    let c1 = replace_all(cap.as_slice(), lt.as_slice(), empty.as_slice());
    replace_all(c1.as_slice(), slash.as_slice(), empty.as_slice())
}

/// Is there an end tag `<` (white space) `/` (white space) `tag` at index `i` of `s`?
fn end_tag_at_exec(s: &[char], tag: &[char], i: usize) -> (b: bool)
    requires
        i < s@.len(),
    ensures
        b == end_tag_at(s@, tag@, i as int),
{
    let n = s.len();
    if s[i] != '<' {
        return false;
    }
    let k = ws_end_at(s, i + 1);
    if k >= s.len() || s[k] != '/' {
        return false;
    }
    let e = ws_end_at(s, k + 1);
    let mut m = k + 1;
    while m < e
        invariant
            n == s@.len(),
            i < s@.len(),
            s@[i as int] == '<',
            k < s@.len(),
            s@[k as int] == '/',
            k + 1 <= m <= e,
            e == ws_end(s@, k + 1),
            e <= s@.len(),
            k == ws_end(s@, i + 1),
            forall|q: int| k + 1 <= q < m ==> !occurs_at(s@, tag@, q),
        decreases e - m,
    {
        if occurs(s, tag, m) {
            assert(occurs_at(s@, tag@, m as int));
            return true;
        }
        m = m + 1;
    }
    if occurs(s, tag, e) {
        assert(occurs_at(s@, tag@, e as int));
        return true;
    }
    false
}

/// Does the text hold an end tag for the element the piece opens?
fn is_exist_end_tag(node: &[char], text: &[char]) -> (b: bool)
    requires
        find_from(node@, "<"@, 0) is Some,
    ensures
        b == is_exist_end_tag_spec(node@, text@),
{
    let tag = end_tag_search_name_exec(node);
    let mut i: usize = 0;
    while i < text.len()
        invariant
            tag@ == end_tag_search_name(node@),
            i <= text@.len(),
            forall|q: int| 0 <= q < i ==> !end_tag_at(text@, tag@, q),
        decreases text@.len() - i,
    {
        if end_tag_at_exec(text, tag.as_slice(), i) {
            return true;
        }
        i = i + 1;
    }
    false
}

/// Does the piece contain `<` followed by a word character?
fn has_lt_word_exec(p: &[char]) -> (b: bool)
    ensures
        b == has_lt_word(p@),
{
    let mut i: usize = 0;
    let n = p.len();
    while i < n && n - i > 1
        invariant
            n == p@.len(),
            forall|q: int| 0 <= q < i && q < p@.len() - 1 ==> !(p@[q] == '<' && #[trigger] is_word(p@[q + 1])),
        decreases p@.len() - i,
    {
        if p[i] == '<' && word(p[i + 1]) {
            return true;
        }
        i = i + 1;
    }
    false
}

/// Does the piece contain `function` followed by white space?
fn has_function_ws_exec(p: &[char]) -> (b: bool)
    ensures
        b == has_function_ws(p@),
{
    let func = str_to_chars("function");
    let mut i: usize = 0;
    while i < p.len()
        invariant
            func@ == "function"@,
            forall|q: int|
                0 <= q < i ==> !(#[trigger] occurs_at(p@, "function"@, q) && q + "function"@.len() < p@.len()
                    && is_white_space(p@[q + "function"@.len()])),
        decreases p@.len() - i,
    {
        if occurs(p, func.as_slice(), i) && p.len() - i > func.len() && white_space(p[i + func.len()]) {
            return true;
        }
        i = i + 1;
    }
    assert forall|q: int|
        !(#[trigger] occurs_at(p@, "function"@, q) && q + "function"@.len() < p@.len() && is_white_space(
            p@[q + "function"@.len()],
        )) by {
        if q >= i && occurs_at(p@, "function"@, q) {
            assert(q + "function"@.len() <= p@.len());
        }
    }
    false
}

/// The remembered opening tags as names and depths.
pub open spec fn tags_view(v: Seq<(Vec<char>, usize)>) -> Seq<(Seq<char>, int)> {
    v.map_values(|x: (Vec<char>, usize)| (x.0@, x.1 as int))
}

/// The deepest indentation remembered for an element name.
fn max_indent_exec(tags: &Vec<(Vec<char>, usize)>, name: &[char]) -> (r: Option<usize>)
    ensures
        r matches Some(d) ==> max_indent(tags_view(tags@), name@) == Some(d as int),
        r is None ==> max_indent(tags_view(tags@), name@) is None,
{
    let mut best: Option<usize> = None;
    let mut i: usize = 0;
    while i < tags.len()
        invariant
            i <= tags@.len(),
            best matches Some(d) ==> max_indent(tags_view(tags@.take(i as int)), name@) == Some(d as int),
            best is None ==> max_indent(tags_view(tags@.take(i as int)), name@) is None,
        decreases tags@.len() - i,
    {
        proof {
            assert(tags_view(tags@.take(i + 1)).drop_last() =~= tags_view(tags@.take(i as int)));
            assert(tags_view(tags@.take(i + 1)).last() == (tags@[i as int].0@, tags@[i as int].1 as int));
        }
        if chars_eq(tags[i].0.as_slice(), name) {
            let d = tags[i].1;
            best = match best {
                Some(b) => if b >= d { Some(b) } else { Some(d) },
                None => Some(d),
            };
        }
        i = i + 1;
    }
    proof {
        assert(tags@.take(tags@.len() as int) =~= tags@);
    }
    best
}

/// The remembered opening tags with `(name, d)` removed.
fn without_tag_exec(tags: &Vec<(Vec<char>, usize)>, name: &[char], d: usize) -> (r: Vec<(Vec<char>, usize)>)
    ensures
        tags_view(r@) == without_tag(tags_view(tags@), (name@, d as int)),
{
    let mut r: Vec<(Vec<char>, usize)> = Vec::new();
    let mut i: usize = 0;
    proof {
        assert(tags_view(tags@.take(0)) =~= Seq::<(Seq<char>, int)>::empty());
        assert(tags_view(r@) =~= without_tag(tags_view(tags@.take(0)), (name@, d as int)));
    }
    while i < tags.len()
        invariant
            i <= tags@.len(),
            tags_view(r@) == without_tag(tags_view(tags@.take(i as int)), (name@, d as int)),
        decreases tags@.len() - i,
    {
        let ghost prefix = tags_view(tags@.take(i as int));
        let ghost item = (tags@[i as int].0@, tags@[i as int].1 as int);
        proof {
            assert(tags_view(tags@.take(i + 1)) =~= prefix.push(item));
            assert(prefix.push(item).drop_last() =~= prefix);
        }
        let same = tags[i].1 == d && chars_eq(tags[i].0.as_slice(), name);
        if !same {
            let entry = (slice_of(tags[i].0.as_slice(), 0, tags[i].0.len()), tags[i].1);
            r.push(entry);
            proof {
                assert(entry.0@ =~= tags@[i as int].0@);
                assert(tags_view(r@) =~= tags_view(r@.drop_last()).push(item));
            }
        }
        i = i + 1;
    }
    proof {
        assert(tags@.take(tags@.len() as int) =~= tags@);
    }
    r
}

/// Forget the opening tag remembered deepest for `name` (see `unmemorized`).
fn unmemorize_tag(tags: &Vec<(Vec<char>, usize)>, name: &[char]) -> (r: (Vec<(Vec<char>, usize)>, Option<usize>))
    ensures
        tags_view(r.0@) == unmemorized(tags_view(tags@), name@),
        r.1 matches Some(d) ==> max_indent(tags_view(tags@), name@) == Some(d as int),
        r.1 is None ==> max_indent(tags_view(tags@), name@) is None,
{
    let found = max_indent_exec(tags, name);
    match found {
        Some(d) => (without_tag_exec(tags, name, d), found),
        None => {
            let empty: Vec<char> = Vec::new();
            proof {
                assert(empty@ =~= Seq::<char>::empty());
            }
            (without_tag_exec(tags, empty.as_slice(), usize::MAX), found)
        },
    }
}

/// Remember an opening tag with its depth, unless it is remembered already.
fn memorize_tag(tags: &mut Vec<(Vec<char>, usize)>, name: Vec<char>, deep: usize)
    ensures
        tags_view(final(tags)@) == (if tags_view(old(tags)@).contains((name@, deep as int)) {
            tags_view(old(tags)@)
        } else {
            tags_view(old(tags)@).push((name@, deep as int))
        }),
{
    let mut i: usize = 0;
    while i < tags.len()
        invariant
            i <= tags@.len(),
            tags@ == old(tags)@,
            forall|q: int| 0 <= q < i ==> tags_view(tags@)[q] != (name@, deep as int),
        decreases tags@.len() - i,
    {
        if tags[i].1 == deep && chars_eq(tags[i].0.as_slice(), name.as_slice()) {
            proof {
                assert(tags_view(tags@)[i as int] == (name@, deep as int));
            }
            return;
        }
        i = i + 1;
    }
    let ghost v = name@;
    tags.push((name, deep));
    proof {
        assert(tags_view(tags@) =~= tags_view(old(tags)@).push((v, deep as int)));
    }
}

/// `s` without the first occurrence of `nl`.
fn without_first_exec(s: &[char], nl: &[char]) -> (r: Vec<char>)
    ensures
        r@ == without_first(s@, nl@),
{
    let n = s.len();
    if nl.len() == 0 {
        return slice_of(s, 0, n);
    }
    proof {
        lemma_find_from_bounds(s@, nl@, 0);
    }
    match find_at(s, nl, 0) {
        Some(j) => {
            let mut r = slice_of(s, 0, j);
            let t = slice_of(s, j + nl.len(), n);
            push_all(&mut r, t.as_slice());
            r
        },
        None => slice_of(s, 0, n),
    }
}

/// The line starts for depths 0 to 100: the newline and that many indentation steps.
fn create_indent_arr(nl: &[char], unit: &[char]) -> (r: Vec<Vec<char>>)
    ensures
        r@.len() == 101,
        forall|k: int| 0 <= k < 101 ==> #[trigger] r@[k]@ == indent_at(nl@, unit@, k),
{
    let mut r: Vec<Vec<char>> = Vec::new();
    r.push(slice_of(nl, 0, nl.len()));
    proof {
        assert(nl@ + Seq::<char>::empty() =~= nl@);
    }
    let mut idx: usize = 0;
    while idx < 100
        invariant
            idx <= 100,
            r@.len() == idx + 1,
            forall|k: int| 0 <= k <= idx ==> #[trigger] r@[k]@ == indent_at(nl@, unit@, k),
        decreases 100 - idx,
    {
        let mut next = slice_of(r[idx].as_slice(), 0, r[idx].len());
        push_all(&mut next, unit);
        proof {
            assert(next@ =~= indent_at(nl@, unit@, idx + 1));
        }
        r.push(next);
        idx = idx + 1;
    }
    r
}


/// Does `p` close, right away, the element that `q` opens?
fn close_after_open(q: &[char], p: &[char]) -> (b: bool)
    ensures
        b == (starts_open_tag(q@) && starts_close_tag(p@) && q@.subrange(0, tag_end(q@, 1)) == replace_spec(
            p@.subrange(0, tag_end(p@, 2)),
            "/"@,
            Seq::empty(),
        )),
{
    if !(q.len() >= 2 && q[0] == '<' && word(q[1])) {
        return false;
    }
    if !(p.len() >= 3 && p[0] == '<' && p[1] == '/' && word(p[2])) {
        return false;
    }
    let slash = str_to_chars("/");
    let empty: Vec<char> = Vec::new();
    proof {
        assert(empty@ =~= Seq::<char>::empty());
        assert(slash@.len() == 1) by {
            reveal_strlit("/");
        }
    }
    let a = slice_of(q, 0, tag_end_at(q, 1));
    let b = slice_of(p, 0, tag_end_at(p, 2));
    let b2 = replace_all(b.as_slice(), slash.as_slice(), empty.as_slice());
    chars_eq(a.as_slice(), b2.as_slice())
}

/// Does the piece hold the tag that `remove_space` puts first?
fn remove_space_ok(in_comment: bool, node: &[char], is_close: bool) -> (b: bool)
    ensures
        b == remove_space(in_comment, node@, is_close).1,
{
    if in_comment {
        return true;
    }
    let n = node.len();
    let open = if is_close { str_to_chars("</") } else { str_to_chars("<") };
    let gt = str_to_chars(">");
    proof {
        lemma_find_from_bounds(node@, open@, 0);
    }
    match find_at(node, open.as_slice(), 0) {
        Some(a) => find_at(node, gt.as_slice(), a + open.len()).is_some(),
        None => false,
    }
}

/// Once formatting fails it stays failed.
pub proof fn lemma_fold_fail_stays(pieces: Seq<Seq<char>>, n: int, m: int, is_html: bool, text_nc: Seq<char>, unit: Seq<char>, nl: Seq<char>)
    requires
        0 <= n <= m,
        !fmt_fold(pieces, n, is_html, text_nc, unit, nl).4,
    ensures
        !fmt_fold(pieces, m, is_html, text_nc, unit, nl).4,
    decreases m - n,
{
    if n < m {
        lemma_fold_fail_stays(pieces, n, m - 1, is_html, text_nc, unit, nl);
    }
}

/// The cut text (see `xml_pieces`).
fn xml_pieces_exec(text: &[char]) -> (r: Vec<Vec<char>>)
    ensures
        r@.len() == xml_pieces(text@).len(),
        forall|k: int| 0 <= k < r@.len() ==> #[trigger] r@[k]@ == xml_pieces(text@)[k],
{
    let lt = str_to_chars("<");
    let lt_marked = str_to_chars("~::~<");
    let xmlns_colon = str_to_chars("xmlns:");
    let xmlns_eq = str_to_chars("xmlns=");
    let func = str_to_chars("(function(");
    let func_marked = str_to_chars("~::~(function(");
    let mark = str_to_chars("~::~");
    proof {
        reveal_strlit("<");
        reveal_strlit("(function(");
        reveal_strlit("~::~");
    }
    let t1 = replace_all(text, lt.as_slice(), lt_marked.as_slice());
    let t2 = mark_before_ws(t1.as_slice(), xmlns_colon.as_slice());
    let t3 = mark_before_ws(t2.as_slice(), xmlns_eq.as_slice());
    let t4 = replace_all(t3.as_slice(), func.as_slice(), func_marked.as_slice());
    let t5 = mark_function(t4.as_slice());
    split_pieces(t5.as_slice(), mark.as_slice())
}

/// Append `a` and then `b`.
fn push_two(r: &mut Vec<char>, a: &[char], b: &[char])
    ensures
        final(r)@ == old(r)@ + a@ + b@,
{
    push_all(r, a);
    push_all(r, b);
}

/// An optional piece, read through its reference.
pub open spec fn opt_view(q: Option<&[char]>) -> Option<Seq<char>> {
    match q {
        Some(q) => Some(q@),
        None => None,
    }
}

/// One step of the formatter on the piece `p` after the piece `prev` (see `fmt_step`); `false`
/// where formatting fails, and then the state is of no further use.
fn step_exec(
    out: &mut Vec<char>,
    deep: &mut usize,
    inc: &mut bool,
    tags: &mut Vec<(Vec<char>, usize)>,
    prev: Option<&[char]>,
    p: &[char],
    is_html: bool,
    nc: &[char],
    unit: &[char],
    nl: &[char],
    indent: &Vec<Vec<char>>,
) -> (ok: bool)
    requires
        indent@.len() == 101,
        forall|k: int| 0 <= k < 101 ==> #[trigger] indent@[k]@ == indent_at(nl@, unit@, k),
    ensures
        ok == fmt_step(
            (old(out)@, *old(deep) as int, *old(inc), tags_view(old(tags)@), true),
            opt_view(prev),
            p@,
            is_html,
            nc@,
            unit@,
            nl@,
        ).4,
        ok ==> (final(out)@, *final(deep) as int, *final(inc), tags_view(final(tags)@), true) == fmt_step(
            (old(out)@, *old(deep) as int, *old(inc), tags_view(old(tags)@), true),
            opt_view(prev),
            p@,
            is_html,
            nc@,
            unit@,
            nl@,
        ),
{
    if has_str(p, "<!") {
        if *deep > 100 {
            return false;
        }
        let ends = has_str(p, "-->") || has_str(p, "]>") || has_str(p, "!DOCTYPE") || has_str(p, "!doctype");
        if ends {
            let node = trim_chars(p);
            push_two(out, indent[*deep].as_slice(), node.as_slice());
        } else {
            push_two(out, indent[*deep].as_slice(), p);
        }
        *inc = !ends;
        return true;
    }
    if has_str(p, "-->") || has_str(p, "]>") {
        push_all(out, p);
        *inc = false;
        return true;
    }
    if is_html && (has_str(p, "(function(") || has_function_ws_exec(p)) {
        if !*inc {
            if *deep > 100 {
                return false;
            }
            push_two(out, indent[*deep].as_slice(), p);
        } else {
            push_all(out, p);
        }
        return true;
    }
    let after_open = match prev {
        Some(q) => close_after_open(q, p),
        None => false,
    };
    if after_open {
        return step_close_after_open(out, deep, inc, tags, p);
    }
    if has_lt_word_exec(p) && !has_str(p, "</") && !has_str(p, "/>") {
        return step_open(out, deep, inc, tags, p, nc, indent, unit, nl);
    }
    if has_str(p, "</") {
        return step_close(out, deep, inc, tags, p, indent, unit, nl);
    }
    if has_str(p, "/>") {
        if !*inc {
            if *deep > 100 {
                return false;
            }
            push_two(out, indent[*deep].as_slice(), p);
        } else {
            push_all(out, p);
        }
        return true;
    }
    if has_str(p, "<?") || has_str(p, "xmlns:") || has_str(p, "xmlns=") {
        if *deep > 100 {
            return false;
        }
        let node = trim_chars(p);
        push_two(out, indent[*deep].as_slice(), node.as_slice());
        return true;
    }
    let node = trim_chars(p);
    push_all(out, node.as_slice());
    true
}

/// The step for an element closed right after it opened.
fn step_close_after_open(out: &mut Vec<char>, deep: &mut usize, inc: &mut bool, tags: &mut Vec<(Vec<char>, usize)>, p: &[char]) -> (ok: bool)
    ensures
        ok == (remove_space(*old(inc), p@, true).1 && close_lt_from(trim(p@), 0) is Some),
        ok ==> final(out)@ == old(out)@ + remove_space(*old(inc), p@, true).0,
        ok ==> *final(deep) as int == (if !*old(inc) { if *old(deep) == 0 { 0 } else { *old(deep) - 1 } } else { *old(deep) as int }),
        ok ==> *final(inc) == *old(inc),
        ok ==> tags_view(final(tags)@) == unmemorized(tags_view(old(tags)@), close_tag_name(trim(p@))),
{
    let node = trim_chars(p);
    if !remove_space_ok(*inc, p, true) || close_lt_at(node.as_slice(), 0).is_none() {
        return false;
    }
    let rs = remove_space_between_tag_and_elm(*inc, p, true);
    push_all(out, rs.as_slice());
    let name = close_tag_name_exec(node.as_slice());
    let (t2, _) = unmemorize_tag(tags, name.as_slice());
    *tags = t2;
    if !*inc {
        *deep = if *deep == 0 { 0 } else { *deep - 1 };
    }
    true
}

/// The step for an opening tag.
fn step_open(
    out: &mut Vec<char>,
    deep: &mut usize,
    inc: &mut bool,
    tags: &mut Vec<(Vec<char>, usize)>,
    p: &[char],
    nc: &[char],
    indent: &Vec<Vec<char>>,
    unit: &[char],
    nl: &[char],
) -> (ok: bool)
    requires
        indent@.len() == 101,
        forall|k: int| 0 <= k < 101 ==> #[trigger] indent@[k]@ == indent_at(nl@, unit@, k),
    ensures
        ok == (remove_space(*old(inc), p@, false).1 && (*old(inc) || *old(deep) <= 100) && find_from(trim(p@), "<"@, 0) is Some),
        ok ==> final(out)@ == (if *old(inc) {
            old(out)@ + remove_space(*old(inc), p@, false).0
        } else {
            old(out)@ + indent_at(nl@, unit@, *old(deep) as int) + remove_space(*old(inc), p@, false).0
        }),
        ok ==> *final(deep) as int == (if !*old(inc) && is_exist_end_tag_spec(trim(p@), nc@) { *old(deep) + 1 } else { *old(deep) as int }),
        ok ==> *final(inc) == *old(inc),
        ok ==> tags_view(final(tags)@) == (if tags_view(old(tags)@).contains((open_tag_name(trim(p@)), *old(deep) as int)) {
            tags_view(old(tags)@)
        } else {
            tags_view(old(tags)@).push((open_tag_name(trim(p@)), *old(deep) as int))
        }),
{
    let node = trim_chars(p);
    let lt = str_to_chars("<");
    if !remove_space_ok(*inc, p, false) || (!*inc && *deep > 100) || find_at(node.as_slice(), lt.as_slice(), 0).is_none() {
        return false;
    }
    let rs = remove_space_between_tag_and_elm(*inc, p, false);
    if *inc {
        push_all(out, rs.as_slice());
    } else {
        push_two(out, indent[*deep].as_slice(), rs.as_slice());
    }
    let name = open_tag_name_exec(node.as_slice());
    memorize_tag(tags, name, *deep);
    if !*inc && is_exist_end_tag(node.as_slice(), nc) {
        *deep = *deep + 1;
    }
    true
}

/// The depth after the closing tag of `name`: back to the depth its opening tag had, or one
/// up where there is none (not in a comment).
pub open spec fn close_depth(tags: Seq<(Seq<char>, int)>, name: Seq<char>, deep: int, inc: bool) -> int {
    match max_indent(tags, name) {
        Some(d) => if !inc { if deep < d { deep - 1 } else { d } } else { deep },
        None => if !inc { if deep == 0 { 0 } else { deep - 1 } } else { deep },
    }
}

/// The step for a closing tag.
fn step_close(
    out: &mut Vec<char>,
    deep: &mut usize,
    inc: &mut bool,
    tags: &mut Vec<(Vec<char>, usize)>,
    p: &[char],
    indent: &Vec<Vec<char>>,
    unit: &[char],
    nl: &[char],
) -> (ok: bool)
    requires
        indent@.len() == 101,
        forall|k: int| 0 <= k < 101 ==> #[trigger] indent@[k]@ == indent_at(nl@, unit@, k),
    ensures
        ok == (close_lt_from(trim(p@), 0) is Some && (*old(inc) || 0 <= close_depth(
            tags_view(old(tags)@),
            close_tag_name(trim(p@)),
            *old(deep) as int,
            *old(inc),
        ) <= 100)),
        ok ==> *final(deep) as int == close_depth(tags_view(old(tags)@), close_tag_name(trim(p@)), *old(deep) as int, *old(inc)),
        ok ==> final(out)@ == (if *old(inc) {
            old(out)@ + p@
        } else {
            old(out)@ + indent_at(nl@, unit@, *final(deep) as int) + trim(p@)
        }),
        ok ==> *final(inc) == *old(inc),
        ok ==> tags_view(final(tags)@) == unmemorized(tags_view(old(tags)@), close_tag_name(trim(p@))),
{
    let node = trim_chars(p);
    if close_lt_at(node.as_slice(), 0).is_none() {
        return false;
    }
    let name = close_tag_name_exec(node.as_slice());
    let (t2, found) = unmemorize_tag(tags, name.as_slice());
    let deep2: usize = match found {
        Some(d) => if !*inc {
            if *deep < d {
                if *deep == 0 {
                    return false;
                }
                *deep - 1
            } else {
                d
            }
        } else {
            *deep
        },
        None => if !*inc {
            if *deep == 0 { 0 } else { *deep - 1 }
        } else {
            *deep
        },
    };
    if *inc {
        push_all(out, p);
    } else {
        if deep2 > 100 {
            return false;
        }
        push_two(out, indent[deep2].as_slice(), node.as_slice());
    }
    *tags = t2;
    *deep = deep2;
    true
}

/// Format the text, or `None` where formatting fails (see `format_xml_spec`).
fn format_steps(text: &[char], is_html: bool, unit: &[char], nl: &[char]) -> (r: Option<Vec<char>>)
    ensures
        (r is Some) == format_xml_spec(text@, is_html, unit@, nl@).1,
        r matches Some(v) ==> v@ == format_xml_spec(text@, is_html, unit@, nl@).0,
{
    let nc = strip_comments(text);
    let pieces = xml_pieces_exec(text);
    let ghost ps = xml_pieces(text@);
    let ghost ncs = strip_comments_from(text@, 0);
    let ghost n = ps.len() as int;
    let indent = create_indent_arr(nl, unit);
    let mut out: Vec<char> = Vec::new();
    let mut deep: usize = 0;
    let mut inc = false;
    let mut tags: Vec<(Vec<char>, usize)> = Vec::new();
    let mut idx: usize = 0;
    proof {
        assert(out@ =~= Seq::<char>::empty());
        assert(tags_view(tags@) =~= Seq::<(Seq<char>, int)>::empty());
    }
    while idx < pieces.len()
        invariant
            ps == xml_pieces(text@),
            ncs == strip_comments_from(text@, 0),
            pieces@.len() == ps.len(),
            n == ps.len(),
            forall|k: int| 0 <= k < pieces@.len() ==> #[trigger] pieces@[k]@ == ps[k],
            nc@ == ncs,
            indent@.len() == 101,
            forall|k: int| 0 <= k < 101 ==> #[trigger] indent@[k]@ == indent_at(nl@, unit@, k),
            idx <= pieces@.len(),
            fmt_fold(ps, idx as int, is_html, ncs, unit@, nl@) == (out@, deep as int, inc, tags_view(tags@), true),
        decreases pieces@.len() - idx,
    {
        let prev: Option<&[char]> = if idx >= 1 { Some(pieces[idx - 1].as_slice()) } else { None };
        let ghost st0 = fmt_fold(ps, idx as int, is_html, ncs, unit@, nl@);
        proof {
            assert(opt_view(prev) == (if idx + 1 >= 2 { Some(ps[idx + 1 - 2]) } else { None::<Seq<char>> }));
            assert(pieces@[idx as int]@ == ps[idx as int]);
            assert(fmt_fold(ps, idx + 1, is_html, ncs, unit@, nl@) == fmt_step(st0, opt_view(prev), ps[idx as int], is_html, ncs, unit@, nl@));
        }
        let ok = step_exec(
            &mut out,
            &mut deep,
            &mut inc,
            &mut tags,
            prev,
            pieces[idx].as_slice(),
            is_html,
            nc.as_slice(),
            unit,
            nl,
            &indent,
        );
        if !ok {
            proof {
                lemma_fold_fail_stays(ps, idx + 1, n, is_html, ncs, unit@, nl@);
            }
            return None;
        }
        idx = idx + 1;
    }
    Some(without_first_exec(out.as_slice(), nl))
}


impl FormatXml {
    /// The text laid out one tag per line, each line starting with the newline `nl` and the
    /// configured indent unit repeated once per open element; a formatter of HTML also puts
    /// script functions on lines of their own. The first newline is left out.
    pub fn format_xml_html(cfg: &Cfg, text: String, fmt_type: FileType, nl: String) -> (r: String)
        requires
            format_xml_spec(text@, fmt_type == FileType::HTML, cfg.general.editor.format.indent@, nl@).1,
        ensures
            r@ == format_xml_spec(text@, fmt_type == FileType::HTML, cfg.general.editor.format.indent@, nl@).0,
    {
        match FormatXml::try_format_xml_html(cfg, text, fmt_type, nl) {
            Some(s) => s,
            None => String::new(),
        }
    }

    /// `format_xml_html` where the text can be laid out, `None` where the layout would go
    /// deeper than the indents made for it or meets a tag it cannot read.
    pub fn try_format_xml_html(cfg: &Cfg, text: String, fmt_type: FileType, nl: String) -> (r: Option<String>)
        ensures
            r is Some == format_xml_spec(text@, fmt_type == FileType::HTML, cfg.general.editor.format.indent@, nl@).1,
            r matches Some(s) ==> s@ == format_xml_spec(text@, fmt_type == FileType::HTML, cfg.general.editor.format.indent@, nl@).0,
    {
        let t = str_to_chars(text.as_str());
        let unit = str_to_chars(cfg.general.editor.format.indent.as_str());
        let n = str_to_chars(nl.as_str());
        let is_html = matches!(fmt_type, FileType::HTML);
        match format_steps(t.as_slice(), is_html, unit.as_slice(), n.as_slice()) {
            Some(v) => Some(chars_to_string(v.as_slice())),
            None => None,
        }
    }
}


/// Does `t` occur in `s` right after a `/` and the white space that follows it?
pub open spec fn after_slash(s: Seq<char>, t: Seq<char>) -> bool {
    exists|j: int, m: int|
        #![trigger s[j], occurs_at(s, t, m)]
        0 <= j < m && s[j] == '/' && (forall|k: int| j < k < m ==> is_white_space(#[trigger] s[k])) && occurs_at(s, t, m)
}

/// Everything from `i` up to where its run of white space ends is white space.
pub proof fn lemma_ws_end_all_ws(s: Seq<char>, i: int)
    requires
        0 <= i <= s.len(),
    ensures
        forall|k: int| i <= k < ws_end(s, i) ==> is_white_space(#[trigger] s[k]),
    decreases s.len() - i,
{
    if i < s.len() && is_white_space(s[i]) {
        lemma_ws_end_all_ws(s, i + 1);
    }
}

/// The end-tag search finds only what the text holds: where it finds an end tag for the
/// element a piece opens, the element's name occurs in the text right after a `/` (and white
/// space). An element such as `<br>` whose name the text never has after a `/` has none.
pub proof fn lemma_end_tag_found_after_slash(node: Seq<char>, text: Seq<char>)
    ensures
        is_exist_end_tag_spec(node, text) ==> after_slash(text, end_tag_search_name(node)),
{
    let t = end_tag_search_name(node);
    if is_exist_end_tag_spec(node, text) {
        let i = choose|i: int| #[trigger] end_tag_at(text, t, i);
        let w = ws_end(text, i + 1);
        lemma_ws_end_bounds(text, i + 1);
        lemma_ws_end_bounds(text, w + 1);
        lemma_ws_end_all_ws(text, w + 1);
        let m = choose|m: int| w + 1 <= m <= ws_end(text, w + 1) && #[trigger] occurs_at(text, t, m);
        assert(forall|k: int| w < k < m ==> is_white_space(#[trigger] text[k]));
        assert(text[w] == '/');
        assert(occurs_at(text, t, m));
    }
}

/// The end-tag search misses nothing written plainly: where `</` and the element's name
/// stand in the text, it finds the end tag.
pub proof fn lemma_end_tag_found_when_written(node: Seq<char>, text: Seq<char>, i: int)
    requires
        0 <= i,
        i + 1 < text.len(),
        text[i] == '<',
        text[i + 1] == '/',
        occurs_at(text, end_tag_search_name(node), i + 2),
    ensures
        is_exist_end_tag_spec(node, text),
{
    let t = end_tag_search_name(node);
    assert(!is_white_space(text[i + 1]));
    assert(ws_end(text, i + 1) == i + 1);
    lemma_ws_end_bounds(text, i + 2);
    assert(occurs_at(text, t, i + 2));
    assert(end_tag_at(text, t, i));
}

/// After an opening tag outside a comment, the next line goes one step deeper only where the
/// text closes the element: where the element's name never follows a `/` in the text (as with
/// `<br>`), the depth stays that of the tag's line; where `</` and the name stand in the text,
/// it grows by one.
pub proof fn lemma_open_tag_depth(
    st: FmtState,
    prev: Option<Seq<char>>,
    p: Seq<char>,
    is_html: bool,
    text_nc: Seq<char>,
    unit: Seq<char>,
    nl: Seq<char>,
)
    requires
        !st.2,
        !contains_sub(p, "<!"@),
        !contains_sub(p, "-->"@),
        !contains_sub(p, "]>"@),
        !(is_html && (contains_sub(p, "(function("@) || has_function_ws(p))),
        !starts_close_tag(p),
        has_lt_word(p),
        !contains_sub(p, "</"@),
        !contains_sub(p, "/>"@),
    ensures
        !after_slash(text_nc, end_tag_search_name(trim(p)))
            ==> fmt_step(st, prev, p, is_html, text_nc, unit, nl).1 == st.1,
        (exists|i: int| 0 <= i && i + 1 < text_nc.len() && text_nc[i] == '<' && text_nc[i + 1] == '/'
            && #[trigger] occurs_at(text_nc, end_tag_search_name(trim(p)), i + 2))
            ==> fmt_step(st, prev, p, is_html, text_nc, unit, nl).1 == st.1 + 1,
{
    let node = trim(p);
    lemma_end_tag_found_after_slash(node, text_nc);
    if exists|i: int| 0 <= i && i + 1 < text_nc.len() && text_nc[i] == '<' && text_nc[i + 1] == '/'
        && #[trigger] occurs_at(text_nc, end_tag_search_name(node), i + 2) {
        let i = choose|i: int| 0 <= i && i + 1 < text_nc.len() && text_nc[i] == '<' && text_nc[i + 1] == '/'
            && #[trigger] occurs_at(text_nc, end_tag_search_name(node), i + 2);
        lemma_end_tag_found_when_written(node, text_nc, i);
    }
}

/// Replacing a character that does not occur leaves the text as it is.
proof fn lemma_replace_absent_char(s: Seq<char>, c: char, rep: Seq<char>)
    requires
        forall|k: int| 0 <= k < s.len() ==> s[k] != c,
    ensures
        replace_spec(s, seq![c], rep) == s,
    decreases s.len(),
{
    if s.len() >= 1 {
        assert(s.take(1)[0] == s[0]);
        assert(s.take(1) != seq![c]);
        lemma_replace_absent_char(s.skip(1), c, rep);
        assert(seq![s[0]] + s.skip(1) =~= s);
    }
}

/// A run of word characters from `i` that stops before `j` ends at `j`.
proof fn lemma_word_end_run(s: Seq<char>, i: int, j: int)
    requires
        0 <= i <= j <= s.len(),
        forall|k: int| i <= k < j ==> is_word(#[trigger] s[k]),
        j == s.len() || !is_word(s[j]),
    ensures
        word_end(s, i) == j,
    decreases j - i,
{
    if i < j {
        lemma_word_end_run(s, i + 1, j);
    }
}

/// The element name the end-tag search looks for in a plain opening tag `<name...`: the word
/// right after the `<`, where the name is made of word characters (none of them white space,
/// `<` or `/`) and what follows it is not one.
pub proof fn lemma_end_tag_search_name_plain(name: Seq<char>, rest: Seq<char>)
    requires
        name.len() > 0,
        forall|k: int| 0 <= k < name.len() ==> is_word(#[trigger] name[k]) && !is_white_space(name[k]) && name[k] != '<'
            && name[k] != '/',
        rest.len() == 0 || !is_word(rest[0]),
    ensures
        end_tag_search_name(seq!['<'] + name + rest) == name,
{
    reveal_strlit("<");
    reveal_strlit("/");
    let node = seq!['<'] + name + rest;
    let n = name.len() as int;
    assert(node.subrange(0, 1) =~= "<"@);
    assert(occurs_at(node, "<"@, 0));
    assert(find_from(node, "<"@, 0) == Some(0int));
    assert(node[1] == name[0]);
    assert(ws_end(node, 1) == 1);
    assert forall|k: int| 1 <= k < 1 + n implies is_word(#[trigger] node[k]) by {
        assert(node[k] == name[k - 1]);
    }
    if rest.len() > 0 {
        assert(node[1 + n] == rest[0]);
    }
    lemma_word_end_run(node, 1, 1 + n);
    let cap = node.subrange(0, 1 + n);
    assert(cap =~= seq!['<'] + name);
    assert(cap.take(1) =~= seq!['<']);
    assert(cap.skip(1) =~= name);
    lemma_replace_absent_char(name, '<', Seq::empty());
    assert("<"@ =~= seq!['<']);
    assert(replace_spec(cap, "<"@, Seq::empty()) == Seq::<char>::empty() + replace_spec(name, "<"@, Seq::empty()));
    assert(Seq::<char>::empty() + name =~= name);
    assert("/"@ =~= seq!['/']);
    lemma_replace_absent_char(name, '/', Seq::empty());
}

/// The depth after a plain opening tag `<name...>` outside a comment: it stays where the text
/// never has `name` after a `/` (as for `<br>` in `<a><br><b>x</b></a>`), and grows by one
/// where `</name` stands in the text.
pub proof fn lemma_plain_open_tag_depth(
    st: FmtState,
    prev: Option<Seq<char>>,
    p: Seq<char>,
    name: Seq<char>,
    rest: Seq<char>,
    is_html: bool,
    text_nc: Seq<char>,
    unit: Seq<char>,
    nl: Seq<char>,
)
    requires
        !st.2,
        trim(p) == seq!['<'] + name + rest,
        name.len() > 0,
        forall|k: int| 0 <= k < name.len() ==> is_word(#[trigger] name[k]) && !is_white_space(name[k]) && name[k] != '<'
            && name[k] != '/',
        rest.len() == 0 || !is_word(rest[0]),
        !contains_sub(p, "<!"@),
        !contains_sub(p, "-->"@),
        !contains_sub(p, "]>"@),
        !(is_html && (contains_sub(p, "(function("@) || has_function_ws(p))),
        !starts_close_tag(p),
        has_lt_word(p),
        !contains_sub(p, "</"@),
        !contains_sub(p, "/>"@),
    ensures
        !after_slash(text_nc, name) ==> fmt_step(st, prev, p, is_html, text_nc, unit, nl).1 == st.1,
        (exists|i: int| 0 <= i && i + 1 < text_nc.len() && text_nc[i] == '<' && text_nc[i + 1] == '/'
            && #[trigger] occurs_at(text_nc, name, i + 2))
            ==> fmt_step(st, prev, p, is_html, text_nc, unit, nl).1 == st.1 + 1,
{
    lemma_end_tag_search_name_plain(name, rest);
    lemma_open_tag_depth(st, prev, p, is_html, text_nc, unit, nl);
}

} // verus!
