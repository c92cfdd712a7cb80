//! Files as the editor lists and reads them: entries of a directory listing, decoding the bytes
//! of a file, and the message shown when an external file cannot be read.
use crate::lang::Lang;
use crate::model::Encode;
use crate::fmt_xml::{contains_sub, has_sub};
use crate::text::{chars_to_string, str_eq, str_to_chars, string_of};
use crate::util::{replace_all, replace_spec};
use vstd::prelude::*;
use vstd::string::StringExecFns;
use vstd::utf8::{encode_utf8, valid_utf8};

verus! {

/// An entry of a directory listing.
#[derive(Debug, Clone, Default, PartialEq, Eq)]
pub struct File {
    pub name: String,
    pub is_dir: bool,
}

/// Why reading a file failed, as far as the editor tells the cases apart.
#[derive(Debug, Clone, Copy, PartialEq, Eq, Structural)]
pub enum ReadErrorKind {
    PermissionDenied,
    NotFound,
    Other,
}

/// What `encoding_rs::Encoding::decode` gives for `bytes` read as `enc`: the text, the name of
/// the encoding actually used (a byte-order mark may select another), and whether malformed
/// sequences were replaced.
pub uninterp spec fn decoded(enc: Encode, bytes: Seq<u8>) -> (Seq<char>, Seq<char>, bool);

/// What `String::from_utf8_lossy` makes of `bytes`.
pub uninterp spec fn utf8_lossy(bytes: Seq<u8>) -> Seq<char>;

/// `b` without a leading UTF-8 byte-order mark.
pub open spec fn strip_utf8_bom(b: Seq<u8>) -> Seq<u8> {
    if b.len() >= 3 && b[0] == 0xEF && b[1] == 0xBB && b[2] == 0xBF {
        b.skip(3)
    } else {
        b
    }
}

/// Decodes `bytes` with `encoding_rs::Encoding::decode` for the encoding `enc` stands for
/// (UTF-8 for `Unknown`), and gives back the text, the name of the encoding used and whether
/// there were errors. The contract names the result. In the source, `decode` removes a
/// byte-order mark (which in valid UTF-8 can only be the UTF-8 one) and, for UTF-8, hands back
/// valid input unchanged as text, without errors; the contract states that case. `decode`
/// panics only where the size of its output buffer overflows `usize`, which the bound on the
/// input excludes.
#[verifier::external_body]
fn decode_bytes(bytes: &[u8], enc: Encode) -> (r: (String, String, bool))
    requires
        bytes@.len() <= usize::MAX / 4,
    ensures
        r.0@ == decoded(enc, bytes@).0,
        r.1@ == decoded(enc, bytes@).1,
        r.2 == decoded(enc, bytes@).2,
        enc == Encode::UTF8 && valid_utf8(bytes@) ==> encode_utf8(r.0@) == strip_utf8_bom(bytes@) && r.1@ == "UTF-8"@ && !r.2,
{
    let encoding: &'static encoding_rs::Encoding = match enc {
        Encode::UTF16LE => encoding_rs::UTF_16LE,
        Encode::UTF16BE => encoding_rs::UTF_16BE,
        Encode::SJIS => encoding_rs::SHIFT_JIS,
        Encode::JIS => encoding_rs::ISO_2022_JP,
        Encode::EucJp => encoding_rs::EUC_JP,
        Encode::GBK => encoding_rs::GBK,
        Encode::UTF8 | Encode::Unknown => encoding_rs::UTF_8,
    };
    let (cow, used, had_errors) = encoding.decode(bytes);
    (cow.into_owned(), used.name().to_string(), had_errors)
}

/// Decodes `bytes` as UTF-8 with `String::from_utf8_lossy`, which replaces malformed
/// sequences; the contract names the result.
#[verifier::external_body]
fn lossy_utf8(bytes: &[u8]) -> (s: String)
    ensures
        s@ == utf8_lossy(bytes@),
{
    String::from_utf8_lossy(bytes).into_owned()
}

/// The editor's encoding for an `encoding_rs` encoding name; UTF-8 for the others.
pub open spec fn encode_of_encoding_name(name: Seq<char>) -> Encode {
    if name == "UTF-16LE"@ {
        Encode::UTF16LE
    } else if name == "UTF-16BE"@ {
        Encode::UTF16BE
    } else if name == "Shift_JIS"@ {
        Encode::SJIS
    } else if name == "EUC-JP"@ {
        Encode::EucJp
    } else if name == "ISO-2022-JP"@ {
        Encode::JIS
    } else if name == "GBK"@ {
        Encode::GBK
    } else {
        Encode::UTF8
    }
}

/// One attempt to read `bytes` as `enc`: the text, the encoding used, and whether there were errors.
pub open spec fn read_attempt(bytes: Seq<u8>, enc: Encode) -> (Seq<char>, Encode, bool) {
    let d = decoded(enc, bytes);
    (d.0, encode_of_encoding_name(d.1), d.2)
}

/// The result of guessing the encoding of `bytes`: the first of UTF-8, Shift_JIS, EUC-JP, GBK
/// and UTF-16LE that reads them without errors, otherwise UTF-8 with replacements, reported
/// as `Unknown`.
pub open spec fn guessed_read(bytes: Seq<u8>) -> (Seq<char>, Encode) {
    let a = read_attempt(bytes, Encode::UTF8);
    let b = read_attempt(bytes, Encode::SJIS);
    let c = read_attempt(bytes, Encode::EucJp);
    let d = read_attempt(bytes, Encode::GBK);
    let e = read_attempt(bytes, Encode::UTF16LE);
    if !a.2 {
        (a.0, a.1)
    } else if !b.2 {
        (b.0, b.1)
    } else if !c.2 {
        (c.0, c.1)
    } else if !d.2 {
        (d.0, d.1)
    } else if !e.2 {
        (e.0, e.1)
    } else {
        (utf8_lossy(bytes), Encode::Unknown)
    }
}

impl Encode {
    /// The editor's encoding for an `encoding_rs` encoding name; UTF-8 for the others.
    pub fn from_encoding_name(name: &str) -> (e: Encode)
        ensures
            e == encode_of_encoding_name(name@),
    {
        if str_eq(name, "UTF-16LE") {
            Encode::UTF16LE
        } else if str_eq(name, "UTF-16BE") {
            Encode::UTF16BE
        } else if str_eq(name, "Shift_JIS") {
            Encode::SJIS
        } else if str_eq(name, "EUC-JP") {
            Encode::EucJp
        } else if str_eq(name, "ISO-2022-JP") {
            Encode::JIS
        } else if str_eq(name, "GBK") {
            Encode::GBK
        } else {
            Encode::UTF8
        }
    }

    /// Read `bytes` as `encode`: the text, the encoding actually used, and whether malformed
    /// sequences were replaced.
    pub fn read_bytes(bytes: &[u8], encode: Encode) -> (r: (String, Encode, bool))
        requires
            bytes@.len() <= usize::MAX / 4,
        ensures
            r.0@ == read_attempt(bytes@, encode).0,
            r.1 == read_attempt(bytes@, encode).1,
            r.2 == read_attempt(bytes@, encode).2,
            encode == Encode::UTF8 && valid_utf8(bytes@) ==> encode_utf8(r.0@) == strip_utf8_bom(bytes@) && r.1 == Encode::UTF8 && !r.2,
    {
        let (text, used, had_errors) = decode_bytes(bytes, encode);
        proof {
            reveal_strlit("UTF-8");
            reveal_strlit("UTF-16LE");
            reveal_strlit("UTF-16BE");
            reveal_strlit("Shift_JIS");
            reveal_strlit("EUC-JP");
            reveal_strlit("ISO-2022-JP");
            reveal_strlit("GBK");
            assert("UTF-8"@.len() == 5);
            assert("UTF-8"@ != "EUC-JP"@);
            assert("UTF-8"@[0] != "GBK"@[0]);
            assert(encode_of_encoding_name("UTF-8"@) == Encode::UTF8);
        }
        (text, Encode::from_encoding_name(used.as_str()), had_errors)
    }

    /// The text and encoding of an attempt that read without errors; `None` for one with errors.
    pub fn accept_read(attempt: (String, Encode, bool)) -> (r: Option<(String, Encode)>)
        ensures
            attempt.2 ==> r is None,
            !attempt.2 ==> (r matches Some(v) && v.0 == attempt.0 && v.1 == attempt.1),
    {
        if !attempt.2 {
            Some((attempt.0, attempt.1))
        } else {
            None
        }
    }

    /// Guess the encoding of `bytes`: the first of UTF-8, Shift_JIS, EUC-JP, GBK and UTF-16LE
    /// that reads them without errors; otherwise UTF-8 with replacements, reported as `Unknown`.
    pub fn try_read_bytes(vec: &[u8]) -> (r: (String, Encode))
        requires
            vec@.len() <= usize::MAX / 4,
        ensures
            r.0@ == guessed_read(vec@).0,
            r.1 == guessed_read(vec@).1,
            valid_utf8(vec@) ==> encode_utf8(r.0@) == strip_utf8_bom(vec@) && r.1 == Encode::UTF8,
    {
        if let Some(v) = Encode::accept_read(Encode::read_bytes(vec, Encode::UTF8)) {
            return v;
        }
        if let Some(v) = Encode::accept_read(Encode::read_bytes(vec, Encode::SJIS)) {
            return v;
        }
        if let Some(v) = Encode::accept_read(Encode::read_bytes(vec, Encode::EucJp)) {
            return v;
        }
        if let Some(v) = Encode::accept_read(Encode::read_bytes(vec, Encode::GBK)) {
            return v;
        }
        if let Some(v) = Encode::accept_read(Encode::read_bytes(vec, Encode::UTF16LE)) {
            return v;
        }
        (lossy_utf8(vec), Encode::Unknown)
    }
}

/// `name`, a blank, and `msg`.
pub open spec fn name_and_msg(name: Seq<char>, msg: Seq<char>) -> Seq<char> {
    name + seq![' '] + msg
}

/// The contents of an external file and the message to show: the text and no message when it
/// was read; otherwise no text and the file name followed by what went wrong (no read
/// permission, not found, or a problem opening it). A permission error on a file that the
/// permission check found readable is reported by its own message.
pub open spec fn external_file_outcome(
    read: Result<String, (ReadErrorKind, String)>,
    is_readable: bool,
    filenm: Seq<char>,
    lang: Lang,
) -> (Seq<char>, Seq<char>) {
    match read {
        Ok(s) => (s@, Seq::empty()),
        Err((kind, err)) => match kind {
            ReadErrorKind::PermissionDenied => if !is_readable {
                (Seq::empty(), name_and_msg(filenm, lang.no_read_permission@))
            } else {
                (Seq::empty(), err@)
            },
            ReadErrorKind::NotFound => (Seq::empty(), name_and_msg(filenm, lang.file_not_found@)),
            ReadErrorKind::Other => (Seq::empty(), name_and_msg(filenm, lang.file_opening_problem@)),
        },
    }
}

/// `name`, a blank, and `msg`, as a new string.
fn join_name_msg(name: &str, msg: &str) -> (s: String)
    ensures
        s@ == name_and_msg(name@, msg@),
{
    let mut s = string_of(name);
    s.push(' ');
    s.push_str(msg);
    s
}

/// What `encoding_rs::Encoding::for_bom` finds at the start of `b`: the name of the encoding
/// whose byte-order mark `b` starts with, and the mark's length.
pub open spec fn sniffed_bom(b: Seq<u8>) -> Option<(Seq<char>, usize)> {
    if b.len() >= 3 && b[0] == 0xEF && b[1] == 0xBB && b[2] == 0xBF {
        Some(("UTF-8"@, 3))
    } else if b.len() >= 2 && b[0] == 0xFF && b[1] == 0xFE {
        Some(("UTF-16LE"@, 2))
    } else if b.len() >= 2 && b[0] == 0xFE && b[1] == 0xFF {
        Some(("UTF-16BE"@, 2))
    } else {
        None
    }
}

/// Calls `encoding_rs::Encoding::for_bom`, which looks for the UTF-8, UTF-16LE and UTF-16BE
/// byte-order marks in that order, and gives back the name of the encoding found with the
/// length of its mark.
#[verifier::external_body]
fn bom_sniff(buffer: &[u8]) -> (r: Option<(String, usize)>)
    ensures
        r matches Some(v) ==> sniffed_bom(buffer@) == Some((v.0@, v.1)),
        r is None ==> sniffed_bom(buffer@) is None,
{
    match encoding_rs::Encoding::for_bom(buffer) {
        Some((enc, len)) => Some((enc.name().to_string(), len)),
        None => None,
    }
}

/// The byte-order mark of a file whose first bytes are `head`: none where fewer than three
/// bytes could be read, else the UTF-8 or UTF-16 mark it starts with.
pub open spec fn file_bom(head: Seq<u8>) -> Option<Encode> {
    if head.len() < 3 {
        None
    } else if head[0] == 0xEF && head[1] == 0xBB && head[2] == 0xBF {
        Some(Encode::UTF8)
    } else if head[0] == 0xFF && head[1] == 0xFE {
        Some(Encode::UTF16LE)
    } else if head[0] == 0xFE && head[1] == 0xFF {
        Some(Encode::UTF16BE)
    } else {
        None
    }
}

impl File {
    /// The byte-order mark of a file whose first bytes (as many as could be read, up to
    /// three) are `head` (see `file_bom`).
    pub fn check_file_bom(head: &[u8]) -> (r: Option<Encode>)
        ensures
            r == file_bom(head@),
    {
        if head.len() < 3 {
            return None;
        }
        let utf16le = string_of("UTF-16LE");
        let utf16be = string_of("UTF-16BE");
        let utf8 = string_of("UTF-8");
        proof {
            reveal_strlit("UTF-16LE");
            reveal_strlit("UTF-16BE");
            reveal_strlit("UTF-8");
            assert("UTF-16LE"@[6] != "UTF-16BE"@[6]);
            assert("UTF-8"@.len() != "UTF-16LE"@.len());
            assert("UTF-8"@.len() != "UTF-16BE"@.len());
        }
        match bom_sniff(head) {
            Some((name, _)) => {
                if str_eq(name.as_str(), utf16le.as_str()) {
                    Some(Encode::UTF16LE)
                } else if str_eq(name.as_str(), utf16be.as_str()) {
                    Some(Encode::UTF16BE)
                } else if str_eq(name.as_str(), utf8.as_str()) {
                    Some(Encode::UTF8)
                } else {
                    Some(Encode::Unknown)
                }
            },
            None => None,
        }
    }

    /// Is `path` the root directory?
    pub fn is_root_dir(path: &str) -> (b: bool)
        ensures
            b == (path@ == seq!['/']),
    {
        let mut root = String::new();
        root.push('/');
        str_eq(path, root.as_str())
    }

    /// The contents and message for an external file, from the outcome of reading it, whether
    /// it is readable, and its file name.
    pub fn external_file_outcome(
        read: Result<String, (ReadErrorKind, String)>,
        is_readable: bool,
        filenm: &str,
        lang: &Lang,
    ) -> (r: (String, String))
        ensures
            r.0@ == external_file_outcome(read, is_readable, filenm@, *lang).0,
            r.1@ == external_file_outcome(read, is_readable, filenm@, *lang).1,
    {
        match read {
            Ok(s) => (s, String::new()),
            Err((kind, err)) => match kind {
                ReadErrorKind::PermissionDenied => if !is_readable {
                    (String::new(), join_name_msg(filenm, lang.no_read_permission.as_str()))
                } else {
                    (String::new(), err)
                },
                ReadErrorKind::NotFound => (String::new(), join_name_msg(filenm, lang.file_not_found.as_str())),
                ReadErrorKind::Other => (String::new(), join_name_msg(filenm, lang.file_opening_problem.as_str())),
            },
        }
    }
}

/// An entry of a directory listing as the file system reports it: its path as displayed, its
/// last part, whether the path is a directory, and whether its metadata says it is one (`None`
/// where the metadata cannot be read).
#[derive(Debug, Clone, PartialEq, Eq)]
pub struct DirEntryInfo {
    pub path: String,
    pub file_name: String,
    pub is_dir: bool,
    pub meta_is_dir: Option<bool>,
}

/// A listing entry as plain values.
pub open spec fn entry_view(e: DirEntryInfo) -> (Seq<char>, Seq<char>, bool, Option<bool>) {
    (e.path@, e.file_name@, e.is_dir, e.meta_is_dir)
}

/// A listed file as plain values: its name and whether it is a directory.
pub open spec fn file_view(f: File) -> (Seq<char>, bool) {
    (f.name@, f.is_dir)
}

/// The index just after the last `/` among the first `i` characters of `s`; 0 where there is none.
pub open spec fn after_last_slash(s: Seq<char>, i: int) -> int
    decreases i,
{
    if i <= 0 {
        0
    } else if s[i - 1] == '/' {
        i
    } else {
        after_last_slash(s, i - 1)
    }
}

/// The directory that completing `target` lists: `target` up to and including its last `/`,
/// or `.` where it has none.
pub open spec fn tab_comp_base_dir(target: Seq<char>) -> Seq<char> {
    let k = after_last_slash(target, target.len() as int);
    if k == 0 {
        "."@
    } else {
        target.subrange(0, k)
    }
}

/// What completion makes of a listing entry: nothing where a directory is wanted and the entry
/// is none, or where its path does not contain `target`; else its name (the last part, or the
/// whole path without `./` when listing the current directory) and whether it is a directory
/// (counted as one where its metadata cannot be read).
pub open spec fn comp_entry(
    e: (Seq<char>, Seq<char>, bool, Option<bool>),
    target: Seq<char>,
    is_dir_only: bool,
    is_full_path_filenm: bool,
    base_is_dot: bool,
) -> Option<(Seq<char>, bool)> {
    if (!is_dir_only || e.2) && contains_sub(e.0, target) {
        let name = if !is_full_path_filenm {
            e.1
        } else if base_is_dot {
            replace_spec(e.0, "./"@, Seq::empty())
        } else {
            e.0
        };
        Some(
            (
                name,
                match e.3 {
                    Some(d) => d,
                    None => true,
                },
            ),
        )
    } else {
        None
    }
}

/// The completion candidates of the entries, in listing order.
pub open spec fn comp_candidates(
    es: Seq<(Seq<char>, Seq<char>, bool, Option<bool>)>,
    target: Seq<char>,
    is_dir_only: bool,
    is_full_path_filenm: bool,
    base_is_dot: bool,
) -> Seq<(Seq<char>, bool)>
    decreases es.len(),
{
    if es.len() == 0 {
        Seq::empty()
    } else {
        let rest = comp_candidates(es.drop_last(), target, is_dir_only, is_full_path_filenm, base_is_dot);
        match comp_entry(es.last(), target, is_dir_only, is_full_path_filenm, base_is_dot) {
            Some(f) => rest.push(f),
            None => rest,
        }
    }
}

/// Does name `a` come before name `b`? Names compare character by character, by code point,
/// as `String`s do; a proper prefix comes first.
pub open spec fn name_lt(a: Seq<char>, b: Seq<char>) -> bool
    decreases a.len(),
{
    if a.len() == 0 {
        b.len() > 0
    } else if b.len() == 0 {
        false
    } else if a[0] != b[0] {
        (a[0] as u32) < (b[0] as u32)
    } else {
        name_lt(a.drop_first(), b.drop_first())
    }
}

/// Where a stable insertion puts a file named `x` into `s`, searching from `j`: before the first
/// file whose name comes after `x`.
pub open spec fn insert_pos(s: Seq<(Seq<char>, bool)>, x: Seq<char>, j: int) -> int
    decreases s.len() - j,
{
    if j >= s.len() {
        s.len() as int
    } else if name_lt(x, s[j].0) {
        j
    } else {
        insert_pos(s, x, j + 1)
    }
}

/// The files sorted by name, files of equal names keeping their order (a stable sort).
pub open spec fn sorted_by_name(s: Seq<(Seq<char>, bool)>) -> Seq<(Seq<char>, bool)>
    decreases s.len(),
{
    if s.len() == 0 {
        s
    } else {
        let r = sorted_by_name(s.drop_last());
        r.insert(insert_pos(r, s.last().0, 0), s.last())
    }
}

/// The files that completing `target` offers among the listed entries, sorted by name.
pub open spec fn tab_comp_files(
    target: Seq<char>,
    is_dir_only: bool,
    is_full_path_filenm: bool,
    es: Seq<(Seq<char>, Seq<char>, bool, Option<bool>)>,
) -> Seq<(Seq<char>, bool)> {
    sorted_by_name(comp_candidates(es, target, is_dir_only, is_full_path_filenm, tab_comp_base_dir(target) == "."@))
}

/// The directory that completing `target_path` lists (see `tab_comp_base_dir`).
pub fn get_tab_comp_base_dir(target_path: &str) -> (r: String)
    ensures
        r@ == tab_comp_base_dir(target_path@),
{
    let t = str_to_chars(target_path);
    let n = t.len();
    let mut i: usize = n;
    while i > 0 && t[i - 1] != '/'
        invariant
            n == t@.len(),
            t@ == target_path@,
            i <= n,
            after_last_slash(t@, n as int) == after_last_slash(t@, i as int),
        decreases i,
    {
        i = i - 1;
    }
    if i == 0 {
        string_of(".")
    } else {
        let mut v: Vec<char> = Vec::new();
        let mut j: usize = 0;
        while j < i
            invariant
                n == t@.len(),
                i <= n,
                j <= i,
                v@ == t@.subrange(0, j as int),
            decreases i - j,
        {
            v.push(t[j]);
            proof {
                assert(t@.subrange(0, j + 1) =~= t@.subrange(0, j as int).push(t@[j as int]));
            }
            j = j + 1;
        }
        chars_to_string(v.as_slice())
    }
}

/// Does name `a` come before name `b` (see `name_lt`)?
fn name_lt_exec(a: &[char], b: &[char]) -> (r: bool)
    ensures
        r == name_lt(a@, b@),
{
    let na = a.len();
    let nb = b.len();
    let mut i: usize = 0;
    proof {
        assert(a@.skip(0) =~= a@);
        assert(b@.skip(0) =~= b@);
    }
    while i < na && i < nb && a[i] == b[i]
        invariant
            na == a@.len(),
            nb == b@.len(),
            i <= na,
            i <= nb,
            name_lt(a@, b@) == name_lt(a@.skip(i as int), b@.skip(i as int)),
        decreases na - i,
    {
        proof {
            assert(a@.skip(i as int).drop_first() =~= a@.skip(i + 1));
            assert(b@.skip(i as int).drop_first() =~= b@.skip(i + 1));
        }
        i = i + 1;
    }
    if i == na {
        i < nb
    } else if i == nb {
        false
    } else {
        (a[i] as u32) < (b[i] as u32)
    }
}

/// The completion candidate of one listing entry (see `comp_entry`).
fn comp_entry_exec(e: &DirEntryInfo, target: &[char], is_dir_only: bool, is_full_path_filenm: bool, base_is_dot: bool) -> (r: Option<File>)
    ensures
        r matches Some(f) ==> comp_entry(entry_view(*e), target@, is_dir_only, is_full_path_filenm, base_is_dot) == Some(file_view(f)),
        r is None ==> comp_entry(entry_view(*e), target@, is_dir_only, is_full_path_filenm, base_is_dot) is None,
{
    if is_dir_only && !e.is_dir {
        return None;
    }
    let path = str_to_chars(e.path.as_str());
    if !has_sub(path.as_slice(), target) {
        return None;
    }
    let name = if !is_full_path_filenm {
        e.file_name.clone()
    } else if base_is_dot {
        let dot_slash = str_to_chars("./");
        let empty: Vec<char> = Vec::new();
        proof {
            reveal_strlit("./");
        }
        chars_to_string(replace_all(path.as_slice(), dot_slash.as_slice(), empty.as_slice()).as_slice())
    } else {
        e.path.clone()
    };
    let is_dir = match e.meta_is_dir {
        Some(d) => d,
        None => true,
    };
    Some(File { name, is_dir })
}

/// Inserts `f` into `out` where a stable insertion by name puts it.
fn insert_by_name(out: &mut Vec<File>, names: &mut Vec<Vec<char>>, f: File)
    requires
        old(names)@.len() == old(out)@.len(),
        forall|k: int| 0 <= k < old(out)@.len() ==> #[trigger] old(names)@[k]@ == old(out)@[k].name@,
    ensures
        final(names)@.len() == final(out)@.len(),
        forall|k: int| 0 <= k < final(out)@.len() ==> #[trigger] final(names)@[k]@ == final(out)@[k].name@,
        final(out)@.map_values(|g: File| file_view(g)) == old(out)@.map_values(|g: File| file_view(g)).insert(
            insert_pos(old(out)@.map_values(|g: File| file_view(g)), f.name@, 0),
            file_view(f),
        ),
{
    let ghost s = old(out)@.map_values(|g: File| file_view(g));
    let name = str_to_chars(f.name.as_str());
    let n = out.len();
    let mut j: usize = 0;
    while j < n && !name_lt_exec(name.as_slice(), names[j].as_slice())
        invariant
            n == out@.len(),
            names@.len() == out@.len(),
            forall|k: int| 0 <= k < out@.len() ==> #[trigger] names@[k]@ == out@[k].name@,
            s == out@.map_values(|g: File| file_view(g)),
            name@ == f.name@,
            j <= n,
            insert_pos(s, f.name@, 0) == insert_pos(s, f.name@, j as int),
        decreases n - j,
    {
        proof {
            assert(s[j as int].0 == out@[j as int].name@);
        }
        j = j + 1;
    }
    proof {
        if j < n {
            assert(s[j as int].0 == out@[j as int].name@);
        }
        assert(insert_pos(s, f.name@, j as int) == j);
    }
    let ghost fv = file_view(f);
    out.insert(j, f);
    names.insert(j, name);
    proof {
        assert(out@.map_values(|g: File| file_view(g)) =~= s.insert(j as int, fv));
    }
}

/// The files that completing `target_path` offers among the entries of the listed directory
/// (see `tab_comp_files`); the entries are those of the directory `get_tab_comp_base_dir` names.
pub fn get_tab_comp_files(target_path: &str, is_dir_only: bool, is_full_path_filenm: bool, entries: &Vec<DirEntryInfo>) -> (r: Vec<File>)
    ensures
        r@.map_values(|g: File| file_view(g)) == tab_comp_files(
            target_path@,
            is_dir_only,
            is_full_path_filenm,
            entries@.map_values(|e: DirEntryInfo| entry_view(e)),
        ),
{
    let base = get_tab_comp_base_dir(target_path);
    let dot = string_of(".");
    let base_is_dot = str_eq(base.as_str(), dot.as_str());
    let target = str_to_chars(target_path);
    let ghost es = entries@.map_values(|e: DirEntryInfo| entry_view(e));
    let ghost cands = comp_candidates(es, target_path@, is_dir_only, is_full_path_filenm, base_is_dot);
    let mut out: Vec<File> = Vec::new();
    let mut names: Vec<Vec<char>> = Vec::new();
    let n = entries.len();
    let mut i: usize = 0;
    let ghost mut taken: Seq<(Seq<char>, bool)> = Seq::empty();
    proof {
        assert(es.take(0) =~= Seq::<(Seq<char>, Seq<char>, bool, Option<bool>)>::empty());
        assert(out@.map_values(|g: File| file_view(g)) =~= Seq::<(Seq<char>, bool)>::empty());
    }
    while i < n
        invariant
            n == entries@.len(),
            es == entries@.map_values(|e: DirEntryInfo| entry_view(e)),
            target@ == target_path@,
            i <= n,
            taken == comp_candidates(es.take(i as int), target_path@, is_dir_only, is_full_path_filenm, base_is_dot),
            out@.map_values(|g: File| file_view(g)) == sorted_by_name(taken),
            names@.len() == out@.len(),
            forall|k: int| 0 <= k < out@.len() ==> #[trigger] names@[k]@ == out@[k].name@,
        decreases n - i,
    {
        proof {
            assert(es.take(i + 1).drop_last() =~= es.take(i as int));
            assert(es.take(i + 1).last() == entry_view(entries@[i as int]));
        }
        match comp_entry_exec(&entries[i], target.as_slice(), is_dir_only, is_full_path_filenm, base_is_dot) {
            Some(f) => {
                let ghost fv = file_view(f);
                let ghost before = taken;
                insert_by_name(&mut out, &mut names, f);
                proof {
                    taken = before.push(fv);
                    assert(taken.drop_last() =~= before);
                }
            },
            None => {},
        }
        i = i + 1;
    }
    proof {
        assert(es.take(n as int) =~= es);
        assert(base_is_dot == (tab_comp_base_dir(target_path@) == "."@));
    }
    out
}

/// Are the files in name order?
pub open spec fn is_sorted_by_name(s: Seq<(Seq<char>, bool)>) -> bool {
    forall|i: int, j: int| 0 <= i < j < s.len() ==> !name_lt(#[trigger] s[j].0, #[trigger] s[i].0)
}

/// No name comes before itself.
pub proof fn lemma_name_lt_irreflexive(a: Seq<char>)
    ensures
        !name_lt(a, a),
    decreases a.len(),
{
    if a.len() > 0 {
        lemma_name_lt_irreflexive(a.drop_first());
    }
}

/// The order of names is transitive.
pub proof fn lemma_name_lt_transitive(a: Seq<char>, b: Seq<char>, c: Seq<char>)
    requires
        name_lt(a, b),
        name_lt(b, c),
    ensures
        name_lt(a, c),
    decreases a.len(),
{
    if a.len() > 0 && b.len() > 0 && c.len() > 0 && a[0] == b[0] && b[0] == c[0] {
        lemma_name_lt_transitive(a.drop_first(), b.drop_first(), c.drop_first());
    }
}

proof fn lemma_insert_pos(s: Seq<(Seq<char>, bool)>, x: Seq<char>, j: int)
    requires
        0 <= j <= s.len(),
    ensures
        j <= insert_pos(s, x, j) <= s.len(),
        forall|i: int| j <= i < insert_pos(s, x, j) ==> !name_lt(x, #[trigger] s[i].0),
        insert_pos(s, x, j) < s.len() ==> name_lt(x, s[insert_pos(s, x, j)].0),
    decreases s.len() - j,
{
    if j < s.len() && !name_lt(x, s[j].0) {
        lemma_insert_pos(s, x, j + 1);
    }
}

/// Sorting by name gives the same files, in name order.
pub proof fn lemma_sorted_by_name(s: Seq<(Seq<char>, bool)>)
    ensures
        is_sorted_by_name(sorted_by_name(s)),
        sorted_by_name(s).to_multiset() == s.to_multiset(),
        sorted_by_name(s).len() == s.len(),
    decreases s.len(),
{
    broadcast use vstd::seq_lib::to_multiset_build, vstd::seq_lib::to_multiset_insert;

    if s.len() > 0 {
        let r = sorted_by_name(s.drop_last());
        lemma_sorted_by_name(s.drop_last());
        let x = s.last();
        let k = insert_pos(r, x.0, 0);
        lemma_insert_pos(r, x.0, 0);
        let t = r.insert(k, x);
        assert(t == sorted_by_name(s));
        assert forall|i: int, j: int| 0 <= i < j < t.len() implies !name_lt(#[trigger] t[j].0, #[trigger] t[i].0) by {
            if j < k {
                assert(t[i] == r[i] && t[j] == r[j]);
            } else if j == k {
                assert(t[i] == r[i] && t[j] == x);
            } else if i < k {
                assert(t[i] == r[i] && t[j] == r[j - 1]);
            } else if i == k {
                assert(t[i] == x && t[j] == r[j - 1]);
                if name_lt(r[j - 1].0, x.0) {
                    lemma_name_lt_transitive(r[j - 1].0, x.0, r[k].0);
                    if k == j - 1 {
                        lemma_name_lt_irreflexive(r[k].0);
                    }
                }
            } else {
                assert(t[i] == r[i - 1] && t[j] == r[j - 1]);
            }
        }
        assert(s.drop_last().push(x) =~= s);
    }
}

} // verus!
