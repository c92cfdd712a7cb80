//! The text of a tab as bytes on disk: the byte-order mark a file starts with, and the bytes
//! the text is written as in each encoding.
use crate::files::{file_bom, strip_utf8_bom};
use crate::header::HeaderFile;
use crate::lang::Lang;
use crate::model::Encode;
use crate::text::{str_eq, str_to_chars, string_of};
use vstd::prelude::*;
use vstd::utf8::{encode_scalar, encode_utf8, encode_utf8_decode_utf8, encode_utf8_first_scalar, encode_utf8_valid_utf8, valid_utf8};
use vstd::string::StringSliceAdditionalSpecFns;

verus! {

/// Declares `ropey::Rope`, the text of a buffer.
#[verifier::external_type_specification]
#[verifier::external_body]
pub struct ExRope(ropey::Rope);

/// The characters a rope holds.
pub uninterp spec fn rope_text(r: ropey::Rope) -> Seq<char>;

/// `Rope`'s derived `clone` clones the shared root of the tree, so the copy holds the same
/// characters.
pub assume_specification[ <ropey::Rope as Clone>::clone ](r: &ropey::Rope) -> (c: ropey::Rope)
    ensures
        rope_text(c) == rope_text(*r),
;

/// Builds a rope from `s` with `ropey::RopeBuilder`: the rope holds the characters of `s`.
#[verifier::external_body]
fn rope_of(s: &str) -> (r: ropey::Rope)
    ensures
        rope_text(r) == s@,
{
    let mut b = ropey::RopeBuilder::new();
    b.append(s);
    b.finish()
}

/// The text of the rope as a `String` (`Rope`'s `Display` writes its chunks in order).
#[verifier::external_body]
fn rope_string(r: &ropey::Rope) -> (s: String)
    ensures
        s@ == rope_text(*r),
{
    r.to_string()
}

/// What `encoding_rs::Encoding::encode` gives for `text` in the encoding `enc` stands for: the
/// bytes and whether characters that cannot be encoded were replaced.
pub uninterp spec fn legacy_encoded(enc: Encode, text: Seq<char>) -> (Seq<u8>, bool);

/// Encodes `text` with `encoding_rs::Encoding::encode` for the encoding `enc` stands for
/// (UTF-8 for `UTF8` and `Unknown`), and gives back the bytes and whether characters were
/// replaced; the contract names the result. Where the output encoding is UTF-8 the source
/// hands back the UTF-8 bytes of the text with no replacement. `encode` panics only where the
/// size of its output buffer overflows `usize`, which the bound on the input excludes.
#[verifier::external_body]
fn encode_with(enc: Encode, text: &str) -> (r: (Vec<u8>, bool))
    requires
        text.spec_bytes().len() <= usize::MAX / 8,
    ensures
        (r.0@, r.1) == legacy_encoded(enc, text@),
        (enc == Encode::UTF8 || enc == Encode::Unknown) ==> r.0@ == encode_utf8(text@) && !r.1,
{
    let encoding: &'static encoding_rs::Encoding = match enc {
        Encode::UTF16LE => encoding_rs::UTF_16LE,
        Encode::UTF16BE => encoding_rs::UTF_16BE,
        Encode::SJIS => encoding_rs::SHIFT_JIS,
        Encode::JIS => encoding_rs::ISO_2022_JP,
        Encode::EucJp => encoding_rs::EUC_JP,
        Encode::GBK => encoding_rs::GBK,
        Encode::UTF8 | Encode::Unknown => encoding_rs::UTF_8,
    };
    let (cow, _, had_errors) = encoding.encode(text);
    (cow.into_owned(), had_errors)
}

/// The UTF-16 code units of a character: itself below U+10000, else a surrogate pair.
pub open spec fn utf16_of_char(c: char) -> Seq<u16> {
    let n = c as u32;
    if n < 0x10000 {
        seq![n as u16]
    } else {
        let m = (n - 0x10000) as int;
        seq![(0xD800 + m / 0x400) as u16, (0xDC00 + m % 0x400) as u16]
    }
}

/// The UTF-16 code units of a text.
pub open spec fn utf16_units(s: Seq<char>) -> Seq<u16>
    decreases s.len(),
{
    if s.len() == 0 {
        Seq::empty()
    } else {
        utf16_units(s.drop_last()) + utf16_of_char(s.last())
    }
}

/// The two bytes of a code unit, low byte first if `little`.
pub open spec fn u16_bytes(u: u16, little: bool) -> Seq<u8> {
    if little {
        seq![(u % 256) as u8, (u / 256) as u8]
    } else {
        seq![(u / 256) as u8, (u % 256) as u8]
    }
}

/// The bytes of a sequence of code units, each low byte first if `little`.
pub open spec fn units_bytes(us: Seq<u16>, little: bool) -> Seq<u8>
    decreases us.len(),
{
    if us.len() == 0 {
        Seq::empty()
    } else {
        units_bytes(us.drop_last(), little) + u16_bytes(us.last(), little)
    }
}

/// The bytes a text is written as in `enc`, and whether characters were replaced. UTF-16 is
/// written little-endian only where the byte-order mark is the little-endian one.
pub open spec fn encoded_text(text: Seq<char>, enc: Encode, bom: Option<Encode>) -> (Seq<u8>, bool) {
    match enc {
        Encode::UTF16LE | Encode::UTF16BE => (units_bytes(utf16_units(text), bom == Some(Encode::UTF16LE)), false),
        Encode::UTF8 => (encode_utf8(text), false),
        _ => legacy_encoded(enc, text),
    }
}

/// The byte-order mark written before the text.
pub open spec fn bom_bytes(bom: Option<Encode>) -> Seq<u8> {
    match bom {
        Some(Encode::UTF16LE) => seq![0xFFu8, 0xFEu8],
        Some(Encode::UTF16BE) => seq![0xFEu8, 0xFFu8],
        Some(Encode::UTF8) => seq![0xEFu8, 0xBBu8, 0xBFu8],
        _ => Seq::empty(),
    }
}

/// The byte-order mark a choice of the encoding dialog asks for: UTF-16 always has one, UTF-8
/// only where the choice reads "BOM" followed by the word for "with".
pub open spec fn select_item_bom(lang: Lang, encode: Encode, bom_item_name: Seq<char>) -> Option<Encode> {
    match encode {
        Encode::UTF16LE => Some(Encode::UTF16LE),
        Encode::UTF16BE => Some(Encode::UTF16BE),
        Encode::UTF8 => if bom_item_name == "BOM"@ + lang.with@ {
            Some(Encode::UTF8)
        } else {
            None
        },
        _ => None,
    }
}

/// The text of a tab.
#[derive(Debug, Clone, Default, PartialEq, Eq)]
pub struct TextBuffer {
    pub text: ropey::Rope,
}

/// Appends the two bytes of `u`, low byte first if `little`.
fn push_u16(out: &mut Vec<u8>, u: u16, little: bool)
    ensures
        final(out)@ == old(out)@ + u16_bytes(u, little),
{
    let lo = (u % 256) as u8;
    let hi = (u / 256) as u8;
    if little {
        out.push(lo);
        out.push(hi);
    } else {
        out.push(hi);
        out.push(lo);
    }
}

proof fn lemma_units_bytes_push(us: Seq<u16>, u: u16, little: bool)
    ensures
        units_bytes(us.push(u), little) == units_bytes(us, little) + u16_bytes(u, little),
{
    assert(us.push(u).drop_last() =~= us);
}

/// The UTF-16 bytes of `text`, each code unit low byte first if `little`.
fn utf16_bytes(text: &[char], little: bool) -> (r: Vec<u8>)
    ensures
        r@ == units_bytes(utf16_units(text@), little),
{
    let n = text.len();
    let mut out: Vec<u8> = Vec::new();
    let mut i: usize = 0;
    proof {
        assert(text@.take(0) =~= Seq::<char>::empty());
    }
    while i < n
        invariant
            n == text@.len(),
            i <= n,
            out@ == units_bytes(utf16_units(text@.take(i as int)), little),
        decreases n - i,
    {
        let c = text[i];
        let ghost before = utf16_units(text@.take(i as int));
        proof {
            assert(text@.take(i + 1).drop_last() =~= text@.take(i as int));
            assert(text@.take(i + 1).last() == c);
        }
        let v = c as u32;
        if v < 0x10000 {
            let u = v as u16;
            push_u16(&mut out, u, little);
            proof {
                lemma_units_bytes_push(before, u, little);
                assert(before.push(u) =~= before + utf16_of_char(c));
            }
        } else {
            let m = v - 0x10000;
            let hi = (0xD800 + m / 0x400) as u16;
            let lo = (0xDC00 + m % 0x400) as u16;
            push_u16(&mut out, hi, little);
            push_u16(&mut out, lo, little);
            proof {
                lemma_units_bytes_push(before, hi, little);
                lemma_units_bytes_push(before.push(hi), lo, little);
                assert(before.push(hi).push(lo) =~= before + utf16_of_char(c));
            }
        }
        i = i + 1;
    }
    proof {
        assert(text@.take(n as int) =~= text@);
    }
    out
}

/// Appends the bytes of `b` to `out`.
fn append_bytes(out: &mut Vec<u8>, b: &[u8])
    ensures
        final(out)@ == old(out)@ + b@,
{
    let n = b.len();
    let mut i: usize = 0;
    while i < n
        invariant
            n == b@.len(),
            i <= n,
            out@ == old(out)@ + b@.take(i as int),
        decreases n - i,
    {
        out.push(b[i]);
        proof {
            assert(b@.take(i + 1) =~= b@.take(i as int).push(b@[i as int]));
        }
        i = i + 1;
    }
    proof {
        assert(b@.take(n as int) =~= b@);
    }
}

impl TextBuffer {
    /// The byte-order mark a choice of the encoding dialog asks for (see `select_item_bom`).
    pub fn get_select_item_bom(lang: &Lang, encode: &Encode, bom_item_name: &str) -> (r: Option<Encode>)
        ensures
            r == select_item_bom(*lang, *encode, bom_item_name@),
    {
        match *encode {
            Encode::UTF16LE => Some(Encode::UTF16LE),
            Encode::UTF16BE => Some(Encode::UTF16BE),
            Encode::UTF8 => {
                let mut name = string_of("BOM");
                name.push_str(lang.with.as_str());
                if str_eq(bom_item_name, name.as_str()) {
                    Some(Encode::UTF8)
                } else {
                    None
                }
            },
            _ => None,
        }
    }

    /// The bytes of `vec` after the byte-order mark of `h_file`; `vec` is left empty.
    pub fn add_bom(&mut self, vec: &mut Vec<u8>, h_file: &HeaderFile) -> (r: Vec<u8>)
        ensures
            r@ == bom_bytes(h_file.bom) + old(vec)@,
            final(vec)@ == Seq::<u8>::empty(),
            final(self).text == old(self).text,
    {
        let mut bom_vec: Vec<u8> = Vec::new();
        match h_file.bom {
            Some(Encode::UTF16LE) => {
                bom_vec.push(0xFF);
                bom_vec.push(0xFE);
            },
            Some(Encode::UTF16BE) => {
                bom_vec.push(0xFE);
                bom_vec.push(0xFF);
            },
            Some(Encode::UTF8) => {
                bom_vec.push(0xEF);
                bom_vec.push(0xBB);
                bom_vec.push(0xBF);
            },
            _ => {},
        }
        proof {
            assert(bom_vec@ =~= bom_bytes(h_file.bom));
        }
        bom_vec.append(vec);
        bom_vec
    }

    /// The bytes the text is written as in the encoding of `h_file`, and whether characters
    /// had to be replaced (see `encoded_text`).
    pub fn encode(&mut self, h_file: &HeaderFile) -> (r: (Vec<u8>, bool))
        requires
            encode_utf8(rope_text(old(self).text)).len() <= usize::MAX / 8,
        ensures
            (r.0@, r.1) == encoded_text(rope_text(old(self).text), h_file.enc, h_file.bom),
            rope_text(final(self).text) == rope_text(old(self).text),
    {
        let s = rope_string(&self.text);
        match h_file.enc {
            Encode::UTF16LE | Encode::UTF16BE => {
                let little = match h_file.bom {
                    Some(Encode::UTF16LE) => true,
                    _ => false,
                };
                let chars = str_to_chars(s.as_str());
                (utf16_bytes(chars.as_slice(), little), false)
            },
            Encode::UTF8 => {
                let mut out: Vec<u8> = Vec::new();
                append_bytes(&mut out, s.as_str().as_bytes());
                proof {
                    assert(out@ =~= encode_utf8(s@));
                }
                (out, false)
            },
            _ => encode_with(h_file.enc, s.as_str()),
        }
    }

    /// The bytes to write for the text: the byte-order mark and the encoded text, or `None`
    /// where characters could not be encoded (the file is then left as it is).
    pub fn write_bytes(&mut self, h_file: &HeaderFile) -> (r: Option<Vec<u8>>)
        requires
            encode_utf8(rope_text(old(self).text)).len() <= usize::MAX / 8,
        ensures
            r is None <==> encoded_text(rope_text(old(self).text), h_file.enc, h_file.bom).1,
            r matches Some(b) ==> b@ == bom_bytes(h_file.bom) + encoded_text(rope_text(old(self).text), h_file.enc, h_file.bom).0,
            rope_text(final(self).text) == rope_text(old(self).text),
    {
        let (mut bytes, had_errors) = self.encode(h_file);
        if had_errors {
            None
        } else {
            Some(self.add_bom(&mut bytes, h_file))
        }
    }

    /// A buffer holding `s`.
    pub fn from_text(s: &str) -> (b: TextBuffer)
        ensures
            rope_text(b.text) == s@,
    {
        TextBuffer { text: rope_of(s) }
    }

    /// The text of the buffer.
    pub fn to_text(&self) -> (s: String)
        ensures
            s@ == rope_text(self.text),
    {
        rope_string(&self.text)
    }
}

/// The byte-order mark written before a text is the one found when the first three bytes of
/// the file are read back.
pub proof fn lemma_bom_round_trip(bom: Encode, rest: Seq<u8>)
    requires
        bom == Encode::UTF8 || bom == Encode::UTF16LE || bom == Encode::UTF16BE,
        bom_bytes(Some(bom)).len() + rest.len() >= 3,
    ensures
        file_bom(bom_bytes(Some(bom)) + rest) == Some(bom),
{
    let b = bom_bytes(Some(bom)) + rest;
    assert(b[0] == bom_bytes(Some(bom))[0]);
    assert(b[1] == bom_bytes(Some(bom))[1]);
}

/// Text written as UTF-8 reads back as itself: the bytes written are valid UTF-8, without the
/// byte-order mark they are the UTF-8 of the text, and no other text has that UTF-8. Written
/// without a mark, this holds of text that does not start with U+FEFF (whose UTF-8 is the mark).
pub proof fn lemma_utf8_write_read(text: Seq<char>, bom: Option<Encode>)
    requires
        bom is None || bom == Some(Encode::UTF8),
        bom is None ==> (text.len() == 0 || text[0] != '\u{FEFF}'),
    ensures
        valid_utf8(bom_bytes(bom) + encoded_text(text, Encode::UTF8, bom).0),
        strip_utf8_bom(bom_bytes(bom) + encoded_text(text, Encode::UTF8, bom).0) == encode_utf8(text),
        forall|x: Seq<char>| #[trigger] encode_utf8(x) == encode_utf8(text) ==> x == text,
{
    let e = encode_utf8(text);
    encode_utf8_valid_utf8(text);
    assert forall|x: Seq<char>| #[trigger] encode_utf8(x) == encode_utf8(text) implies x == text by {
        encode_utf8_decode_utf8(x);
        encode_utf8_decode_utf8(text);
    }
    let mark = seq!['\u{FEFF}'];
    assert(vstd::utf8::leading_byte_width_3(0xFEFFu32) == 0xEFu8) by (bit_vector);
    assert(vstd::utf8::second_last_continuation_byte(0xFEFFu32) == 0xBBu8) by (bit_vector);
    assert(vstd::utf8::last_continuation_byte(0xFEFFu32) == 0xBFu8) by (bit_vector);
    assert(encode_scalar(0xFEFFu32) =~= seq![0xEFu8, 0xBBu8, 0xBFu8]);
    if bom == Some(Encode::UTF8) {
        let full = mark + text;
        assert(full.drop_first() =~= text);
        assert(full[0] as u32 == 0xFEFFu32);
        assert(encode_utf8(full) == encode_scalar(full[0] as u32) + encode_utf8(full.drop_first()));
        assert(bom_bytes(bom) + e =~= encode_utf8(full));
        encode_utf8_valid_utf8(full);
        assert((bom_bytes(bom) + e).skip(3) =~= e);
    } else {
        assert(bom_bytes(bom) + e =~= e);
        if text.len() > 0 {
            encode_utf8_first_scalar(text);
            if e.len() >= 3 && e[0] == 0xEF && e[1] == 0xBB && e[2] == 0xBF {
                assert(vstd::utf8::codepoint_width_3(0xEFu8, 0xBBu8, 0xBFu8) == 0xFEFFu32) by (bit_vector);
                assert(text[0] as u32 == 0xFEFFu32);
                vstd::utf8::char_u32_cast(text[0], 0xFEFFu32);
                vstd::utf8::char_u32_cast('\u{FEFF}', 0xFEFFu32);
                assert(false);
            }
        }
    }
}

} // verus!
