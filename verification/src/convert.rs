//! Converting the characters of a selection: case, and tabs to spaces and back.
use crate::cmd::{ascii_upper, to_ascii_upper};
use crate::def::TAB_CHAR;
use crate::model::ConvType;
use crate::text::{chars_to_string, str_to_chars};
use crate::util::{ascii_lower, to_ascii_lower};
use vstd::prelude::*;

verus! {

/// Whether a character has Unicode's Uppercase property, as `char::is_uppercase` tells.
pub uninterp spec fn has_uppercase_property(c: char) -> bool;

/// Whether a character has Unicode's Lowercase property, as `char::is_lowercase` tells.
pub uninterp spec fn has_lowercase_property(c: char) -> bool;

/// Calls `char::is_uppercase`, which tells whether the character has the Uppercase property;
/// the contract names the result.
#[verifier::external_body]
fn is_uppercase(c: char) -> (b: bool)
    ensures
        b == has_uppercase_property(c),
{
    c.is_uppercase()
}

/// Calls `char::is_lowercase`, which tells whether the character has the Lowercase property;
/// the contract names the result.
#[verifier::external_body]
fn is_lowercase(c: char) -> (b: bool)
    ensures
        b == has_lowercase_property(c),
{
    c.is_lowercase()
}

/// An uppercase character made ASCII lowercase (only `A`–`Z` change); others unchanged.
pub fn to_lowercase(c: char) -> (r: char)
    ensures
        r == (if has_uppercase_property(c) { ascii_lower(c) } else { c }),
{
    if is_uppercase(c) {
        return to_ascii_lower(c);
    }
    c
}

/// A lowercase character made ASCII uppercase (only `a`–`z` change); others unchanged.
pub fn to_uppercase(c: char) -> (r: char)
    ensures
        r == (if has_lowercase_property(c) { ascii_upper(c) } else { c }),
{
    if is_lowercase(c) {
        return to_ascii_upper(c);
    }
    c
}

/// What a character-wise conversion makes of one character; `None` for the width
/// conversions, which are not character-wise.
pub open spec fn conv_char(conv: ConvType, c: char) -> Option<char> {
    match conv {
        ConvType::Lowercase => Some(if has_uppercase_property(c) { ascii_lower(c) } else { c }),
        ConvType::Uppercase => Some(if has_lowercase_property(c) { ascii_upper(c) } else { c }),
        ConvType::Space => Some(if c == TAB_CHAR { ' ' } else { c }),
        ConvType::Tab => Some(if c == ' ' { TAB_CHAR } else { c }),
        _ => None,
    }
}

/// Is the conversion character-wise (case, or tabs and spaces)?
pub open spec fn is_char_conv(conv: ConvType) -> bool {
    conv_char(conv, ' ') is Some
}

/// The text converted character by character.
pub fn convert_chars(conv: ConvType, s: &str) -> (r: String)
    requires
        is_char_conv(conv),
    ensures
        r@.len() == s@.len(),
        forall|i: int| 0 <= i < s@.len() ==> Some(#[trigger] r@[i]) == conv_char(conv, s@[i]),
{
    let cs = str_to_chars(s);
    let n = cs.len();
    let mut out: Vec<char> = Vec::new();
    let mut i: usize = 0;
    while i < n
        invariant
            n == cs@.len(),
            cs@ == s@,
            is_char_conv(conv),
            i <= n,
            out@.len() == i,
            forall|k: int| 0 <= k < i ==> Some(#[trigger] out@[k]) == conv_char(conv, cs@[k]),
        decreases n - i,
    {
        let c = cs[i];
        let d = match conv {
            ConvType::Lowercase => to_lowercase(c),
            ConvType::Uppercase => to_uppercase(c),
            ConvType::Space => if c == TAB_CHAR { ' ' } else { c },
            ConvType::Tab => if c == ' ' { TAB_CHAR } else { c },
            _ => c,
        };
        out.push(d);
        i = i + 1;
    }
    chars_to_string(out.as_slice())
}

} // verus!
