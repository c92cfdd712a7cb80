//! Constants shared by the editor's text handling.
use vstd::prelude::*;

verus! {

/// Line feed.
pub const NEW_LINE_LF: char = '\n';
/// Carriage return.
pub const NEW_LINE_CR: char = '\r';
/// The CRLF newline sequence.
pub const NEW_LINE_CRLF: &'static str = "\r\n";
/// Name of the LF newline type.
pub const NEW_LINE_LF_STR: &'static str = "LF";
/// Name of the CRLF newline type.
pub const NEW_LINE_CRLF_STR: &'static str = "CRLF";
/// Horizontal tab.
pub const TAB_CHAR: char = '\t';
/// Half-width space.
pub const HALF_SPACE_CHAR: char = ' ';
/// Full-width (ideographic) space.
pub const FULL_SPACE_CHAR: char = '\u{3000}';
/// Marker appended or prepended to a string that was cut.
pub const CONTINUE_STR: &'static str = "..";
/// Path separator on Unix-like systems.
pub const MAIN_SEPARATOR: char = '/';
/// Marker for an undefined index.
pub const USIZE_UNDEFINED: usize = usize::MAX;
/// Marker drawn at the end of a file.
pub const EOF_STR: &'static str = "[EOF]";
/// Smallest terminal width that the editor lays out for.
pub const TERM_MINIMUM_WIDTH: usize = 40;
/// Smallest terminal height that the editor lays out for.
pub const TERM_MINIMUM_HEIGHT: usize = 12;

} // verus!
