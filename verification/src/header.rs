//! The file shown in a tab: its names, where it is on the file bar, how its text is encoded,
//! and when it was last modified.
use crate::def::NEW_LINE_LF_STR;
use crate::lang::Lang;
use crate::model::{Encode, WatchMode};
use crate::text::string_of;
use std::path::Path;
use std::time::SystemTime;
use vstd::prelude::*;

verus! {

/// Declares `std::time::SystemTime`, carried through as the modification time of a file.
#[verifier::external_type_specification]
#[verifier::external_body]
pub struct ExSystemTime(SystemTime);

/// The last part of a path as `std::path::Path::file_name` gives it (lossily as text); `None`
/// for a root, an empty path, or a path that ends in `..`.
pub uninterp spec fn path_file_name(p: Seq<char>) -> Option<Seq<char>>;

/// `base` joined with `p` as `std::path::Path::join` gives it (lossily as text).
pub uninterp spec fn path_join(base: Seq<char>, p: Seq<char>) -> Seq<char>;

/// Calls `Path::file_name` and gives the name back as text; the contract names the result.
/// A name it gives is a single normal component (never empty, `.` or `..`, and without `/`),
/// so it is its own file name; the contract states that too.
#[verifier::external_body]
fn file_name_of(p: &str) -> (r: Option<String>)
    ensures
        r matches Some(s) ==> path_file_name(p@) == Some(s@),
        r is None ==> path_file_name(p@) is None,
        r matches Some(s) ==> path_file_name(s@) == Some(s@),
{
    match Path::new(p).file_name() {
        Some(n) => Some(n.to_string_lossy().into_owned()),
        None => None,
    }
}

/// Calls `Path::join` and gives the joined path back as text; the contract names the result.
#[verifier::external_body]
fn join_path(base: &str, p: &str) -> (r: String)
    ensures
        r@ == path_join(base@, p@),
{
    Path::new(base).join(p).to_string_lossy().into_owned()
}

/// What `Path::is_absolute` gives for a path: whether it is independent of the current
/// directory. What that takes depends on the target (a leading `/` on Unix; a prefix and a
/// root on Windows), so the result is named, not spelled out.
pub uninterp spec fn path_is_absolute(p: Seq<char>) -> bool;

/// Calls `Path::is_absolute`; the contract names the result.
#[verifier::external_body]
fn is_absolute_path(p: &str) -> (b: bool)
    ensures
        b == path_is_absolute(p@),
{
    Path::new(p).is_absolute()
}

/// Gives `SystemTime::UNIX_EPOCH`, the time a file that was never read is taken to be from.
#[verifier::external_body]
fn unix_epoch() -> SystemTime {
    SystemTime::UNIX_EPOCH
}

/// The file shown in a tab.
#[derive(Debug)]
pub struct HeaderFile {
    pub filenm: String,
    pub filenm_disp: String,
    pub fullpath: String,
    pub is_disp: bool,
    pub filenm_area: (usize, usize),
    pub close_area: (usize, usize),
    pub enc: Encode,
    pub nl: String,
    pub nl_org: String,
    pub bom: Option<Encode>,
    pub modified_time: SystemTime,
    pub watch_mode: WatchMode,
}

impl Default for HeaderFile {
    fn default() -> (h: HeaderFile)
        ensures
            h.filenm@ == Seq::<char>::empty(),
            h.filenm_disp@ == Seq::<char>::empty(),
            h.fullpath@ == Seq::<char>::empty(),
            !h.is_disp,
            h.filenm_area == (0usize, 0usize),
            h.close_area == (0usize, 0usize),
            h.enc == Encode::UTF8,
            h.nl@ == NEW_LINE_LF_STR@,
            h.nl_org@ == NEW_LINE_LF_STR@,
            h.bom is None,
            h.watch_mode == WatchMode::Normal,
    {
        HeaderFile {
            filenm: String::new(),
            filenm_disp: String::new(),
            fullpath: String::new(),
            is_disp: false,
            filenm_area: (0, 0),
            close_area: (0, 0),
            enc: Encode::UTF8,
            nl: string_of(NEW_LINE_LF_STR),
            nl_org: string_of(NEW_LINE_LF_STR),
            bom: None,
            modified_time: unix_epoch(),
            watch_mode: WatchMode::Normal,
        }
    }
}

/// The name a file given as `filenm` is known by in the editor: its last part, or the new-file
/// name for an empty name.
pub open spec fn header_name(filenm: Seq<char>, lang: Lang) -> Option<Seq<char>> {
    if filenm.len() == 0 {
        Some(lang.new_file@)
    } else {
        path_file_name(filenm)
    }
}

/// The full path of a file given as `filenm`: itself when absolute, else joined to `curt_dir`.
pub open spec fn header_fullpath(filenm: Seq<char>, curt_dir: Seq<char>) -> Seq<char> {
    if path_is_absolute(filenm) { filenm } else { path_join(curt_dir, filenm) }
}

impl HeaderFile {
    /// The file `filenm` in a new tab, with the current directory `curt_dir`; every other
    /// field as in `default`.
    pub fn new(filenm: &str, curt_dir: &str, lang: &Lang) -> (h: HeaderFile)
        requires
            header_name(filenm@, *lang) is Some,
        ensures
            h.filenm@ == header_name(filenm@, *lang).unwrap(),
            h.fullpath@ == header_fullpath(filenm@, curt_dir@),
            h.filenm_disp@ == Seq::<char>::empty(),
            !h.is_disp,
            h.enc == Encode::UTF8,
            h.nl@ == NEW_LINE_LF_STR@,
            h.nl_org@ == NEW_LINE_LF_STR@,
            h.bom is None,
            h.watch_mode == WatchMode::Normal,
            h.filenm_area == (0usize, 0usize),
            h.close_area == (0usize, 0usize),
    {
        let (setting_filenm, fullpath) = if is_absolute_path(filenm) {
            match file_name_of(filenm) {
                Some(n) => (n, string_of(filenm)),
                None => (String::new(), string_of(filenm)),
            }
        } else {
            (string_of(filenm), join_path(curt_dir, filenm))
        };
        let name = if filenm.is_empty() {
            lang.new_file.clone()
        } else {
            match file_name_of(setting_filenm.as_str()) {
                Some(n) => n,
                None => String::new(),
            }
        };
        let mut h = HeaderFile::default();
        h.filenm = name;
        h.fullpath = fullpath;
        h
    }

    /// The file `filenm` in a new tab; `None` where the name has no last part to show (such as
    /// `/` or a path ending in `..`).
    pub fn try_new(filenm: &str, curt_dir: &str, lang: &Lang) -> (r: Option<HeaderFile>)
        ensures
            (header_name(filenm@, *lang) is Some) <==> r is Some,
            r matches Some(h) ==> {
                &&& h.filenm@ == header_name(filenm@, *lang).unwrap()
                &&& h.fullpath@ == header_fullpath(filenm@, curt_dir@)
                &&& h.filenm_disp@ == Seq::<char>::empty()
                &&& !h.is_disp
                &&& h.enc == Encode::UTF8
                &&& h.nl@ == NEW_LINE_LF_STR@
                &&& h.nl_org@ == NEW_LINE_LF_STR@
                &&& h.bom is None
                &&& h.watch_mode == WatchMode::Normal
                &&& h.filenm_area == (0usize, 0usize)
                &&& h.close_area == (0usize, 0usize)
            },
    {
        let ok = filenm.is_empty() || file_name_of(filenm).is_some();
        if ok {
            Some(HeaderFile::new(filenm, curt_dir, lang))
        } else {
            None
        }
    }
}

} // verus!
