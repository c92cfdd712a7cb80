use ewin::buf::TextBuffer;
use ewin::clipboard::check_clipboard;
use ewin::convert::{convert_chars, to_lowercase, to_uppercase};
use ewin::files::File;
use ewin::header::HeaderFile;
use ewin::keycmd::Keybind;
use ewin::keys::{Key, Keys, TermEvent, TermKeyCode, TermMouseButton, TermMouseKind, MODIFIER_ALT, MODIFIER_CONTROL, MODIFIER_SHIFT};
use ewin::lang::Lang;
use ewin::model::{ActType, RParts, BoxInsertMode, ConvType, E_DrawRange, Encode, FileType, MacrosFunc, SelMode};

fn header(enc: Encode, bom: Option<Encode>) -> HeaderFile {
    let mut h = HeaderFile::default();
    h.enc = enc;
    h.bom = bom;
    h
}

#[test]
fn encode_utf8_bytes() {
    let mut b = TextBuffer::from_text("aé");
    let (bytes, err) = b.encode(&header(Encode::UTF8, None));
    assert_eq!(bytes, vec![0x61, 0xC3, 0xA9]);
    assert!(!err);
    assert_eq!(b.to_text(), "aé");
}

#[test]
fn encode_utf16_follows_bom() {
    let mut b = TextBuffer::from_text("a😀");
    let (le, _) = b.encode(&header(Encode::UTF16LE, Some(Encode::UTF16LE)));
    assert_eq!(le, vec![0x61, 0x00, 0x3D, 0xD8, 0x00, 0xDE]);
    let (be, _) = b.encode(&header(Encode::UTF16BE, Some(Encode::UTF16BE)));
    assert_eq!(be, vec![0x00, 0x61, 0xD8, 0x3D, 0xDE, 0x00]);
    // without the little-endian mark, UTF-16 is written big-endian
    let (no_bom, _) = b.encode(&header(Encode::UTF16LE, None));
    assert_eq!(no_bom, vec![0x00, 0x61, 0xD8, 0x3D, 0xDE, 0x00]);
}

#[test]
fn encode_shift_jis() {
    let mut b = TextBuffer::from_text("aあ");
    let (bytes, err) = b.encode(&header(Encode::SJIS, None));
    assert_eq!(bytes, vec![0x61, 0x82, 0xA0]);
    assert!(!err);
    let mut u = TextBuffer::from_text("😀");
    let (_, err) = u.encode(&header(Encode::SJIS, None));
    assert!(err);
}

#[test]
fn write_bytes_with_bom_or_none() {
    let mut b = TextBuffer::from_text("a");
    assert_eq!(b.write_bytes(&header(Encode::UTF8, Some(Encode::UTF8))), Some(vec![0xEF, 0xBB, 0xBF, 0x61]));
    assert_eq!(b.write_bytes(&header(Encode::UTF16LE, Some(Encode::UTF16LE))), Some(vec![0xFF, 0xFE, 0x61, 0x00]));
    let mut u = TextBuffer::from_text("😀");
    assert_eq!(u.write_bytes(&header(Encode::GBK, None)), None);
}

#[test]
fn add_bom_prefixes_and_empties() {
    let mut b = TextBuffer::from_text("");
    let mut v = vec![1u8, 2];
    let r = b.add_bom(&mut v, &header(Encode::UTF16BE, Some(Encode::UTF16BE)));
    assert_eq!(r, vec![0xFE, 0xFF, 1, 2]);
    assert!(v.is_empty());
    let mut w = vec![3u8];
    assert_eq!(b.add_bom(&mut w, &header(Encode::SJIS, None)), vec![3]);
}

#[test]
fn select_item_bom() {
    let mut lang = Lang::default();
    lang.with = "あり".to_string();
    assert_eq!(TextBuffer::get_select_item_bom(&lang, &Encode::UTF16LE, ""), Some(Encode::UTF16LE));
    assert_eq!(TextBuffer::get_select_item_bom(&lang, &Encode::UTF16BE, ""), Some(Encode::UTF16BE));
    assert_eq!(TextBuffer::get_select_item_bom(&lang, &Encode::UTF8, "BOMあり"), Some(Encode::UTF8));
    assert_eq!(TextBuffer::get_select_item_bom(&lang, &Encode::UTF8, "BOMなし"), None);
    assert_eq!(TextBuffer::get_select_item_bom(&lang, &Encode::SJIS, "BOMあり"), None);
}

#[test]
fn file_bom_detection() {
    assert_eq!(File::check_file_bom(&[0xEF, 0xBB, 0xBF]), Some(Encode::UTF8));
    assert_eq!(File::check_file_bom(&[0xFF, 0xFE, 0x41]), Some(Encode::UTF16LE));
    assert_eq!(File::check_file_bom(&[0xFE, 0xFF, 0x00]), Some(Encode::UTF16BE));
    assert_eq!(File::check_file_bom(&[0x41, 0x42, 0x43]), None);
    // fewer than three bytes could be read
    assert_eq!(File::check_file_bom(&[0xFF, 0xFE]), None);
}

#[test]
fn event_to_keys() {
    let key = |code, modifiers| Keybind::evt_to_keys(&TermEvent::Key { code, modifiers });
    assert_eq!(key(TermKeyCode::Char('c'), MODIFIER_CONTROL), Keys::Ctrl(Key::Char('c')));
    assert_eq!(key(TermKeyCode::Left, MODIFIER_ALT), Keys::Alt(Key::Left));
    assert_eq!(key(TermKeyCode::Char('A'), MODIFIER_SHIFT), Keys::Shift(Key::Char('A')));
    assert_eq!(key(TermKeyCode::F(5), 0), Keys::Raw(Key::F(5)));
    assert_eq!(key(TermKeyCode::Char('a'), MODIFIER_CONTROL | MODIFIER_SHIFT), Keys::Unsupported);
    let mouse = |kind, modifiers| Keybind::evt_to_keys(&TermEvent::Mouse { kind, column: 7, row: 3, modifiers });
    assert_eq!(mouse(TermMouseKind::Down(TermMouseButton::Left), MODIFIER_ALT), Keys::MouseAltDownLeft(3, 7));
    assert_eq!(mouse(TermMouseKind::Down(TermMouseButton::Left), MODIFIER_CONTROL), Keys::MouseDownLeft(3, 7));
    assert_eq!(mouse(TermMouseKind::Drag(TermMouseButton::Left), MODIFIER_ALT), Keys::MouseAltDragLeft(3, 7));
    assert_eq!(mouse(TermMouseKind::Up(TermMouseButton::Right), 0), Keys::Null);
    assert_eq!(mouse(TermMouseKind::Moved, 0), Keys::MouseMove(3, 7));
    assert_eq!(mouse(TermMouseKind::ScrollUp, 0), Keys::MouseScrollUp);
    assert_eq!(Keybind::evt_to_keys(&TermEvent::Resize(80, 24)), Keys::Resize(80, 24));
}

#[test]
fn display_names() {
    let mut lang = Lang::default();
    lang.box_select = "box".to_string();
    lang.box_insert = "ins".to_string();
    assert_eq!(E_DrawRange::TargetRange(1, 2).to_string(), "Target");
    assert_eq!(E_DrawRange::Targetpoint.to_string(), "AllDiff");
    assert_eq!(MacrosFunc::getAllString.to_string(), "getAllString");
    assert_eq!(FileType::JSON5.to_string(), "JSON5");
    assert_eq!(SelMode::Normal.to_string(&lang), "");
    assert_eq!(SelMode::BoxSelect.to_string(&lang), "box");
    assert_eq!(BoxInsertMode::Insert.to_string(&lang), "ins");
}

#[test]
fn case_and_tab_conversion() {
    assert_eq!(to_lowercase('A'), 'a');
    assert_eq!(to_lowercase('a'), 'a');
    assert_eq!(to_lowercase('Ä'), 'Ä');
    assert_eq!(to_uppercase('z'), 'Z');
    assert_eq!(to_uppercase('ß'), 'ß');
    assert_eq!(convert_chars(ConvType::Lowercase, "AbC1"), "abc1");
    assert_eq!(convert_chars(ConvType::Uppercase, "AbC1"), "ABC1");
    assert_eq!(convert_chars(ConvType::Space, "a\tb"), "a b");
    assert_eq!(convert_chars(ConvType::Tab, "a b"), "a\tb");
}

fn entry(path: &str, name: &str, is_dir: bool, meta: Option<bool>) -> ewin::files::DirEntryInfo {
    ewin::files::DirEntryInfo { path: path.to_string(), file_name: name.to_string(), is_dir, meta_is_dir: meta }
}

#[test]
fn tab_comp_base_dir() {
    assert_eq!(ewin::files::get_tab_comp_base_dir("src/ma"), "src/");
    assert_eq!(ewin::files::get_tab_comp_base_dir("/usr/lib/x"), "/usr/lib/");
    assert_eq!(ewin::files::get_tab_comp_base_dir("abc"), ".");
    assert_eq!(ewin::files::get_tab_comp_base_dir("/"), "/");
}

#[test]
fn tab_comp_files_filter_and_sort() {
    let es = vec![
        entry("./src", "src", true, Some(true)),
        entry("./setting.toml", "setting.toml", false, Some(false)),
        entry("./README", "README", false, None),
        entry("./sa", "sa", false, Some(false)),
    ];
    let r = ewin::files::get_tab_comp_files("s", false, false, &es);
    let names: Vec<(String, bool)> = r.into_iter().map(|f| (f.name, f.is_dir)).collect();
    assert_eq!(names, vec![("sa".to_string(), false), ("setting.toml".to_string(), false), ("src".to_string(), true)]);
    let dirs = ewin::files::get_tab_comp_files("", true, true, &es);
    assert_eq!(dirs.len(), 1);
    assert_eq!(dirs[0].name, "src");
    // metadata that cannot be read counts as a directory
    let r = ewin::files::get_tab_comp_files("READ", false, true, &es);
    assert_eq!(r[0].name, "README");
    assert!(r[0].is_dir);
}

#[test]
fn tab_comp_files_full_path_in_subdir() {
    let es = vec![entry("src/main.rs", "main.rs", false, Some(false)), entry("src/lib.rs", "lib.rs", false, Some(false))];
    let r = ewin::files::get_tab_comp_files("src/", false, true, &es);
    let names: Vec<String> = r.into_iter().map(|f| f.name).collect();
    assert_eq!(names, vec!["src/lib.rs".to_string(), "src/main.rs".to_string()]);
    let r = ewin::files::get_tab_comp_files("src/m", false, false, &es);
    assert_eq!(r.len(), 1);
    assert_eq!(r[0].name, "main.rs");
}

#[test]
fn clipboard_paste_checks() {
    let mut lang = Lang::default();
    lang.no_value_in_clipboard = "empty".to_string();
    lang.cannot_paste_multi_rows = "multi".to_string();
    assert_eq!(check_clipboard("", false, &lang), ActType::Render(RParts::MsgBar("empty".to_string())));
    assert_eq!(check_clipboard("a\nb", true, &lang), ActType::Render(RParts::MsgBar("multi".to_string())));
    assert_eq!(check_clipboard("a\nb", false, &lang), ActType::Next);
    assert_eq!(check_clipboard("ab", true, &lang), ActType::Next);
}

#[test]
fn text_buffer_clone_and_eq() {
    let b = TextBuffer::from_text("line1\nline2");
    let c = b.clone();
    assert_eq!(c.to_text(), "line1\nline2");
    assert!(b == c);
    assert_eq!(TextBuffer::default().to_text(), "");
}

#[test]
fn utf8_write_then_read_back() {
    for (text, bom) in [("héllo\n", None), ("héllo\n", Some(Encode::UTF8)), ("\u{FEFF}x", Some(Encode::UTF8))] {
        let mut b = TextBuffer::from_text(text);
        let bytes = b.write_bytes(&header(Encode::UTF8, bom)).unwrap();
        let (read, enc) = Encode::try_read_bytes(&bytes);
        assert_eq!(read, text);
        assert_eq!(enc, Encode::UTF8);
    }
    // without a mark, a leading U+FEFF is taken for one
    let mut b = TextBuffer::from_text("\u{FEFF}x");
    let bytes = b.write_bytes(&header(Encode::UTF8, None)).unwrap();
    assert_eq!(Encode::try_read_bytes(&bytes).0, "x");
}
