use ewin::files::{File, ReadErrorKind};
use ewin::keys::KeyWhen;
use ewin::lang::Lang;
use ewin::log::{configured_log_level, set_log_level, LogLevel};
use ewin::model::Encode;

#[test]
fn key_when_names() {
    for k in [KeyWhen::All, KeyWhen::Editor, KeyWhen::StatusBar, KeyWhen::Prom] {
        assert_eq!(KeyWhen::from_str_when(&k.to_string()), Ok(k));
    }
    assert_eq!(KeyWhen::from_str_when("headerBarFocus"), Ok(KeyWhen::FileBar));
    assert_eq!(KeyWhen::FileBar.to_string(), "fileBarFocus");
    assert_eq!(KeyWhen::from_str_when("fileBarFocus"), Err(()));
}

#[test]
fn log_levels() {
    assert_eq!(set_log_level("debug"), LogLevel::Debug);
    assert_eq!(set_log_level("test"), LogLevel::Test);
    assert_eq!(set_log_level("loud"), LogLevel::Info);
    assert_eq!(configured_log_level(&None), LogLevel::Info);
    assert_eq!(configured_log_level(&Some("warn".to_string())), LogLevel::Warn);
    assert_eq!(LogLevel::Info.to_string(), "INFO ");
    assert!(LogLevel::Error.is_quieter_than_log(LogLevel::Warn));
    assert!(!LogLevel::Debug.is_quieter_than_log(LogLevel::Debug));
}

#[test]
fn decoding_guesses_the_encoding() {
    let (s, e) = Encode::try_read_bytes("héllo".as_bytes());
    assert_eq!((s.as_str(), e), ("héllo", Encode::UTF8));
    let sjis: Vec<u8> = vec![0x82, 0xa0];
    let (s, e) = Encode::try_read_bytes(&sjis);
    assert_eq!((s.as_str(), e), ("あ", Encode::SJIS));
    let (s, e, had_errors) = Encode::read_bytes(&[0xff, 0xfe, 0x41, 0x00], Encode::UTF8);
    assert_eq!((s.as_str(), e, had_errors), ("A", Encode::UTF16LE, false));
    assert_eq!(Encode::from_encoding_name("ISO-2022-JP"), Encode::JIS);
    assert_eq!(Encode::accept_read(("x".to_string(), Encode::GBK, true)), None);
}

#[test]
fn external_file_messages() {
    let mut lang = Lang::default();
    lang.no_read_permission = "cannot be read".to_string();
    lang.file_not_found = "not found".to_string();
    lang.file_opening_problem = "could not be opened".to_string();
    assert_eq!(File::external_file_outcome(Ok("text".to_string()), true, "a.txt", &lang), ("text".to_string(), String::new()));
    let denied = Err((ReadErrorKind::PermissionDenied, "os error 13".to_string()));
    assert_eq!(File::external_file_outcome(denied.clone(), false, "a.txt", &lang), (String::new(), "a.txt cannot be read".to_string()));
    assert_eq!(File::external_file_outcome(denied, true, "a.txt", &lang), (String::new(), "os error 13".to_string()));
    let missing = Err((ReadErrorKind::NotFound, "e".to_string()));
    assert_eq!(File::external_file_outcome(missing, true, "b", &lang), (String::new(), "b not found".to_string()));
    let other = Err((ReadErrorKind::Other, "e".to_string()));
    assert_eq!(File::external_file_outcome(other, true, "c", &lang), (String::new(), "c could not be opened".to_string()));
    assert!(File::is_root_dir("/"));
    assert!(!File::is_root_dir("/home"));
}
