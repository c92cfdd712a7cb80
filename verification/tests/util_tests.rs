use ewin::cfg::Cfg;
use ewin::def::{NEW_LINE_CR, NEW_LINE_LF, TAB_CHAR};
use ewin::model::{CharType, Env};
use ewin::util::{
    change_nl, change_regex, cut_str, get_c_width, get_char_type, get_char_width, get_delim_x, get_dir_path,
    get_env_platform, get_row_cur_x_disp_x, get_row_x_opt, get_str_width, get_tab_str, get_tab_width,
    get_until_delim_sx, get_until_disp_x, get_x_offset, is_contain_row_end_str, is_enable_syntax_highlight,
    is_include_path, is_newline_char, is_nl_char, ordinal_suffix, replace_all, split_chars, term_size_from,
    unixtime_str,
};

fn test_cfg() -> Cfg {
    let mut cfg = Cfg::default();
    cfg.general.editor.tab.size = 4;
    cfg.general.editor.tab.tab = "\t".to_string();
    cfg.general.editor.word.word_delimiter = "!\"#$%&'()*+,-./:;<=>?@[\\]^`{|}~".to_string();
    cfg.general.colors.theme.disable_highlight_ext = vec!["txt".to_string()];
    cfg
}

fn chars(s: &str) -> Vec<char> {
    s.chars().collect()
}

#[test]
fn test_get_str_width() {
    let cfg = test_cfg();
    assert_eq!(get_str_width(&cfg, "123"), 3);
    assert_eq!(get_str_width(&cfg, "あ亜ア"), 6);
    assert_eq!(get_str_width(&cfg, ""), 0);
}

#[test]
fn test_get_row_x() {
    let cfg = test_cfg();
    assert_eq!(get_row_x_opt(&cfg, &['a'], 0, false, false,), Some(0));
    assert_eq!(get_row_x_opt(&cfg, &['a', 'b'], 1, false, false,), Some(1));
    assert_eq!(get_row_x_opt(&cfg, &['a', 'あ', NEW_LINE_LF], 3, false, false,), Some(2));
    assert_eq!(get_row_x_opt(&cfg, &[TAB_CHAR, 'a'], 5, false, false,), None);
    assert_eq!(get_row_x_opt(&cfg, &[TAB_CHAR, 'a', NEW_LINE_LF], 5, true, false,), Some(2));
    assert_eq!(get_row_x_opt(&cfg, &[' ', TAB_CHAR, 'a'], 2, false, false,), Some(1));
    assert_eq!(get_row_x_opt(&cfg, &['a', NEW_LINE_LF, 'b'], 2, false, false,), None);
    assert_eq!(get_row_x_opt(&cfg, &['a', NEW_LINE_LF, 'b'], 2, true, false,), Some(2));
    assert_eq!(get_row_x_opt(&cfg, &['a', 'b'], 2, true, false,), None);
}

#[test]
fn test_get_row_width() {
    let cfg = test_cfg();
    assert_eq!(get_row_cur_x_disp_x(&cfg, &['a'], 0, false), (1, 1));
    assert_eq!(get_row_cur_x_disp_x(&cfg, &['あ'], 0, false), (1, 2));
    assert_eq!(get_row_cur_x_disp_x(&cfg, &['a', NEW_LINE_LF], 0, false), (1, 1));
    assert_eq!(get_row_cur_x_disp_x(&cfg, &['a', NEW_LINE_LF], 0, true), (2, 2));
    assert_eq!(get_row_cur_x_disp_x(&cfg, &[TAB_CHAR, 'a'], 0, false), (2, 5));
    assert_eq!(get_row_cur_x_disp_x(&cfg, &[TAB_CHAR, 'a'], 1, false), (2, 4));
    assert_eq!(get_row_cur_x_disp_x(&cfg, &['a', NEW_LINE_LF], 0, false), (1, 1));
    assert_eq!(get_row_cur_x_disp_x(&cfg, &['a', NEW_LINE_LF], 0, true), (2, 2));
    assert_eq!(get_row_cur_x_disp_x(&cfg, &['a', NEW_LINE_CR], 0, false), (1, 1));
    assert_eq!(get_row_cur_x_disp_x(&cfg, &['a', NEW_LINE_CR], 0, true), (2, 2));
}

#[test]
fn test_get_until_x() {
    let cfg = test_cfg();
    assert_eq!(get_until_disp_x(&cfg, &['a'], 0, false), (0, 0));
    assert_eq!(get_until_disp_x(&cfg, &['a', 'あ',], 2, false), (1, 1));
    assert_eq!(get_until_disp_x(&cfg, &['a', 'あ',], 2, false), (1, 1));
    assert_eq!(get_until_disp_x(&cfg, &['a', 'あ',], 3, false), (2, 3));
    assert_eq!(get_until_disp_x(&cfg, &['a', TAB_CHAR,], 3, false), (1, 1));
    assert_eq!(get_until_disp_x(&cfg, &['a', TAB_CHAR,], 4, false), (2, 4));
    assert_eq!(get_until_disp_x(&cfg, &['a', 'あ', NEW_LINE_LF], 4, false), (2, 3));
}

#[test]
fn test_get_char_width() {
    let cfg = test_cfg();
    assert_eq!(get_char_width(&cfg, &'a', 0), 1);
    assert_eq!(get_char_width(&cfg, &'あ', 0), 2);
    assert_eq!(get_char_width(&cfg, &TAB_CHAR, 1), 3);
    assert_eq!(get_char_width(&cfg, &TAB_CHAR, 2), 2);
    assert_eq!(get_char_width(&cfg, &TAB_CHAR, 0), 4);
    assert_eq!(get_char_width(&cfg, &NEW_LINE_LF, 0), 1);
    assert_eq!(get_char_width(&cfg, &NEW_LINE_CR, 0), 0);
}

#[test]
fn test_get_env_platform() {
    assert_eq!(get_env_platform("5.10.16.3-microsoft-standard-WSL2\n"), Env::WSL);
    assert_eq!(get_env_platform("4.4.0-19041-Microsoft\n"), Env::WSL);
    assert_eq!(get_env_platform("6.1.0-13-amd64\n"), Env::Linux);
}

#[test]
fn test_is_enable_syntax_highlight() {
    let cfg = test_cfg();
    assert!(!is_enable_syntax_highlight(&cfg, "txt"));
    assert!(is_enable_syntax_highlight(&cfg, "rs"));
    assert!(!is_enable_syntax_highlight(&cfg, ""));
}

#[test]
fn test_get_char_type() {
    let cfg = test_cfg();
    assert_eq!(get_char_type(&cfg, '"'), CharType::Delim);
    assert_eq!(get_char_type(&cfg, '!'), CharType::Delim);
    assert_eq!(get_char_type(&cfg, ' '), CharType::HalfSpace);
    assert_eq!(get_char_type(&cfg, '　'), CharType::FullSpace);
    assert_eq!(get_char_type(&cfg, 'a'), CharType::Nomal);
    assert_eq!(get_char_type(&cfg, 'z'), CharType::Nomal);
}

#[test]
fn test_cut_str() {
    let cfg = test_cfg();
    assert_eq!(cut_str(&cfg, "abc", 0, false, false), "".to_string());
    assert_eq!(cut_str(&cfg, "abc", 4, false, false), "abc".to_string());
    assert_eq!(cut_str(&cfg, "abc", 2, false, false), "ab".to_string());
    assert_eq!(cut_str(&cfg, "abc", 2, true, false), "bc".to_string());
    assert_eq!(cut_str(&cfg, "abc", 3, false, true), "abc".to_string());
    assert_eq!(cut_str(&cfg, "aあbcd", 5, true, false), "あbcd".to_string());
    assert_eq!(cut_str(&cfg, "aあbcd", 5, true, true), "..bcd".to_string());
    assert_eq!(cut_str(&cfg, "aあbcd", 5, false, false), "aあbc".to_string());
    assert_eq!(cut_str(&cfg, "aあbcd", 5, false, true), "aあ..".to_string());
    assert_eq!(cut_str(&cfg, "aあbcd", 6, false, true), "aあbcd".to_string());
}

#[test]
fn test_split_inclusive() {
    assert_eq!(split_chars("a,b:c", true, true, &[',', ':']), vec!["a".to_string(), ",".to_string(), "b".to_string(), ":".to_string(), "c".to_string(),]);
    assert_eq!(split_chars(",ab", true, true, &[',']), vec![",".to_string(), "ab".to_string()]);
    assert_eq!(split_chars("ab,", true, true, &[',']), vec!["ab".to_string(), ",".to_string()]);
}

#[test]
fn test_get_dir_path() {
    assert_eq!(get_dir_path("/home/"), "/home/".to_string());
    assert_eq!(get_dir_path("/home/ewin"), "/home/".to_string());
    assert_eq!(get_dir_path(""), "".to_string());
}

#[test]
fn test_is_include_path() {
    assert!(is_include_path("/home", "/home/ewin"));
    assert!(!is_include_path("/hoge", "/home/ewin"));
}

#[test]
fn test_get_delim() {
    let cfg = test_cfg();
    assert_eq!(get_delim_x(&cfg, &chars("<12345>"), 0), (0, 1));
    assert_eq!(get_delim_x(&cfg, &chars("<12345>"), 1), (1, 6));
    assert_eq!(get_delim_x(&cfg, &chars("<12345>"), 6), (6, 7));
    assert_eq!(get_delim_x(&cfg, &chars("  12345>"), 0), (0, 2));
    assert_eq!(get_delim_x(&cfg, &chars("  　　12345>"), 1), (0, 2));
    assert_eq!(get_delim_x(&cfg, &chars("<12345>>"), 6), (6, 8));
    assert_eq!(get_delim_x(&cfg, &chars("<12345  "), 6), (6, 8));
    assert_eq!(get_delim_x(&cfg, &chars("<12345　　"), 6), (6, 8));
    assert_eq!(get_delim_x(&cfg, &chars("<12345"), 1), (1, 6));
    assert_eq!(get_delim_x(&cfg, &chars("<12<<345>"), 4), (3, 5));
    assert_eq!(get_delim_x(&cfg, &chars("<12  345>"), 4), (3, 5));
    assert_eq!(get_delim_x(&cfg, &chars("<12　　345>"), 4), (3, 5));
}

#[test]
fn test_get_until_delim_sx() {
    let cfg = test_cfg();
    assert_eq!(get_until_delim_sx(&cfg, &chars("123")), 0);
    assert_eq!(get_until_delim_sx(&cfg, &chars("1:23")), 2);
    assert_eq!(get_until_delim_sx(&cfg, &chars("123:")), 4);
}

#[test]
fn tab_width_reaches_next_tab_stop() {
    for w in 0..20usize {
        let t = get_tab_width(w, 4);
        assert!(1 <= t && t <= 4);
        assert_eq!((w + t) % 4, 0);
    }
    assert_eq!(get_tab_width(5, 8), 3);
}

#[test]
fn ambiguous_width_setting_selects_wide_characters() {
    let mut cfg = test_cfg();
    assert_eq!(get_c_width(&cfg, &'\u{B7}'), 1);
    cfg.general.font.ambiguous_width = Some(2);
    assert_eq!(get_c_width(&cfg, &'\u{B7}'), 2);
    assert_eq!(get_c_width(&cfg, &'a'), 1);
    assert_eq!(get_c_width(&cfg, &'\u{7}'), 0);
}

#[test]
fn x_offset_keeps_the_tail_that_fits() {
    let cfg = test_cfg();
    assert_eq!(get_x_offset(&cfg, &chars("abcdef"), 3), 3);
    assert_eq!(get_x_offset(&cfg, &chars("abあ"), 2), 2);
    assert_eq!(get_x_offset(&cfg, &chars("ab"), 5), 0);
}

#[test]
fn split_rejoins_to_the_target() {
    let parts = split_chars("a,b:c,,d", true, false, &[',', ':']);
    assert_eq!(parts.concat(), "a,b:c,,d");
    assert!(parts.iter().all(|p| !p.is_empty()));
    let parts = split_chars("a,b\n,c", false, true, &[',']);
    assert_eq!(parts, vec!["a".to_string(), "b".to_string(), "c".to_string()]);
}

#[test]
fn replace_scans_left_to_right_without_overlaps() {
    let s: Vec<char> = chars("aaaa");
    assert_eq!(replace_all(&s, &['a', 'a'], &['b']), chars("bb"));
    assert_eq!(replace_all(&chars("xaay"), &['a'], &['b', 'c']), chars("xbcbcy"));
    assert_eq!(replace_all(&chars("abc"), &['z'], &[]), chars("abc"));
}

#[test]
fn change_nl_round_trip() {
    let mut s = "a\nb\n".to_string();
    change_nl(&mut s, "CRLF");
    assert_eq!(s, "a\r\nb\r\n");
    change_nl(&mut s, "LF");
    assert_eq!(s, "a\nb\n");
    let mut t = "x\r\ny\r\n".to_string();
    change_nl(&mut t, "CRLF");
    assert_eq!(t, "x\r\ny\r\n");
}

#[test]
fn change_regex_unescapes_only_for_regex_search() {
    let mut cfg = test_cfg();
    cfg.general.editor.search.regex = false;
    assert_eq!(change_regex(&cfg, "a\\nb".to_string()), "a\\nb");
    cfg.general.editor.search.regex = true;
    assert_eq!(change_regex(&cfg, "a\\nb\\tc\\rd\\'e\\\"f".to_string()), "a\nb\tc\rd'e\"f");
}

#[test]
fn ordinal_suffixes() {
    assert_eq!(ordinal_suffix(1), "st");
    assert_eq!(ordinal_suffix(2), "nd");
    assert_eq!(ordinal_suffix(3), "rd");
    assert_eq!(ordinal_suffix(4), "th");
    assert_eq!(ordinal_suffix(11), "th");
    assert_eq!(ordinal_suffix(12), "th");
    assert_eq!(ordinal_suffix(13), "th");
    assert_eq!(ordinal_suffix(21), "st");
    assert_eq!(ordinal_suffix(112), "th");
    assert_eq!(ordinal_suffix(122), "nd");
}

#[test]
fn newline_characters() {
    assert!(is_nl_char('\n'));
    assert!(is_newline_char('\r'));
    assert!(!is_nl_char('a'));
    assert!(is_contain_row_end_str("ab\rc"));
    assert!(!is_contain_row_end_str("abc"));
}

#[test]
fn tab_str_and_term_size() {
    let cfg = test_cfg();
    assert_eq!(get_tab_str(&cfg), "\t");
    assert_eq!(term_size_from(None), (40, 12));
    assert_eq!(term_size_from(Some((1, 1))), (40, 12));
    assert_eq!(term_size_from(Some((120, 30))), (120, 30));
}

#[test]
fn unix_time_formatting() {
    assert_eq!(unixtime_str(1_600_000_000, 5), "1600000000.005");
    assert_eq!(unixtime_str(0, 0), "0.000");
    assert_eq!(unixtime_str(42, 999), "42.999");
    assert_eq!(unixtime_str(7, 42), "7.042");
}

#[test]
fn include_path_compares_the_last_part() {
    assert!(is_include_path("", "/home"));
    assert!(!is_include_path("/home/ewin/a", "/home"));
    assert!(is_include_path("/x/ewin", "/home/ewin"));
}
