use ewin::cfg::Cfg;
use ewin::fmt_xml::FormatXml;
use ewin::header::HeaderFile;
use ewin::keycmd::{E_Cmd, E_CmdConfig};
use ewin::lang::Lang;
use ewin::model::{AppArgs, FileType, SettingFileLoader, SettingLoad, TabState};

fn cfg_with_indent(unit: &str) -> Cfg {
    let mut cfg = Cfg::default();
    cfg.general.editor.format.indent = unit.to_string();
    cfg
}

#[test]
fn format_xml_nested_elements() {
    let cfg = cfg_with_indent("  ");
    let r = FormatXml::format_xml_html(&cfg, "<a><b>x</b></a>".to_string(), FileType::XML, "\n".to_string());
    assert_eq!(r, "<a>\n  <b>x</b>\n</a>");
}

#[test]
fn format_xml_trims_text_after_tag() {
    let cfg = cfg_with_indent("\t");
    let r = FormatXml::format_xml_html(&cfg, "<r>\n   <c>  v  </c>\n</r>".to_string(), FileType::XML, "\n".to_string());
    assert_eq!(r, "<r>\n\t<c>v</c>\n</r>");
}

#[test]
fn format_xml_self_closing_and_declaration() {
    let cfg = cfg_with_indent("  ");
    let r = FormatXml::format_xml_html(&cfg, "<?xml version=\"1.0\"?><a><b/></a>".to_string(), FileType::XML, "\n".to_string());
    assert_eq!(r, "<?xml version=\"1.0\"?>\n<a>\n  <b/>\n</a>");
}

#[test]
fn format_xml_comment_kept() {
    let cfg = cfg_with_indent("  ");
    let r = FormatXml::format_xml_html(&cfg, "<a><!-- c --></a>".to_string(), FileType::XML, "\n".to_string());
    assert_eq!(r, "<a>\n  <!-- c -->\n</a>");
}

#[test]
fn format_xml_crlf_newline() {
    let cfg = cfg_with_indent(" ");
    let r = FormatXml::format_xml_html(&cfg, "<a><b></b></a>".to_string(), FileType::XML, "\r\n".to_string());
    assert_eq!(r, "<a>\r\n <b></b>\r\n</a>");
}

#[test]
fn try_format_xml_some_and_none() {
    let cfg = cfg_with_indent("  ");
    assert_eq!(
        FormatXml::try_format_xml_html(&cfg, "<a><b>x</b></a>".to_string(), FileType::HTML, "\n".to_string()),
        Some("<a>\n  <b>x</b>\n</a>".to_string())
    );
    let mut deep = String::new();
    for _ in 0..102 {
        deep.push_str("<a>");
    }
    for _ in 0..102 {
        deep.push_str("</a>");
    }
    assert_eq!(FormatXml::try_format_xml_html(&cfg, deep, FileType::XML, "\n".to_string()), None);
}

#[test]
fn header_file_relative_and_absolute() {
    let lang = Lang::default();
    let h = HeaderFile::new("a.txt", "/home/u", &lang);
    assert_eq!(h.filenm, "a.txt");
    assert_eq!(h.fullpath, "/home/u/a.txt");
    let h = HeaderFile::new("/tmp/x/b.rs", "/home/u", &lang);
    assert_eq!(h.filenm, "b.rs");
    assert_eq!(h.fullpath, "/tmp/x/b.rs");
    assert!(!h.is_disp);
    assert_eq!(h.nl, "LF");
}

#[test]
fn header_file_new_file_name() {
    let mut lang = Lang::default();
    lang.new_file = "new file".to_string();
    let h = HeaderFile::try_new("", "/home/u", &lang).unwrap();
    assert_eq!(h.filenm, "new file");
    assert!(HeaderFile::try_new("/", "/home/u", &lang).is_none());
}

#[test]
fn e_cmd_config_kinds() {
    let c = E_CmdConfig::new(&E_Cmd::InsertRow);
    assert!(c.is_edit && c.is_record);
    let c = E_CmdConfig::new(&E_Cmd::CursorLeft);
    assert!(!c.is_edit && c.is_record);
    let c = E_CmdConfig::new(&E_Cmd::Encoding);
    assert!(c.is_edit && !c.is_record);
    let c = E_CmdConfig::new(&E_Cmd::MouseScrollUp);
    assert!(!c.is_edit && !c.is_record);
}

#[test]
fn tab_state_grep_result() {
    let mut st = TabState::default();
    assert!(st.is_nomal_and_not_grep_result());
    st.grep.is_result = true;
    assert!(!st.is_nomal_and_not_grep_result());
    st.grep.is_result = false;
    st.is_search = true;
    assert!(!st.is_nomal_and_not_grep_result());
}

#[test]
fn setting_file_loader_fields() {
    let args = AppArgs { filenm: "f.txt".to_string(), out_config_flg: false };
    let l = SettingFileLoader::new(FileType::TOML, args.clone(), Some("/etc".to_string()), "setting.toml".to_string());
    assert_eq!(l.file_type, FileType::TOML);
    assert_eq!(l.args, args);
    assert_eq!(l.filedir_opt, Some("/etc".to_string()));
    assert_eq!(l.filenm, "setting.toml");
}

#[test]
fn setting_load_messages() {
    assert_eq!(SettingFileLoader::load_err_str("/c/s.toml", &SettingLoad::NoDir), "Config dir not found");
    assert_eq!(SettingFileLoader::load_err_str("/c/s.toml", &SettingLoad::NotFound), "");
    assert_eq!(SettingFileLoader::load_err_str("/c/s.toml", &SettingLoad::Parsed), "");
    assert_eq!(SettingFileLoader::load_err_str("/c/s.toml", &SettingLoad::ReadFailed("denied".to_string())), "file loading failed /c/s.toml denied");
    assert_eq!(SettingFileLoader::load_err_str("/c/s.toml", &SettingLoad::ParseFailed("bad".to_string())), "file parsing failed/c/s.toml bad");
}
