use ewin::buf::TextBuffer;
use ewin::cfg::Cfg;
use ewin::edit::Editor;
use ewin::header::HeaderFile;
use ewin::history::History;
use ewin::keycmd::E_Cmd;
use ewin::model::{ActType, SelMode, SelRange};
use ewin::model::Cur;
use ewin::mouse::MouseTarget;

fn editor(text: &str, y: usize, x: usize, disp_x: usize) -> Editor {
    Editor {
        buf: TextBuffer::from_text(text),
        cur: Cur { y, x, disp_x },
        sel: SelRange::default(),
        h_file: HeaderFile::default(),
        e_cmd: E_Cmd::Null,
        history: History::new(),
    }
}

#[test]
fn ins_str_within_row() {
    let cfg = Cfg::default();
    let mut e = editor("ab", 0, 1, 1);
    e.ins_str(&cfg, "XY");
    assert_eq!(e.buf.to_text(), "aXYb");
    assert_eq!(e.cur, Cur { y: 0, x: 3, disp_x: 3 });
}

#[test]
fn ins_str_with_line_breaks_moves_rows() {
    let cfg = Cfg::default();
    let mut e = editor("ab\ncd", 1, 1, 1);
    e.ins_str(&cfg, "1\n\n23");
    assert_eq!(e.buf.to_text(), "ab\nc1\n\n23d");
    assert_eq!(e.cur, Cur { y: 3, x: 2, disp_x: 2 });
}

#[test]
fn ins_str_wide_characters() {
    let cfg = Cfg::default();
    let mut e = editor("", 0, 0, 0);
    e.ins_str(&cfg, "あい");
    assert_eq!(e.buf.to_text(), "あい");
    assert_eq!(e.cur, Cur { y: 0, x: 2, disp_x: 4 });
}

#[test]
fn insert_row_breaks_the_row() {
    let mut e = editor("ab", 0, 1, 1);
    e.insert_row();
    assert_eq!(e.buf.to_text(), "a\nb");
    assert_eq!(e.cur, Cur { y: 1, x: 0, disp_x: 0 });
    let mut e = editor("ab", 0, 2, 2);
    e.h_file.nl = "CRLF".to_string();
    e.insert_row();
    assert_eq!(e.buf.to_text(), "ab\r\n");
}

#[test]
fn delete_under_cursor() {
    let mut e = editor("abc", 0, 1, 1);
    assert_eq!(e.delete(), "b");
    assert_eq!(e.buf.to_text(), "ac");
    assert_eq!(e.cur, Cur { y: 0, x: 1, disp_x: 1 });
    let mut e = editor("a\r\nb", 0, 1, 1);
    assert_eq!(e.delete(), "\r\n");
    assert_eq!(e.buf.to_text(), "ab");
}

#[test]
fn backspace_within_row_and_at_row_start() {
    let cfg = Cfg::default();
    let mut e = editor("aあb", 0, 2, 3);
    assert_eq!(e.backspace(&cfg), "あ");
    assert_eq!(e.buf.to_text(), "ab");
    assert_eq!(e.cur, Cur { y: 0, x: 1, disp_x: 1 });
    let mut e = editor("xy\r\nb", 1, 0, 0);
    assert_eq!(e.backspace(&cfg), "\r\n");
    assert_eq!(e.buf.to_text(), "xyb");
    assert_eq!(e.cur, Cur { y: 0, x: 2, disp_x: 2 });
    let mut e = editor("x\ny\nz", 2, 0, 0);
    assert_eq!(e.backspace(&cfg), "\n");
    assert_eq!(e.buf.to_text(), "x\nyz");
    assert_eq!(e.cur, Cur { y: 1, x: 1, disp_x: 1 });
}

#[test]
fn insert_then_backspace_restores_text() {
    let cfg = Cfg::default();
    let mut e = editor("hello", 0, 2, 2);
    e.ins_str(&cfg, "Z");
    e.backspace(&cfg);
    assert_eq!(e.buf.to_text(), "hello");
    assert_eq!(e.cur, Cur { y: 0, x: 2, disp_x: 2 });
}

#[test]
fn edit_proc_runs_and_records_edits() {
    let lang = ewin::lang::Lang::default();
    let cfg = Cfg::default();
    let mut e = editor("ab", 0, 1, 1);
    assert_eq!(e.edit_proc(&cfg, &E_Cmd::InsertStr("X".to_string()), "", &lang), ActType::Next);
    assert_eq!(e.buf.to_text(), "aXb");
    assert_eq!(e.edit_proc(&cfg, &E_Cmd::InsertRow, "", &lang), ActType::Next);
    assert_eq!(e.buf.to_text(), "aX\nb");
    assert_eq!(e.cur, Cur { y: 1, x: 0, disp_x: 0 });
    assert_eq!(e.edit_proc(&cfg, &E_Cmd::DelPrevChar, "", &lang), ActType::Next);
    assert_eq!(e.buf.to_text(), "aXb");
    assert_eq!(e.edit_proc(&cfg, &E_Cmd::DelNextChar, "", &lang), ActType::Next);
    assert_eq!(e.buf.to_text(), "aX");
    assert_eq!(e.history.undo_vec.len(), 4);
    let last = e.history.undo_vec[3].proc.clone().unwrap();
    assert_eq!(last.str, "b");
    assert_eq!(last.e_cmd, E_Cmd::DelNextChar);
    assert_eq!(last.cur_s, Cur { y: 0, x: 2, disp_x: 2 });
    let first = e.history.undo_vec[0].proc.clone().unwrap();
    assert_eq!(first.str, "X");
    assert_eq!(first.cur_e, Cur { y: 0, x: 2, disp_x: 2 });
}

#[test]
fn edit_proc_tab_inserts_configured_tab_text() {
    let lang = ewin::lang::Lang::default();
    let mut cfg = Cfg::default();
    cfg.general.editor.tab.tab = "    ".to_string();
    let mut e = editor("", 0, 0, 0);
    e.edit_proc(&cfg, &E_Cmd::InsertStr("\t".to_string()), "", &lang);
    assert_eq!(e.buf.to_text(), "    ");
    assert_eq!(e.cur, Cur { y: 0, x: 4, disp_x: 4 });
}

#[test]
fn edit_proc_cancels_non_edits_and_skips_history_on_undo() {
    let lang = ewin::lang::Lang::default();
    let cfg = Cfg::default();
    let mut e = editor("ab", 0, 1, 1);
    assert_eq!(e.edit_proc(&cfg, &E_Cmd::CursorLeft, "", &lang), ActType::Cancel);
    assert_eq!(e.buf.to_text(), "ab");
    assert_eq!(e.history.undo_vec.len(), 0);
    e.e_cmd = E_Cmd::Undo;
    assert_eq!(e.edit_proc(&cfg, &E_Cmd::InsertStr("Q".to_string()), "", &lang), ActType::Next);
    assert_eq!(e.buf.to_text(), "aQb");
    assert_eq!(e.history.undo_vec.len(), 0);
}

#[test]
fn undo_reverts_each_edit() {
    let cfg = Cfg::default();
    let lang = ewin::lang::Lang::default();
    let mut e = editor("ab\r\ncd", 0, 1, 1);
    e.h_file.nl = "CRLF".to_string();
    e.edit_proc(&cfg, &E_Cmd::InsertStr("XYZ".to_string()), "", &lang);
    e.edit_proc(&cfg, &E_Cmd::InsertRow, "", &lang);
    e.edit_proc(&cfg, &E_Cmd::DelNextChar, "", &lang);
    e.edit_proc(&cfg, &E_Cmd::DelPrevChar, "", &lang);
    assert_eq!(e.buf.to_text(), "aXYZ\r\ncd");
    assert_eq!(e.cur, Cur { y: 0, x: 4, disp_x: 4 });
    assert_eq!(e.undo(&lang), ActType::Next);
    assert_eq!(e.buf.to_text(), "aXYZ\r\n\r\ncd");
    assert_eq!(e.cur, Cur { y: 1, x: 0, disp_x: 0 });
    assert_eq!(e.undo(&lang), ActType::Next);
    assert_eq!(e.buf.to_text(), "aXYZ\r\nb\r\ncd");
    assert_eq!(e.undo(&lang), ActType::Next);
    assert_eq!(e.buf.to_text(), "aXYZb\r\ncd");
    assert_eq!(e.cur, Cur { y: 0, x: 4, disp_x: 4 });
    assert_eq!(e.undo(&lang), ActType::Next);
    assert_eq!(e.buf.to_text(), "ab\r\ncd");
    assert_eq!(e.cur, Cur { y: 0, x: 1, disp_x: 1 });
    assert_eq!(e.history.redo_vec.len(), 4);
    assert_eq!(e.undo(&lang), ActType::Render(ewin::model::RParts::MsgBar(lang.no_undo_operation.clone())));
}

#[test]
fn redo_reapplies_undone_edits() {
    let cfg = Cfg::default();
    let lang = ewin::lang::Lang::default();
    let mut e = editor("ab\ncd", 1, 1, 1);
    e.edit_proc(&cfg, &E_Cmd::InsertStr("Q".to_string()), "", &lang);
    e.edit_proc(&cfg, &E_Cmd::InsertRow, "", &lang);
    e.edit_proc(&cfg, &E_Cmd::DelPrevChar, "", &lang);
    let text = e.buf.to_text();
    let cur = e.cur;
    assert_eq!(text, "ab\ncQd");
    for _ in 0..3 {
        e.undo(&lang);
    }
    assert_eq!(e.buf.to_text(), "ab\ncd");
    e.e_cmd = E_Cmd::Redo;
    for _ in 0..3 {
        assert_eq!(e.redo(&cfg, &lang), ActType::Next);
    }
    assert_eq!(e.buf.to_text(), text);
    assert_eq!(e.cur, cur);
    assert_eq!(e.history.undo_vec.len(), 3);
    assert_eq!(e.history.redo_vec.len(), 0);
    assert_eq!(e.redo(&cfg, &lang), ActType::Render(ewin::model::RParts::MsgBar(lang.no_redo_operation.clone())));
}

fn sel(sy: usize, sx: usize, ey: usize, ex: usize) -> SelRange {
    SelRange { mode: ewin::model::SelMode::Normal, sy, sx, s_disp_x: sx, ey, ex, e_disp_x: ex }
}

#[test]
fn edit_proc_typing_replaces_the_selection() {
    let cfg = Cfg::default();
    let lang = ewin::lang::Lang::default();
    let mut e = editor("hello world", 0, 5, 5);
    e.sel = sel(0, 5, 0, 0);
    assert_eq!(e.edit_proc(&cfg, &E_Cmd::InsertStr("bye".to_string()), "", &lang), ActType::Next);
    assert_eq!(e.buf.to_text(), "bye world");
    assert_eq!(e.cur, Cur { y: 0, x: 3, disp_x: 3 });
    assert!(e.sel.sy == ewin::def::USIZE_UNDEFINED);
    let ep = &e.history.undo_vec[0];
    assert_eq!(ep.sel_proc.clone().unwrap().str, "hello");
    assert_eq!(ep.sel_proc.clone().unwrap().e_cmd, E_Cmd::DelPrevChar);
    assert_eq!(ep.proc.clone().unwrap().str, "bye");
}

#[test]
fn edit_proc_deletion_key_deletes_only_the_selection() {
    let cfg = Cfg::default();
    let lang = ewin::lang::Lang::default();
    let mut e = editor("ab\ncd", 1, 1, 1);
    e.sel = sel(0, 1, 1, 1);
    assert_eq!(e.edit_proc(&cfg, &E_Cmd::DelNextChar, "", &lang), ActType::Next);
    assert_eq!(e.buf.to_text(), "ad");
    assert_eq!(e.cur, Cur { y: 0, x: 1, disp_x: 1 });
    assert!(e.history.undo_vec[0].proc.is_none());
    assert_eq!(e.history.undo_vec[0].sel_proc.clone().unwrap().e_cmd, E_Cmd::DelNextChar);
}

#[test]
fn edit_proc_cut_and_paste() {
    let cfg = Cfg::default();
    let mut lang = ewin::lang::Lang::default();
    lang.no_sel_range = "no range".to_string();
    let mut e = editor("aab", 0, 2, 2);
    assert_eq!(e.edit_proc(&cfg, &E_Cmd::Cut, "", &lang), ActType::Render(ewin::model::RParts::MsgBar("no range".to_string())));
    e.sel = sel(0, 1, 0, 2);
    assert_eq!(e.edit_proc(&cfg, &E_Cmd::Cut, "", &lang), ActType::Next);
    assert_eq!(e.buf.to_text(), "ab");
    assert_eq!(e.cur, Cur { y: 0, x: 1, disp_x: 1 });
    assert_eq!(e.history.undo_vec[0].sel_proc.clone().unwrap().str, "a");
    assert!(e.history.undo_vec[0].proc.is_none());
    // an empty insertion pastes the clipboard, with the file's line breaks
    e.h_file.nl = "CRLF".to_string();
    assert_eq!(e.edit_proc(&cfg, &E_Cmd::InsertStr(String::new()), "x\ny", &lang), ActType::Next);
    assert_eq!(e.buf.to_text(), "ax\r\nyb");
    assert_eq!(e.cur, Cur { y: 1, x: 1, disp_x: 1 });
}

#[test]
fn edit_proc_deletion_at_the_ends_does_nothing() {
    let cfg = Cfg::default();
    let lang = ewin::lang::Lang::default();
    let mut e = editor("ab", 0, 2, 2);
    assert_eq!(e.edit_proc(&cfg, &E_Cmd::DelNextChar, "", &lang), ActType::Cancel);
    let mut e = editor("ab", 0, 0, 0);
    assert_eq!(e.edit_proc(&cfg, &E_Cmd::DelPrevChar, "", &lang), ActType::Cancel);
    assert_eq!(e.buf.to_text(), "ab");
    assert_eq!(e.history.undo_vec.len(), 0);
}

#[test]
fn edit_proc_box_rows() {
    let cfg = Cfg::default();
    let lang = ewin::lang::Lang::default();
    let mut e = editor("abc\nd\nefg", 0, 1, 1);
    let rows = vec![(SelRange::default(), "X".to_string()), (SelRange::default(), "Y".to_string()), (SelRange::default(), "Z".to_string()), (SelRange::default(), "W".to_string())];
    assert_eq!(e.edit_proc(&cfg, &E_Cmd::InsertBox(rows), "", &lang), ActType::Next);
    assert_eq!(e.buf.to_text(), "aXbc\ndY\neZfg\n W");
    assert_eq!(e.cur, Cur { y: 0, x: 1, disp_x: 1 });
    let del = vec![(sel(0, 1, 0, 2), "X".to_string()), (sel(2, 1, 2, 2), "Z".to_string())];
    assert_eq!(e.edit_proc(&cfg, &E_Cmd::DelBox(del), "", &lang), ActType::Next);
    assert_eq!(e.buf.to_text(), "abc\ndY\nefg\n W");
}

#[test]
fn edit_proc_replaces_at_positions() {
    let cfg = Cfg::default();
    let lang = ewin::lang::Lang::default();
    let mut e = editor("a-b-c\nd-e", 0, 0, 0);
    let mut set = std::collections::BTreeSet::new();
    set.insert(1usize);
    set.insert(3usize);
    set.insert(7usize);
    assert_eq!(e.edit_proc(&cfg, &E_Cmd::ReplaceExec("-".to_string(), "+=".to_string(), set), "", &lang), ActType::Next);
    assert_eq!(e.buf.to_text(), "a+=b+=c\nd+=e");
    assert_eq!(e.cur, Cur { y: 1, x: 3, disp_x: 3 });
    assert_eq!(e.history.undo_vec[0].proc.clone().unwrap().cur_s, Cur { y: 0, x: 1, disp_x: 1 });
}

#[test]
fn select_row_takes_the_row_and_its_line_break() {
    let cfg = Cfg::default();
    let mut e = editor("ab\ncd", 1, 1, 1);
    e.select_row(&cfg, 0);
    assert_eq!(e.sel, SelRange { mode: SelMode::Normal, sy: 0, ey: 0, sx: 0, ex: 3, s_disp_x: 0, e_disp_x: 3 });
    assert_eq!(e.cur, Cur { y: 0, x: 0, disp_x: 0 });
    e.select_row(&cfg, 1);
    assert_eq!(e.sel, SelRange { mode: SelMode::Normal, sy: 1, ey: 1, sx: 0, ex: 2, s_disp_x: 0, e_disp_x: 2 });
    assert_eq!(e.buf.to_text(), "ab\ncd");
}

#[test]
fn mouse_move_cur_stops_before_a_wide_char_and_clears() {
    let cfg = Cfg::default();
    let mut e = editor("a\u{3042}b\n", 0, 0, 0);
    e.select_row(&cfg, 0);
    e.mouse_move_cur(&cfg, 0, 2, 0, 0, true);
    assert_eq!(e.cur, Cur { y: 0, x: 1, disp_x: 1 });
    assert_eq!(e.sel, SelRange::default());
    e.mouse_move_cur(&cfg, 0, 1, 0, 2, false);
    assert_eq!(e.cur, Cur { y: 0, x: 2, disp_x: 3 });
}

#[test]
fn mouse_move_cur_past_the_row_in_box_mode() {
    let cfg = Cfg::default();
    let mut e = editor("ab\n", 0, 0, 0);
    e.sel.mode = SelMode::BoxSelect;
    e.mouse_move_cur(&cfg, 0, 5, 0, 0, true);
    assert_eq!(e.cur, Cur { y: 0, x: 5, disp_x: 5 });
    assert_eq!(e.sel.mode, SelMode::BoxSelect);
    assert_eq!(e.sel.sy, SelRange::default().sy);
}

#[test]
fn undo_and_redo_a_typed_over_selection() {
    let cfg = Cfg::default();
    let lang = ewin::lang::Lang::default();
    let mut e = editor("abcdef", 0, 4, 4);
    e.sel = sel(0, 1, 0, 4);
    e.edit_proc(&cfg, &E_Cmd::InsertStr("X".to_string()), "", &lang);
    assert_eq!(e.buf.to_text(), "aXef");
    assert_eq!(e.cur, Cur { y: 0, x: 2, disp_x: 2 });
    assert_eq!(e.undo(&lang), ActType::Next);
    assert_eq!(e.buf.to_text(), "abcdef");
    assert_eq!(e.cur, Cur { y: 0, x: 4, disp_x: 4 });
    e.e_cmd = E_Cmd::Redo;
    assert_eq!(e.redo(&cfg, &lang), ActType::Next);
    assert_eq!(e.buf.to_text(), "aXef");
    assert_eq!(e.cur, Cur { y: 0, x: 2, disp_x: 2 });
    assert_eq!(e.sel, SelRange::default());
}

#[test]
fn undo_a_cut_puts_the_range_back() {
    let cfg = Cfg::default();
    let lang = ewin::lang::Lang::default();
    let mut e = editor("abcdef", 0, 5, 5);
    e.sel = sel(0, 2, 0, 5);
    e.edit_proc(&cfg, &E_Cmd::Cut, "", &lang);
    assert_eq!(e.buf.to_text(), "abf");
    assert_eq!(e.undo(&lang), ActType::Next);
    assert_eq!(e.buf.to_text(), "abcdef");
    assert_eq!(e.cur, Cur { y: 0, x: 5, disp_x: 5 });
    e.e_cmd = E_Cmd::Redo;
    assert_eq!(e.redo(&cfg, &lang), ActType::Next);
    assert_eq!(e.buf.to_text(), "abf");
    assert_eq!(e.cur, Cur { y: 0, x: 2, disp_x: 2 });
}

#[test]
fn mouse_apply_carries_out_each_target() {
    let cfg = Cfg::default();
    let mut e = editor("ab\ncd", 0, 2, 2);
    e.mouse_apply(&cfg, &MouseTarget::Stay, 0, 0);
    assert_eq!(e.cur, Cur { y: 0, x: 2, disp_x: 2 });
    e.mouse_apply(&cfg, &MouseTarget::SelectRow(1), 0, 0);
    assert_eq!(e.sel, SelRange { mode: SelMode::Normal, sy: 1, ey: 1, sx: 0, ex: 2, s_disp_x: 0, e_disp_x: 2 });
    assert_eq!(e.cur, Cur { y: 1, x: 0, disp_x: 0 });
    e.mouse_apply(&cfg, &MouseTarget::MoveCur(0, 1, true), 0, 0);
    assert_eq!(e.cur, Cur { y: 0, x: 1, disp_x: 1 });
    assert_eq!(e.sel, SelRange::default());
}
