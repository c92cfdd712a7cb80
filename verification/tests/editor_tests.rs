use ewin::edit_plan::{plan_edit, EditOp};
use ewin::history::History;
use ewin::input_comple::{ctrl_input_comple, InputCompleStep};
use ewin::keycmd::E_Cmd;
use ewin::lang::Lang;
use ewin::model::{ActType, Direction, RParts, ScrollbarV};
use ewin::scroll::ScrollState;

#[test]
fn input_comple_steps() {
    assert_eq!(ctrl_input_comple(&E_Cmd::InputComple, false, false, false, 5, 2, 0), InputCompleStep::Reinit);
    assert_eq!(ctrl_input_comple(&E_Cmd::MouseDownLeft(3, 9), true, false, false, 5, 2, 0), InputCompleStep::SelectAndClose);
    assert_eq!(ctrl_input_comple(&E_Cmd::MouseDownLeft(3, 9), false, false, false, 5, 2, 10), InputCompleStep::MoveCursorAndClose(11, 4));
    assert_eq!(ctrl_input_comple(&E_Cmd::MouseMove(3, 9), false, true, false, 5, 2, 0), InputCompleStep::ClearHighlight);
    assert_eq!(ctrl_input_comple(&E_Cmd::MouseMove(3, 9), false, false, false, 5, 2, 0), InputCompleStep::Cancel);
    assert_eq!(ctrl_input_comple(&E_Cmd::MouseScrollUp, false, false, false, 5, 2, 0), InputCompleStep::MoveHighlight(Direction::Up));
    assert_eq!(ctrl_input_comple(&E_Cmd::InsertRow, false, false, true, 5, 2, 0), InputCompleStep::SelectAndClose);
    assert_eq!(ctrl_input_comple(&E_Cmd::InsertStr("a".to_string()), false, false, true, 5, 2, 0), InputCompleStep::EditThenReinit);
    assert_eq!(ctrl_input_comple(&E_Cmd::DelNextChar, false, false, true, 5, 2, 0), InputCompleStep::EditThenClose);
    assert_eq!(ctrl_input_comple(&E_Cmd::FindNext, false, false, false, 5, 2, 0), InputCompleStep::Next);
}

#[test]
fn edit_plans() {
    let p = plan_edit(&E_Cmd::DelNextChar, true, true, &E_Cmd::Null);
    assert_eq!(p.del_selection, Some(true));
    assert!(p.clear_selection);
    assert_eq!(p.op, None);
    assert!(!p.cancel && p.record_history);
    let p = plan_edit(&E_Cmd::Cut, true, true, &E_Cmd::Cut);
    assert_eq!(p.del_selection, Some(false));
    assert!(!p.clear_selection);
    assert_eq!(p.op, Some(EditOp::Cut));
    let p = plan_edit(&E_Cmd::InsertStr("x".to_string()), false, true, &E_Cmd::Undo);
    assert_eq!(p.del_selection, None);
    assert_eq!(p.op, Some(EditOp::InsertStr));
    assert!(!p.record_history);
    let p = plan_edit(&E_Cmd::FindNext, false, false, &E_Cmd::Null);
    assert!(p.cancel);
}

#[test]
fn undo_redo_history() {
    let mut lang = Lang::default();
    lang.no_undo_operation = "no undo".to_string();
    lang.no_redo_operation = "no redo".to_string();
    let mut h: History<String> = History::new();
    assert_eq!(h.undo(&lang), ActType::Render(RParts::MsgBar("no undo".to_string())));
    h.record("a".to_string());
    h.record("b".to_string());
    assert_eq!(h.get_undo_last(), Some(&"b".to_string()));
    assert_eq!(h.undo(&lang), ActType::Next);
    assert_eq!(h.get_redo_last(), Some(&"b".to_string()));
    assert_eq!(h.redo(&lang), ActType::Next);
    assert_eq!(h.undo_vec, vec!["a".to_string(), "b".to_string()]);
    assert_eq!(h.redo(&lang), ActType::Render(RParts::MsgBar("no redo".to_string())));
    h.undo(&lang);
    h.record("c".to_string());
    assert_eq!(h.len_redo(), 0);
    assert_eq!(h.len_undo(), 2);
}

#[test]
fn mouse_target_positions() {
    let st = ScrollState { cur_y: 4, offset_y: 10, row_len: 20, row_posi: 2, len_rows: 50, scrl_v: ScrollbarV::default(), is_selected: false, move_cur_by_scrolling: false };
    assert_eq!(st.mouse_cur_target(0, 3, 30, 5), (3, 0));
    assert_eq!(st.mouse_cur_target(7, 9, 30, 5), (15, 4));
    assert_eq!(st.mouse_cur_target(30, 9, 30, 5), (30, 4));
    let near_end = ScrollState { offset_y: 45, ..st.clone() };
    assert_eq!(near_end.mouse_cur_target(8, 9, 30, 5), (49, 4));
}

fn proc_of(e_cmd: E_Cmd, s: (usize, usize), e: (usize, usize)) -> ewin::history::Proc {
    ewin::history::Proc {
        e_cmd,
        p_cmd: ewin::keycmd::P_Cmd::Null,
        cur_s: ewin::model::Cur { y: s.0, x: s.1, disp_x: s.1 },
        cur_e: ewin::model::Cur { y: e.0, x: e.1, disp_x: e.1 },
        str: "ab".to_string(),
        box_sel_vec: vec![],
        box_sel_redo_vec: vec![],
        sel: ewin::model::SelRange::default(),
    }
}

#[test]
fn undo_cursor_positions() {
    let here = ewin::model::Cur { y: 9, x: 9, disp_x: 9 };
    let ins = proc_of(E_Cmd::InsertStr("ab".to_string()), (1, 2), (1, 4));
    assert_eq!(ewin::history::undo_init(&ins, false, here), ins.cur_s);
    assert_eq!(ewin::history::undo_exec_edit(&ins), ewin::history::UndoEdit::DelNextCharOfSel);
    assert_eq!(ewin::history::undo_finalize(&ins, false, here), here);
    let bs = proc_of(E_Cmd::DelPrevChar, (1, 4), (1, 3));
    assert_eq!(ewin::history::undo_init(&bs, false, here), bs.cur_e);
    assert_eq!(ewin::history::undo_exec_edit(&bs), ewin::history::UndoEdit::InsertStr);
    assert_eq!(ewin::history::undo_finalize(&bs, false, here), bs.cur_s);
    let del_sel = proc_of(E_Cmd::DelNextChar, (1, 6), (1, 2));
    assert_eq!(ewin::history::undo_init(&del_sel, true, here), del_sel.cur_e);
    assert_eq!(ewin::history::undo_finalize(&del_sel, true, here), del_sel.cur_s);
    let (c, _) = ewin::history::redo_exec_state(&bs, ewin::model::SelRange::default());
    assert_eq!(c, bs.cur_s);
}
