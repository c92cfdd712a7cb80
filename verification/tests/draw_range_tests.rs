use ewin::draw_range::{draw_range_of, DrawRangeState};
use ewin::keycmd::E_Cmd;
use ewin::model::{Cur, E_DrawRange, SelRange};

fn base() -> DrawRangeState {
    DrawRangeState {
        rnw: 2,
        rnw_org: 2,
        offset_x: 0,
        offset_x_org: 0,
        offset_y: 10,
        offset_y_org: 10,
        key_macro_is_exec_end: false,
        scrl_h_is_show: false,
        scrl_h_is_show_org: false,
        scrl_h_is_enable: false,
        scrl_h_clm_posi_org: 0,
        scrl_h_bar_len: 0,
        scrl_v_is_enable: false,
        scrl_v_row_posi: 0,
        scrl_v_row_posi_org: 0,
        sel: SelRange::default(),
        sel_org: SelRange::default(),
        row_disp_len: 20,
        row_len: 20,
        cur: Cur { y: 12, x: 3, disp_x: 3 },
        cur_org: Cur { y: 12, x: 2, disp_x: 2 },
        len_rows: 100,
        len_rows_org: 100,
        is_edit: false,
        is_enable_syntax_highlight: false,
        is_box_insert: false,
        is_input_comple: false,
        is_input_comple_org: false,
        input_comple_rows: None,
        is_mouse_on_input_comple: false,
        col_len: 80,
        search_org_rows: vec![],
        restyle_rows: vec![],
    }
}

fn sorted(mut v: Vec<usize>) -> Vec<usize> {
    v.sort();
    v
}

#[test]
fn draw_range_cursor_moves() {
    let st = base();
    let r = draw_range_of(&st, &E_Cmd::CursorRight);
    assert_eq!(r.draw_range, E_DrawRange::MoveCur);
    let r = draw_range_of(&st, &E_Cmd::CursorRightSelect);
    assert_eq!(r.draw_range, E_DrawRange::TargetRange(12, 12));
    assert_eq!(r.restyle_rows, vec![12]);
    let mut st = base();
    st.cur_org = Cur { y: 14, x: 0, disp_x: 0 };
    let r = draw_range_of(&st, &E_Cmd::CursorLeft);
    assert_eq!(r.draw_range, E_DrawRange::TargetRange(12, 14));
    assert_eq!(sorted(r.restyle_rows), vec![12, 13, 14]);
}

#[test]
fn draw_range_scrolls_and_redraws_all() {
    let mut st = base();
    st.offset_y = 11;
    let r = draw_range_of(&st, &E_Cmd::CursorDown);
    assert_eq!(r.draw_range, E_DrawRange::ScrollDown(28, 30));
    st.offset_y = 9;
    let r = draw_range_of(&st, &E_Cmd::CursorUp);
    assert_eq!(r.draw_range, E_DrawRange::ScrollUp(9, 11));
    st.offset_y = 40;
    let r = draw_range_of(&st, &E_Cmd::CursorDown);
    assert_eq!(r.draw_range, E_DrawRange::All);
    let st = base();
    let r = draw_range_of(&st, &E_Cmd::Resize(80, 24));
    assert_eq!(r.draw_range, E_DrawRange::All);
    assert_eq!(r.restyle_rows.len(), 100);
}

#[test]
fn draw_range_edits() {
    let mut st = base();
    st.is_edit = true;
    st.len_rows = 99;
    st.cur = Cur { y: 11, x: 0, disp_x: 0 };
    let r = draw_range_of(&st, &E_Cmd::DelPrevChar);
    assert_eq!(r.draw_range, E_DrawRange::After(11));
    assert!(r.restyle_rows.is_empty());
    let mut st = base();
    st.is_edit = true;
    let r = draw_range_of(&st, &E_Cmd::InsertStr("a".to_string()));
    assert_eq!(r.draw_range, E_DrawRange::TargetRange(12, 12));
    let r = draw_range_of(&st, &E_Cmd::InsertRow);
    assert_eq!(r.draw_range, E_DrawRange::After(11));
}

#[test]
fn draw_range_selection_and_cancel() {
    let mut st = base();
    st.sel_org = SelRange { sy: 15, ey: 13, sx: 0, ex: 0, ..SelRange::default() };
    let r = draw_range_of(&st, &E_Cmd::CursorRight);
    assert_eq!(r.draw_range, E_DrawRange::TargetRange(13, 15));
    let mut st = base();
    st.sel = SelRange { sy: 13, ey: 15, sx: 0, ex: 1, ..SelRange::default() };
    st.sel_org = SelRange { sy: 13, ey: 15, sx: 0, ex: 1, ..SelRange::default() };
    st.search_org_rows = vec![5, 20, 20, 40];
    st.restyle_rows = vec![99];
    let r = draw_range_of(&st, &E_Cmd::CancelState);
    assert_eq!(r.draw_range, E_DrawRange::Targetpoint);
    assert_eq!(sorted(r.restyle_rows), vec![13, 14, 15, 20]);
    let r = draw_range_of(&st, &E_Cmd::AllSelect);
    assert_eq!(r.draw_range, E_DrawRange::All);
    assert_eq!(r.restyle_rows.len(), 100);
}
