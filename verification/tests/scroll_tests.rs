use ewin::cmd::CmdType;
use ewin::model::ScrollbarV;
use ewin::scroll::ScrollState;

fn state(cur_y: usize, offset_y: usize, len_rows: usize) -> ScrollState {
    ScrollState { cur_y, offset_y, row_len: 10, row_posi: 2, len_rows, scrl_v: ScrollbarV::default(), is_selected: false, move_cur_by_scrolling: false }
}

#[test]
fn scroll_follows_cursor_down() {
    let mut st = state(9, 0, 20);
    st.scroll(&CmdType::CursorDown);
    assert_eq!(st.offset_y, 1);
    let mut st = state(5, 0, 20);
    st.scroll(&CmdType::CursorDown);
    assert_eq!(st.offset_y, 0);
}

#[test]
fn scroll_cursor_up_and_pages() {
    let mut st = state(10, 10, 30);
    st.scroll(&CmdType::CursorUp);
    assert_eq!(st.offset_y, 9);
    let mut st = state(25, 20, 30);
    st.scroll(&CmdType::CursorPageUp);
    assert_eq!(st.offset_y, 10);
    let mut st = state(10, 5, 40);
    st.scroll(&CmdType::CursorPageDown);
    assert_eq!(st.offset_y, 15);
    // near the end: the last rows the view can cover
    let mut st = state(12, 10, 20);
    st.scroll(&CmdType::CursorPageDown);
    assert_eq!(st.offset_y, 10);
    let mut st = state(12, 10, 20);
    st.scroll(&CmdType::CursorFileHome);
    assert_eq!(st.offset_y, 0);
}

#[test]
fn scroll_reaches_cursor_out_of_view() {
    let mut st = state(5, 10, 20);
    st.scroll(&CmdType::DelNextChar);
    assert_eq!(st.offset_y, 2);
    let mut st = state(50, 0, 100);
    st.scroll(&CmdType::MoveRowProm);
    assert_eq!(st.offset_y, 47);
    let mut st = state(95, 0, 100);
    st.scroll(&CmdType::CursorDown);
    assert_eq!(st.offset_y, 87);
}

#[test]
fn scroll_mouse_wheel() {
    let mut st = state(0, 3, 20);
    st.scroll(&CmdType::MouseScrollDown);
    assert_eq!(st.offset_y, 4);
    let mut st = state(0, 10, 20);
    st.scroll(&CmdType::MouseScrollDown);
    assert_eq!(st.offset_y, 10);
    let mut st = state(0, 0, 20);
    st.scroll(&CmdType::MouseScrollUp);
    assert_eq!(st.offset_y, 0);
    // with moving the cursor by scrolling on, a cursor on the first row shows the top
    let mut st = state(0, 3, 20);
    st.move_cur_by_scrolling = true;
    st.scroll(&CmdType::MouseScrollDown);
    assert_eq!(st.offset_y, 0);
}

#[test]
fn disp_rows_with_scrollbar() {
    let mut st = state(0, 0, 100);
    assert_eq!(st.get_disp_row_including_extra(), 100);
    st.scrl_v.bar_len = 4;
    st.scrl_v.move_len = 3;
    assert_eq!(st.get_disp_row_including_extra(), 28);
}

fn hstate(cur_x: usize, disp_x: usize, offset_x: usize) -> ewin::scroll::HScrollState {
    ewin::scroll::HScrollState {
        cur: ewin::model::Cur { y: 0, x: cur_x, disp_x },
        cur_org_y: 0,
        offset_x,
        offset_x_org: offset_x,
        offset_disp_x: offset_x,
        col_len: 20,
        sel_mode: ewin::model::SelMode::Normal,
        scrl_h_is_enable: false,
    }
}

#[test]
fn scroll_horizontal_row_start_resets_view() {
    let cfg = ewin::cfg::Cfg::default();
    let row: Vec<char> = vec!['a'; 30];
    let mut st = hstate(0, 0, 12);
    st.scroll_horizontal(&cfg, &CmdType::CursorRowHome, &row, &row);
    assert_eq!((st.offset_x, st.offset_disp_x), (0, 0));
}

#[test]
fn scroll_horizontal_left_near_edge_moves_view_left() {
    let cfg = ewin::cfg::Cfg::default();
    let row: Vec<char> = vec!['a'; 30];
    let mut st = hstate(13, 13, 12);
    st.scroll_horizontal(&cfg, &CmdType::CursorLeft, &row, &row);
    assert_eq!((st.offset_x, st.offset_disp_x), (2, 2));
    // far from the edge nothing moves
    let mut st = hstate(20, 20, 12);
    st.scroll_horizontal(&cfg, &CmdType::CursorLeft, &row, &row);
    assert_eq!((st.offset_x, st.offset_disp_x), (12, 12));
}

#[test]
fn scroll_horizontal_right_near_edge_moves_view_right() {
    let cfg = ewin::cfg::Cfg::default();
    let row: Vec<char> = vec!['a'; 30];
    let mut st = hstate(18, 18, 0);
    st.scroll_horizontal(&cfg, &CmdType::CursorRight, &row, &row);
    assert_eq!((st.offset_x, st.offset_disp_x), (10, 10));
}

#[test]
fn scroll_horizontal_row_end_jumps_to_cursor() {
    let cfg = ewin::cfg::Cfg::default();
    let row: Vec<char> = vec!['a'; 30];
    let mut st = hstate(30, 30, 0);
    st.scroll_horizontal(&cfg, &CmdType::CursorRowEnd, &row, &row);
    assert_eq!((st.offset_x, st.offset_disp_x), (13, 13));
    // wide characters count two columns each
    let wide: Vec<char> = vec!['あ'; 20];
    let mut st = hstate(20, 40, 0);
    st.scroll_horizontal(&cfg, &CmdType::CursorRowEnd, &wide, &wide);
    assert_eq!((st.offset_x, st.offset_disp_x), (12, 24));
}

#[test]
fn test_editor_scroll_base() {
    // ten text rows shown; the buffer holds "1\n2\n...\n10"
    let mut st = ScrollState { cur_y: 0, offset_y: 0, row_len: 10, row_posi: 2, len_rows: 10, scrl_v: ScrollbarV::default(), is_selected: false, move_cur_by_scrolling: false };

    /*** Downward test ***/
    // cur.y = 0
    st.scroll(&CmdType::DelNextChar);
    assert_eq!(st.offset_y, 0);
    // cur.y < offset_y
    st.offset_y = 10;
    st.cur_y = 5;
    st.scroll(&CmdType::DelNextChar);
    assert_eq!(st.offset_y, 0);
    // cur.y is last row
    st.offset_y = 0;
    st.cur_y = 20;
    st.scroll(&CmdType::DelNextChar);
    assert_eq!(st.offset_y, 0);

    // the buffer now holds "1\n2\n...\n20"
    st.len_rows = 20;
    st.offset_y = 0;
    st.cur_y = 9;
    st.scroll(&CmdType::DelNextChar);
    assert_eq!(st.offset_y, 1);

    /*** Upward test ***/
    st.offset_y = 10;
    st.cur_y = 10;
    st.scroll(&CmdType::CursorUp);
    assert_eq!(st.offset_y, 9);
    st.offset_y = 0;
    st.cur_y = 1;
    st.scroll(&CmdType::CursorUp);
    assert_eq!(st.offset_y, 0);

    /*** Page change test ***/
    st.offset_y = 10;
    st.cur_y = 20;
    st.scroll(&CmdType::CursorPageUp);
    assert_eq!(st.offset_y, 0);
    st.offset_y = 5;
    st.cur_y = 15;
    st.scroll(&CmdType::CursorPageUp);
    assert_eq!(st.offset_y, 0);
    st.offset_y = 0;
    st.cur_y = 5;
    st.scroll(&CmdType::CursorPageUp);
    assert_eq!(st.offset_y, 0);
    // 1 page
    st.offset_y = 0;
    st.cur_y = 10;
    st.scroll(&CmdType::CursorPageDown);
    assert_eq!(st.offset_y, 10);
    // not 1 page
    st.offset_y = 5;
    st.cur_y = 5;
    st.scroll(&CmdType::CursorPageDown);
    assert_eq!(st.offset_y, 10);
}
