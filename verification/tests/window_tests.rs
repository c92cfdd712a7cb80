use ewin::cmd::WindowSplitType;
use ewin::window::{Window, WindowMgr};

#[test]
fn split_vertical_then_back() {
    let mut m = WindowMgr::default();
    assert_eq!(m.win_list.len(), 1);
    assert_eq!(m.win_list[0].len(), 1);
    m.win_list[0][0].cur.y = 7;
    m.split_window(&WindowSplitType::Vertical);
    assert_eq!(m.split_type, WindowSplitType::Vertical);
    assert_eq!(m.win_list[0].len(), 2);
    assert_eq!(m.win_list[0][0].cur.y, 7);
    assert_eq!(m.win_list[0][1], Window::new());
    // splitting a split area goes back to one new window
    m.split_line_v = 40;
    m.split_window(&WindowSplitType::Vertical);
    assert_eq!(m.split_type, WindowSplitType::NotSplit);
    assert_eq!(m.win_list[0].len(), 1);
    assert_eq!(m.win_list[0][0].cur.y, 0);
    assert_eq!(m.split_line_v, 0);
}

#[test]
fn split_horizontal_adds_no_window() {
    let mut m = WindowMgr::default();
    m.split_window(&WindowSplitType::Horizontal);
    assert_eq!(m.split_type, WindowSplitType::Horizontal);
    assert_eq!(m.win_list[0].len(), 1);
    assert_eq!(m.curt_ref().cur.x, 0);
}
