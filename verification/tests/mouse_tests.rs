use ewin::cmd::CmdType;
use ewin::model::{ScrollbarV, SelMode};
use ewin::mouse::{ctrl_mouse, MouseFlags, MouseGeom, MouseTarget};
use ewin::scroll::ScrollState;

fn st() -> ScrollState {
    ScrollState { cur_y: 5, offset_y: 10, row_len: 20, row_posi: 2, len_rows: 100, scrl_v: ScrollbarV::default(), is_selected: false, move_cur_by_scrolling: false }
}

fn flags() -> MouseFlags {
    MouseFlags { is_dragging: false, sel_mode: SelMode::Normal, scrl_v_is_enable: false, scrl_h_is_enable: false }
}

fn geom() -> MouseGeom {
    MouseGeom { scrl_v_is_show: true, rnw_margin: 4, col_len: 60, scrl_h_row_posi: 23, scrl_h_height: 1, term_rows: 25 }
}

#[test]
fn mouse_press_moves_cursor_and_clears_selection() {
    let r = ctrl_mouse(&CmdType::MouseDownLeft(5, 10), flags(), geom(), &st());
    assert_eq!(r.target, MouseTarget::MoveCur(13, 6, true));
    assert_eq!(r.scrlbar_v, None);
    assert_eq!(r.scrlbar_h, None);
    assert!(!r.flags.is_dragging);
}

#[test]
fn mouse_drag_moves_cursor_and_drags() {
    let r = ctrl_mouse(&CmdType::MouseDragLeftRight(5, 10), flags(), geom(), &st());
    assert_eq!(r.target, MouseTarget::MoveCur(13, 6, false));
    assert!(r.flags.is_dragging);
    let r = ctrl_mouse(&CmdType::MouseDragLeftBox(5, 2), flags(), geom(), &st());
    assert_eq!(r.flags.sel_mode, SelMode::BoxSelect);
    assert_eq!(r.target, MouseTarget::MoveCur(13, 0, false));
}

#[test]
fn mouse_press_on_row_numbers_selects_row() {
    let r = ctrl_mouse(&CmdType::MouseDownLeft(5, 1), flags(), geom(), &st());
    assert_eq!(r.target, MouseTarget::SelectRow(5));
}

#[test]
fn mouse_press_on_vertical_scrollbar_takes_it() {
    let r = ctrl_mouse(&CmdType::MouseDownLeft(5, 64), flags(), geom(), &st());
    assert_eq!(r.scrlbar_v, Some(5));
    assert!(r.flags.scrl_v_is_enable);
    assert_eq!(r.target, MouseTarget::Stay);
    // dragging it down keeps moving it; sideways keeps it taken without moving
    let mut f = flags();
    f.scrl_v_is_enable = true;
    let r = ctrl_mouse(&CmdType::MouseDragLeftDown(6, 64), f, geom(), &st());
    assert_eq!(r.scrlbar_v, Some(6));
    let r = ctrl_mouse(&CmdType::MouseDragLeftLeft(6, 60), f, geom(), &st());
    assert_eq!(r.scrlbar_v, None);
    assert!(r.flags.scrl_v_is_enable);
    assert_eq!(r.target, MouseTarget::Stay);
}

#[test]
fn mouse_press_on_horizontal_scrollbar_takes_it() {
    let r = ctrl_mouse(&CmdType::MouseDownLeft(23, 30), flags(), geom(), &st());
    assert_eq!(r.scrlbar_h, Some(30));
    assert!(r.flags.scrl_h_is_enable);
    assert_eq!(r.target, MouseTarget::Stay);
}

#[test]
fn mouse_release_stops_dragging() {
    let mut f = flags();
    f.is_dragging = true;
    let r = ctrl_mouse(&CmdType::MouseUpLeft(5, 5), f, geom(), &st());
    assert!(!r.flags.is_dragging);
    assert_eq!(r.target, MouseTarget::Stay);
    let r = ctrl_mouse(&CmdType::CursorDown, f, geom(), &st());
    assert_eq!(r.flags, f);
}
