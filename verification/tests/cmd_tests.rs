use ewin::cmd::{to_ascii_upper, Cmd, CmdConfig, CmdType, WindowSplitType};
use ewin::keycmd::{Keybind, KeyCmd, C_Cmd, E_Cmd, F_Cmd, P_Cmd, S_Cmd};
use ewin::keys::{Key, KeyWhen, Keys};
use ewin::model::{Direction, FileType, OpenFileType};

#[test]
fn setting_words_name_command_types() {
    assert_eq!(Cmd::str_to_cmd_type("undo"), CmdType::Undo);
    assert_eq!(Cmd::str_to_cmd_type("paste"), CmdType::InsertStr(String::new()));
    assert_eq!(Cmd::str_to_cmd_type("formatJSON"), CmdType::Format(FileType::JSON));
    assert_eq!(Cmd::str_to_cmd_type("switchTabLeft"), CmdType::SwitchTab(Direction::Left));
    assert_eq!(Cmd::str_to_cmd_type("openMenuMacro"), CmdType::OpenMenuSearch);
    assert_eq!(Cmd::str_to_cmd_type("openFilePrompt"), CmdType::openFileProm(OpenFileType::Normal));
    assert_eq!(Cmd::str_to_cmd_type("windowSplitHorizontal"), CmdType::WindowSplit(WindowSplitType::Horizontal));
    assert_eq!(Cmd::str_to_cmd_type("contextMenu"), CmdType::CtxtMenu(usize::MAX, usize::MAX));
    assert_eq!(Cmd::str_to_cmd_type("noSuchCommand"), CmdType::Unsupported);
}

#[test]
fn commands_carry_focus_and_treatment() {
    let c = Cmd::to_cmd(CmdType::Cut);
    assert_eq!(c.when_vec, vec![KeyWhen::Editor, KeyWhen::Prom]);
    assert_eq!(c.config, CmdConfig { is_edit: true, is_record: true, is_recalc_scrl: true });
    let c = Cmd::to_cmd(CmdType::CursorLeft);
    assert_eq!(c.when_vec, vec![KeyWhen::All]);
    assert_eq!(c.config, CmdConfig { is_edit: false, is_record: true, is_recalc_scrl: true });
    let c = Cmd::to_cmd(CmdType::Confirm);
    assert_eq!(c.when_vec, vec![KeyWhen::MenuBar, KeyWhen::Prom, KeyWhen::CtxMenu]);
    let c = Cmd::str_to_cmd("saveFile");
    assert_eq!(c.cmd_type, CmdType::SaveFile);
    assert_eq!(c.when_vec, vec![KeyWhen::Editor]);
    assert_eq!(Cmd::to_cmd(CmdType::Null).when_vec, vec![]);
}

#[test]
fn unbound_keys_select_their_own_commands() {
    let k = Keys::Shift(Key::Char('a'));
    assert_eq!(Cmd::keys_to_cmd(&k, None, KeyWhen::Editor, None, 80).cmd_type, CmdType::InsertStr("A".to_string()));
    let k = Keys::Raw(Key::Tab);
    assert_eq!(Cmd::keys_to_cmd(&k, None, KeyWhen::Editor, None, 80).cmd_type, CmdType::InsertStr("\t".to_string()));
    assert_eq!(Cmd::keys_to_cmd(&k, None, KeyWhen::Prom, None, 80).cmd_type, CmdType::Unsupported);
    let bound = Cmd::to_cmd(CmdType::Undo);
    assert_eq!(Cmd::keys_to_cmd(&k, None, KeyWhen::Editor, Some(bound.clone()), 80), bound);
    let drag = Keys::MouseDragLeft(5, 10);
    let org = Keys::MouseDownLeft(5, 12);
    assert_eq!(Cmd::keys_to_cmd(&drag, Some(&org), KeyWhen::Editor, None, 80).cmd_type, CmdType::MouseDragLeftLeft(5, 10));
    assert_eq!(Cmd::keys_to_cmd(&drag, Some(&org), KeyWhen::Editor, None, 10).cmd_type, CmdType::MouseDragLeftRight(5, 10));
    let org_up = Keys::MouseDragLeft(7, 0);
    assert_eq!(Cmd::keys_to_cmd(&drag, Some(&org_up), KeyWhen::Editor, None, 80).cmd_type, CmdType::MouseDragLeftUp(5, 10));
    assert_eq!(Cmd::keys_to_cmd(&drag, None, KeyWhen::Editor, None, 80).cmd_type, CmdType::MouseDragLeftDown(5, 10));
}

#[test]
fn ascii_upper_case() {
    assert_eq!(to_ascii_upper('a'), 'A');
    assert_eq!(to_ascii_upper('z'), 'Z');
    assert_eq!(to_ascii_upper('A'), 'A');
    assert_eq!(to_ascii_upper('あ'), 'あ');
}

#[test]
fn key_binding_words() {
    assert_eq!(KeyCmd::to_edit_cmd("saveFile"), E_Cmd::SaveFile);
    assert_eq!(KeyCmd::to_edit_cmd("formatXML"), E_Cmd::Format(FileType::XML));
    assert_eq!(KeyCmd::to_edit_cmd("nothing"), E_Cmd::Null);
    assert_eq!(KeyCmd::cmd_when_to_keycmd("undo", "editorFocus"), KeyCmd::Edit(E_Cmd::Undo));
    assert_eq!(KeyCmd::cmd_when_to_keycmd("nothing", "editorFocus"), KeyCmd::Unsupported);
    assert_eq!(KeyCmd::cmd_when_to_keycmd("escPrompt", "promptFocus"), KeyCmd::Prom(P_Cmd::Cancel));
    assert_eq!(KeyCmd::cmd_when_to_keycmd("paste", "promptFocus"), KeyCmd::Prom(P_Cmd::InsertStr(String::new())));
    assert_eq!(KeyCmd::cmd_when_to_keycmd("undo", "headerBarFocus"), KeyCmd::Unsupported);
    assert_eq!(KeyCmd::cmd_when_to_keycmd("undo", "allFocus"), KeyCmd::Null);
}

#[test]
fn pressed_keys_by_focus() {
    let down = Keys::MouseDownLeft(2, 3);
    assert_eq!(Keybind::keys_to_keycmd_pressed(&down, None, KeyWhen::StatusBar, None, 80), KeyCmd::StatusBar(S_Cmd::MouseDownLeft(2, 3)));
    assert_eq!(Keybind::keys_to_keycmd_pressed(&down, None, KeyWhen::FileBar, None, 80), KeyCmd::FileBar(F_Cmd::MouseDownLeft(2, 3)));
    assert_eq!(Keybind::keys_to_keycmd_pressed(&down, None, KeyWhen::CtxMenu, None, 80), KeyCmd::CtxMenu(C_Cmd::MouseDownLeft(2, 3)));
    let c = Keys::Raw(Key::Char('q'));
    assert_eq!(Keybind::keys_to_keycmd_pressed(&c, None, KeyWhen::Prom, None, 80), KeyCmd::Prom(P_Cmd::InsertStr("q".to_string())));
    assert_eq!(Keybind::keys_to_keycmd_pressed(&c, None, KeyWhen::StatusBar, None, 80), KeyCmd::Unsupported);
    let bound = Some(KeyCmd::Edit(E_Cmd::Copy));
    assert_eq!(Keybind::keys_to_keycmd_pressed(&c, None, KeyWhen::Editor, bound, 80), KeyCmd::Edit(E_Cmd::Copy));
    let drag = Keys::MouseDragLeft(4, 4);
    let org = Keys::MouseDragLeft(3, 9);
    assert_eq!(Keybind::keys_to_keycmd_pressed(&drag, Some(&org), KeyWhen::FileBar, None, 80), KeyCmd::FileBar(F_Cmd::MouseDragLeftDown(4, 4)));
    assert_eq!(Keybind::keys_to_keycmd_pressed(&drag, None, KeyWhen::Editor, None, 80), KeyCmd::Unsupported);
    assert_eq!(Direction::keycmd_to_curdirection(&KeyCmd::Prom(P_Cmd::CursorUp)), Direction::Up);
}
