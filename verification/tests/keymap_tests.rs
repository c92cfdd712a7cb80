use ewin::keycmd::{C_Cmd, E_Cmd, KeyCmd, Keybind, P_Cmd};
use ewin::keymap::KeyCmdMap;
use ewin::keys::{Key, KeyWhen, Keys};

fn bind(keys: Keys, cmd: &str, when: &str) -> (Keys, Keybind) {
    (keys, Keybind { key: String::new(), cmd: cmd.to_string(), when: when.to_string() })
}

fn map() -> KeyCmdMap {
    let lines = vec![
        bind(Keys::Ctrl(Key::Char('f')), "findNext", "editorFocus"),
        bind(Keys::Ctrl(Key::Char('g')), "findNext", "allFocus"),
        bind(Keys::Ctrl(Key::Char('f')), "findBack", "editorFocus"),
        bind(Keys::Ctrl(Key::Char('h')), "findNext", "noSuchFocus"),
    ];
    Keybind::init_key_cmd_map(&lines)
}

#[test]
fn key_map_lookup() {
    let m = map();
    // the later binding of the same key and focus counts
    assert_eq!(m.get(&Keys::Ctrl(Key::Char('f')), KeyWhen::Editor), Some(KeyCmd::Edit(E_Cmd::FindBack)));
    assert_eq!(m.get(&Keys::Ctrl(Key::Char('g')), KeyWhen::Editor), Some(KeyCmd::Edit(E_Cmd::FindNext)));
    assert!(m.get(&Keys::Ctrl(Key::Char('g')), KeyWhen::Prom).is_some());
    assert_eq!(m.get(&Keys::Ctrl(Key::Char('g')), KeyWhen::All), Some(KeyCmd::Null));
    assert_eq!(m.get(&Keys::Ctrl(Key::Char('h')), KeyWhen::Editor), None);
    assert_eq!(m.get(&Keys::Raw(Key::Tab), KeyWhen::Editor), Some(KeyCmd::Edit(E_Cmd::InsertStr("\t".to_string()))));
    assert_eq!(m.get(&Keys::Raw(Key::Enter), KeyWhen::CtxMenu), Some(KeyCmd::CtxMenu(C_Cmd::Confirm)));
    assert_eq!(m.entries.len(), 4 + 1 + 13);
}

#[test]
fn keys_to_keycmd_bound_then_screen() {
    let m = map();
    assert_eq!(Keybind::keys_to_keycmd(&m, &Keys::Ctrl(Key::Char('f')), None, KeyWhen::Editor, 80), KeyCmd::Edit(E_Cmd::FindBack));
    assert_eq!(Keybind::keys_to_keycmd(&m, &Keys::Raw(Key::Char('a')), None, KeyWhen::Editor, 80), KeyCmd::Edit(E_Cmd::InsertStr("a".to_string())));
    assert_eq!(Keybind::keys_to_keycmd(&m, &Keys::MouseScrollUp, None, KeyWhen::Prom, 80), KeyCmd::Prom(P_Cmd::MouseScrollUp));
}
