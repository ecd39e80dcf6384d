use devnote::operation::Operation;
use devnote::tray::{on_click, on_menu_select, tray_icon, MouseButton, MouseButtonState};
use devnote::window::Role;

#[test]
fn left_release_brings_main_back() {
    assert_eq!(
        on_click(MouseButton::Left, MouseButtonState::Up),
        Operation::ShowAndFocus { label: "main".to_string() }
    );
}

#[test]
fn other_clicks_do_nothing() {
    assert_eq!(on_click(MouseButton::Left, MouseButtonState::Down), Operation::Nothing);
    assert_eq!(on_click(MouseButton::Right, MouseButtonState::Up), Operation::Nothing);
    assert_eq!(on_click(MouseButton::Middle, MouseButtonState::Up), Operation::Nothing);
}

#[test]
fn menu_entries_in_order() {
    let icon = tray_icon();
    assert_eq!(icon.id, "main-tray");
    assert_eq!(icon.tooltip, "DevNote - 开发笔记");
    let ids: Vec<&str> = icon.menu.iter().map(|m| m.id.as_str()).collect();
    assert_eq!(ids, vec!["show", "test_command", "quit"]);
    let texts: Vec<&str> = icon.menu.iter().map(|m| m.text.as_str()).collect();
    assert_eq!(texts, vec!["显示窗口", "测试命令窗口", "退出"]);
    assert!(icon.menu.iter().all(|m| m.enabled));
}

#[test]
fn menu_dispatch() {
    assert_eq!(on_menu_select("show"), Operation::ShowAndFocus { label: "main".to_string() });
    assert_eq!(
        on_menu_select("test_command"),
        Operation::CreateOrFocus { label: "command".to_string(), role: Role::Transient, init_payload: None }
    );
    assert_eq!(on_menu_select("quit"), Operation::Quit { code: 0 });
    assert_eq!(on_menu_select("about"), Operation::Nothing);
    assert_eq!(on_menu_select(""), Operation::Nothing);
}
