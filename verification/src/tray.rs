//! The tray icon: its tooltip, its menu, and what a click on either means.

use vstd::prelude::*;
use vstd::string::*;
use crate::operation::{Operation, OperationView};
use crate::text::same_text;
use crate::window::{Role, COMMAND, MAIN};

verus! {

/// Identifier of the tray icon.
pub const TRAY_ID: &'static str = "main-tray";

/// Text shown when the pointer rests on the icon.
pub const TOOLTIP: &'static str = "DevNote - 开发笔记";

/// Menu entry that brings the primary window back.
pub const SHOW_ID: &'static str = "show";

/// Text of the `show` entry.
pub const SHOW_TEXT: &'static str = "显示窗口";

/// Diagnostic menu entry that opens the command popup.
pub const TEST_COMMAND_ID: &'static str = "test_command";

/// Text of the `test_command` entry.
pub const TEST_COMMAND_TEXT: &'static str = "测试命令窗口";

/// Menu entry that ends the process.
pub const QUIT_ID: &'static str = "quit";

/// Text of the `quit` entry.
pub const QUIT_TEXT: &'static str = "退出";

/// Exit code of a quit asked for through the tray.
pub const QUIT_CODE: i32 = 0;

/// One entry of the tray menu.
#[derive(PartialEq, Eq, Debug)]
pub struct MenuItem {
    pub id: String,
    pub text: String,
    pub enabled: bool,
}

/// Mathematical value of a [`MenuItem`].
pub struct MenuItemView {
    pub id: Seq<char>,
    pub text: Seq<char>,
    pub enabled: bool,
}

impl View for MenuItem {
    type V = MenuItemView;

    open spec fn view(&self) -> MenuItemView {
        MenuItemView { id: self.id@, text: self.text@, enabled: self.enabled }
    }
}

/// The tray icon of the process: there is exactly one, made at startup.
#[derive(PartialEq, Eq, Debug)]
pub struct TrayIcon {
    pub id: String,
    pub tooltip: String,
    pub menu: Vec<MenuItem>,
}

/// Mathematical value of a [`TrayIcon`]; the menu keeps its order.
pub struct TrayIconView {
    pub id: Seq<char>,
    pub tooltip: Seq<char>,
    pub menu: Seq<MenuItemView>,
}

impl View for TrayIcon {
    type V = TrayIconView;

    open spec fn view(&self) -> TrayIconView {
        TrayIconView {
            id: self.id@,
            tooltip: self.tooltip@,
            menu: Seq::new(self.menu@.len(), |i: int| self.menu@[i]@),
        }
    }
}

/// The tray icon as it is set up: `show`, `test_command`, `quit`, in this
/// order, all enabled.
pub open spec fn spec_tray_icon() -> TrayIconView {
    TrayIconView {
        id: TRAY_ID@,
        tooltip: TOOLTIP@,
        menu: seq![
            MenuItemView { id: SHOW_ID@, text: SHOW_TEXT@, enabled: true },
            MenuItemView { id: TEST_COMMAND_ID@, text: TEST_COMMAND_TEXT@, enabled: true },
            MenuItemView { id: QUIT_ID@, text: QUIT_TEXT@, enabled: true },
        ],
    }
}

fn menu_item(id: &str, text: &str) -> (item: MenuItem)
    ensures
        item@ == (MenuItemView { id: id@, text: text@, enabled: true }),
{
    MenuItem { id: String::from_str(id), text: String::from_str(text), enabled: true }
}

/// The tray icon to set up at startup.
pub fn tray_icon() -> (icon: TrayIcon)
    ensures
        icon@ == spec_tray_icon(),
{
    let mut menu: Vec<MenuItem> = Vec::new();
    menu.push(menu_item(SHOW_ID, SHOW_TEXT));
    menu.push(menu_item(TEST_COMMAND_ID, TEST_COMMAND_TEXT));
    menu.push(menu_item(QUIT_ID, QUIT_TEXT));
    let icon = TrayIcon { id: String::from_str(TRAY_ID), tooltip: String::from_str(TOOLTIP), menu };
    assert(icon@.menu =~= spec_tray_icon().menu);
    icon
}

#[derive(Clone, Copy, PartialEq, Eq, Debug, Structural)]
pub enum MouseButton {
    Left,
    Right,
    Middle,
}

#[derive(Clone, Copy, PartialEq, Eq, Debug, Structural)]
pub enum MouseButtonState {
    Up,
    Down,
}

/// What a click on the icon asks for: releasing the left button brings the
/// primary window back, whatever state it was in. Nothing else does anything.
pub open spec fn click_operation(button: MouseButton, state: MouseButtonState) -> OperationView {
    if button == MouseButton::Left && state == MouseButtonState::Up {
        OperationView::ShowAndFocus { label: MAIN@ }
    } else {
        OperationView::Nothing
    }
}

/// What selecting the menu entry `id` asks for.
///
/// `quit` ends the process at once, with [`QUIT_CODE`]: no window is asked
/// whether it agrees to close. An unknown entry asks for nothing.
pub open spec fn menu_operation(id: Seq<char>) -> OperationView {
    if id == SHOW_ID@ {
        OperationView::ShowAndFocus { label: MAIN@ }
    } else if id == TEST_COMMAND_ID@ {
        OperationView::CreateOrFocus { label: COMMAND@, role: Role::Transient, init_payload: None }
    } else if id == QUIT_ID@ {
        OperationView::Quit { code: QUIT_CODE }
    } else {
        OperationView::Nothing
    }
}

/// The operation that a click on the tray icon asks for.
pub fn on_click(button: MouseButton, state: MouseButtonState) -> (op: Operation)
    ensures
        op@ == click_operation(button, state),
{
    match (button, state) {
        (MouseButton::Left, MouseButtonState::Up) => Operation::ShowAndFocus {
            label: String::from_str(MAIN),
        },
        _ => Operation::Nothing,
    }
}

/// The operation that selecting a menu entry asks for.
pub fn on_menu_select(id: &str) -> (op: Operation)
    ensures
        op@ == menu_operation(id@),
{
    if same_text(id, SHOW_ID) {
        Operation::ShowAndFocus { label: String::from_str(MAIN) }
    } else if same_text(id, TEST_COMMAND_ID) {
        Operation::CreateOrFocus {
            label: String::from_str(COMMAND),
            role: Role::Transient,
            init_payload: None,
        }
    } else if same_text(id, QUIT_ID) {
        Operation::Quit { code: QUIT_CODE }
    } else {
        Operation::Nothing
    }
}

} // verus!
