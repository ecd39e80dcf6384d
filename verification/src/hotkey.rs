//! The global hotkey: one fixed key combination, registered once at startup,
//! that opens the command popup from anywhere.

use vstd::prelude::*;
use vstd::string::*;
use crate::operation::{Operation, OperationView};
use crate::window::{Role, COMMAND};

verus! {

/// Code of the key of the hotkey, as keyboards report it.
pub const HOTKEY_CODE: &'static str = "Backquote";

/// The modifier keys held with a key.
#[derive(Clone, Copy, PartialEq, Eq, Debug, Structural)]
pub struct Modifiers {
    pub alt: bool,
    pub control: bool,
    pub shift: bool,
    pub meta: bool,
}

/// A key combination.
#[derive(PartialEq, Eq, Debug)]
pub struct HotkeyBinding {
    pub modifiers: Modifiers,
    pub code: String,
}

/// Mathematical value of a [`HotkeyBinding`].
pub struct HotkeyBindingView {
    pub modifiers: Modifiers,
    pub code: Seq<char>,
}

impl View for HotkeyBinding {
    type V = HotkeyBindingView;

    open spec fn view(&self) -> HotkeyBindingView {
        HotkeyBindingView { modifiers: self.modifiers, code: self.code@ }
    }
}

/// The hotkey of the application: Alt and the backquote key.
pub open spec fn spec_binding() -> HotkeyBindingView {
    HotkeyBindingView {
        modifiers: Modifiers { alt: true, control: false, shift: false, meta: false },
        code: HOTKEY_CODE@,
    }
}

/// What the hotkey asks for each time it fires: the command popup, created
/// if it is not there.
pub open spec fn fire_operation() -> OperationView {
    OperationView::CreateOrFocus { label: COMMAND@, role: Role::Transient, init_payload: None }
}

/// The key combination to register at startup.
pub fn binding() -> (b: HotkeyBinding)
    ensures
        b@ == spec_binding(),
{
    HotkeyBinding {
        modifiers: Modifiers { alt: true, control: false, shift: false, meta: false },
        code: String::from_str(HOTKEY_CODE),
    }
}

/// The operation that a firing of the hotkey asks for.
pub fn on_fire() -> (op: Operation)
    ensures
        op@ == fire_operation(),
{
    Operation::CreateOrFocus {
        label: String::from_str(COMMAND),
        role: Role::Transient,
        init_payload: None,
    }
}

} // verus!
