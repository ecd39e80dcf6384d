//! What becomes of a window when the operating system reports that it is
//! being closed or has lost focus.

use vstd::prelude::*;
use crate::window::Role;

verus! {

/// A notification from the operating system about one window.
#[derive(Clone, Copy, PartialEq, Eq, Debug, Structural)]
pub enum WindowEvent {
    /// The user asked to close the window.
    CloseRequested,
    /// Input focus moved away from the window.
    FocusLost,
}

/// What the registry does with the window.
#[derive(Clone, Copy, PartialEq, Eq, Debug, Structural)]
pub enum LifecycleAction {
    /// Take it out of sight and keep it.
    Hide,
    /// Remove it and release its surface.
    Destroy,
    /// Leave it as it is.
    Nothing,
}

/// The answer of the policy to one event.
#[derive(Clone, Copy, PartialEq, Eq, Debug, Structural)]
pub struct Verdict {
    /// Whether the close that the operating system is about to carry out is
    /// called off.
    pub veto_close: bool,
    pub action: LifecycleAction,
}

/// The decision table.
///
/// | role      | event           | close     | action  |
/// |-----------|-----------------|-----------|---------|
/// | primary   | close requested | called off| hide    |
/// | primary   | focus lost      | -         | nothing |
/// | transient | close requested | goes ahead| destroy |
/// | transient | focus lost      | -         | destroy |
///
/// The primary window is the surface that is always there: a stray close
/// only puts it in the background, from where the tray brings it back. A
/// transient window serves one short exchange and goes the moment the user
/// looks elsewhere, so that no unseen popup is left behind.
pub open spec fn spec_decide(role: Role, event: WindowEvent) -> Verdict {
    match (role, event) {
        (Role::Primary, WindowEvent::CloseRequested) => Verdict {
            veto_close: true,
            action: LifecycleAction::Hide,
        },
        (Role::Primary, WindowEvent::FocusLost) => Verdict {
            veto_close: false,
            action: LifecycleAction::Nothing,
        },
        (Role::Transient, WindowEvent::CloseRequested) => Verdict {
            veto_close: false,
            action: LifecycleAction::Destroy,
        },
        (Role::Transient, WindowEvent::FocusLost) => Verdict {
            veto_close: false,
            action: LifecycleAction::Destroy,
        },
    }
}

/// Looks the event up in the decision table.
pub fn decide(role: Role, event: WindowEvent) -> (verdict: Verdict)
    ensures
        verdict == spec_decide(role, event),
{
    match role {
        Role::Primary => match event {
            WindowEvent::CloseRequested => Verdict {
                veto_close: true,
                action: LifecycleAction::Hide,
            },
            WindowEvent::FocusLost => Verdict { veto_close: false, action: LifecycleAction::Nothing },
        },
        Role::Transient => Verdict { veto_close: false, action: LifecycleAction::Destroy },
    }
}

} // verus!
