//! Bringing the process up: the tray icon is set up, the hotkey is
//! registered, and only if both succeeded is there a registry to run with.

use vstd::prelude::*;
use crate::model::{Deployment, RegistryView};
use crate::operation::{SurfaceOutcome, SurfaceOutcomeView};
use crate::registry::Registry;
use crate::text::join;
use crate::window::{Role, MAIN};

verus! {

/// Exit code of a process that could not start.
pub const STARTUP_FAILURE_CODE: i32 = 1;

/// Start of the report of a tray that could not be set up.
pub const TRAY_FAILURE_TEXT: &'static str = "Failed to set up the tray icon: ";

/// Start of the report of a hotkey that could not be registered.
pub const HOTKEY_FAILURE_TEXT: &'static str = "Failed to register the global hotkey: ";

/// Why the process could not start. Both cases are fatal: a process whose
/// entry points silently do nothing is worse than one that visibly fails to
/// start.
#[derive(PartialEq, Eq, Debug)]
pub enum RegistrationError {
    Tray { reason: String },
    Hotkey { reason: String },
}

/// Mathematical value of a [`RegistrationError`].
pub enum RegistrationErrorView {
    Tray { reason: Seq<char> },
    Hotkey { reason: Seq<char> },
}

impl View for RegistrationError {
    type V = RegistrationErrorView;

    open spec fn view(&self) -> RegistrationErrorView {
        match self {
            RegistrationError::Tray { reason } => RegistrationErrorView::Tray { reason: reason@ },
            RegistrationError::Hotkey { reason } => RegistrationErrorView::Hotkey { reason: reason@ },
        }
    }
}

/// The report of a failed startup.
pub open spec fn spec_registration_message(e: RegistrationErrorView) -> Seq<char> {
    match e {
        RegistrationErrorView::Tray { reason } => TRAY_FAILURE_TEXT@ + reason,
        RegistrationErrorView::Hotkey { reason } => HOTKEY_FAILURE_TEXT@ + reason,
    }
}

impl RegistrationError {
    /// The code the process exits with; never zero.
    pub fn exit_code(&self) -> (code: i32)
        ensures
            code == STARTUP_FAILURE_CODE,
            code != 0,
    {
        STARTUP_FAILURE_CODE
    }

    /// The report of the failure, for the log.
    pub fn message(&self) -> (text: String)
        ensures
            text@ == spec_registration_message(self@),
    {
        match self {
            RegistrationError::Tray { reason } => join(TRAY_FAILURE_TEXT, reason.as_str()),
            RegistrationError::Hotkey { reason } => join(HOTKEY_FAILURE_TEXT, reason.as_str()),
        }
    }
}

/// The registry of a process that has just started: the primary window,
/// which the platform built before anything else ran, is live, visible and
/// in focus.
pub open spec fn spec_started(deployment: Deployment) -> RegistryView {
    RegistryView::empty(deployment).create_or_focus(
        MAIN@,
        Role::Primary,
        None,
        SurfaceOutcomeView::Ready,
    )
}

/// What keeps the process from starting, if anything: a tray that could not
/// be set up, or else a hotkey that could not be registered.
pub open spec fn spec_startup_failure(
    tray: Result<(), String>,
    hotkey: Result<(), String>,
) -> Option<RegistrationErrorView> {
    match tray {
        Err(reason) => Some(RegistrationErrorView::Tray { reason: reason@ }),
        Ok(_) => match hotkey {
            Err(reason) => Some(RegistrationErrorView::Hotkey { reason: reason@ }),
            Ok(_) => None,
        },
    }
}

/// Decides whether the process starts, from what setting up the tray and
/// registering the hotkey gave. The process starts only if both succeeded; a
/// failure of the tray is reported before one of the hotkey.
pub fn startup(
    deployment: Deployment,
    tray: Result<(), String>,
    hotkey: Result<(), String>,
) -> (started: Result<Registry, RegistrationError>)
    ensures
        match started {
            Ok(registry) => spec_startup_failure(tray, hotkey) is None && registry.wf()
                && registry@ == spec_started(deployment),
            Err(e) => spec_startup_failure(tray, hotkey) == Some(e@),
        },
{
    match tray {
        Err(reason) => {
            return Err(RegistrationError::Tray { reason });
        },
        Ok(_) => {},
    }
    match hotkey {
        Err(reason) => {
            return Err(RegistrationError::Hotkey { reason });
        },
        Ok(_) => {},
    }
    let mut registry = Registry::new(deployment);
    let _main = registry.create_or_focus(MAIN, Role::Primary, None, SurfaceOutcome::Ready);
    Ok(registry)
}

} // verus!
