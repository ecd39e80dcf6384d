//! What the controllers ask of the registry, what the registry asks of the
//! windowing system, and what the windowing system answers.

use vstd::prelude::*;
use crate::chrome::{Chrome, ChromeView};
use crate::window::{EditorParams, EditorParamsView, Role};

verus! {

/// Prefix of the channel a payload is delivered on; the label of the window
/// follows it.
pub const CHANNEL_PREFIX: &'static str = "init-";

/// A request to the registry, or to the process as a whole. Every event
/// source turns what it observes into one of these.
#[derive(PartialEq, Eq, Debug)]
pub enum Operation {
    /// Bring the window to front if it lives, create it otherwise.
    CreateOrFocus { label: String, role: Role, init_payload: Option<EditorParams> },
    /// Show a live window and give it input focus.
    ShowAndFocus { label: String },
    /// Take a live window out of sight, keeping it alive.
    Hide { label: String },
    /// Remove a window and release its surface.
    Destroy { label: String },
    /// End the process with this exit code.
    Quit { code: i32 },
    /// No request.
    Nothing,
}

/// Mathematical value of an [`Operation`].
pub enum OperationView {
    CreateOrFocus { label: Seq<char>, role: Role, init_payload: Option<EditorParamsView> },
    ShowAndFocus { label: Seq<char> },
    Hide { label: Seq<char> },
    Destroy { label: Seq<char> },
    Quit { code: i32 },
    Nothing,
}

impl View for Operation {
    type V = OperationView;

    open spec fn view(&self) -> OperationView {
        match self {
            Operation::CreateOrFocus { label, role, init_payload } => OperationView::CreateOrFocus {
                label: label@,
                role: *role,
                init_payload: init_payload.deep_view(),
            },
            Operation::ShowAndFocus { label } => OperationView::ShowAndFocus { label: label@ },
            Operation::Hide { label } => OperationView::Hide { label: label@ },
            Operation::Destroy { label } => OperationView::Destroy { label: label@ },
            Operation::Quit { code } => OperationView::Quit { code: *code },
            Operation::Nothing => OperationView::Nothing,
        }
    }
}

/// One command for the windowing system. Commands are carried out in the
/// order given; when a `Build` fails, the commands after it are dropped.
#[derive(PartialEq, Eq, Debug)]
pub enum Effect {
    /// Make the surface visible.
    Show { label: String },
    /// Give the surface input focus.
    Focus { label: String },
    /// Take the surface out of sight.
    Hide { label: String },
    /// Close the surface and free it.
    Release { label: String },
    /// Build a new surface.
    Build { label: String, chrome: Chrome },
    /// Hand the payload to the content of a surface that has just been built.
    Deliver { label: String, channel: String, payload: EditorParams },
    /// End the process.
    Exit { code: i32 },
}

/// Mathematical value of an [`Effect`].
pub enum EffectView {
    Show { label: Seq<char> },
    Focus { label: Seq<char> },
    Hide { label: Seq<char> },
    Release { label: Seq<char> },
    Build { label: Seq<char>, chrome: ChromeView },
    Deliver { label: Seq<char>, channel: Seq<char>, payload: EditorParamsView },
    Exit { code: i32 },
}

impl View for Effect {
    type V = EffectView;

    open spec fn view(&self) -> EffectView {
        match self {
            Effect::Show { label } => EffectView::Show { label: label@ },
            Effect::Focus { label } => EffectView::Focus { label: label@ },
            Effect::Hide { label } => EffectView::Hide { label: label@ },
            Effect::Release { label } => EffectView::Release { label: label@ },
            Effect::Build { label, chrome } => EffectView::Build { label: label@, chrome: chrome@ },
            Effect::Deliver { label, channel, payload } => EffectView::Deliver {
                label: label@,
                channel: channel@,
                payload: payload@,
            },
            Effect::Exit { code } => EffectView::Exit { code: *code },
        }
    }
}

/// The values of a list of effects, in order.
pub open spec fn effect_views(effects: Seq<Effect>) -> Seq<EffectView> {
    Seq::new(effects.len(), |i: int| effects[i]@)
}

/// What the windowing system is to do about an event.
#[derive(PartialEq, Eq, Debug)]
pub struct Plan {
    /// Whether the close that the event announces is called off.
    pub veto_close: bool,
    /// The commands to carry out, in order.
    pub effects: Vec<Effect>,
}

/// What the windowing system answered when it was asked to build a surface.
/// Where nothing had to be built, the answer is `Ready`.
#[derive(PartialEq, Eq, Debug)]
pub enum SurfaceOutcome {
    Ready,
    Refused { reason: String },
}

/// Mathematical value of a [`SurfaceOutcome`].
pub enum SurfaceOutcomeView {
    Ready,
    Refused { reason: Seq<char> },
}

impl View for SurfaceOutcome {
    type V = SurfaceOutcomeView;

    open spec fn view(&self) -> SurfaceOutcomeView {
        match self {
            SurfaceOutcome::Ready => SurfaceOutcomeView::Ready,
            SurfaceOutcome::Refused { reason } => SurfaceOutcomeView::Refused { reason: reason@ },
        }
    }
}

/// Why a window could not be created. Neither case harms the process: the
/// caller reports it and goes on.
#[derive(PartialEq, Eq, Debug)]
pub enum CreationError {
    /// The windowing system could not build the surface.
    Refused { reason: String },
    /// Every surface token has been handed out.
    Exhausted,
}

/// Mathematical value of a [`CreationError`].
pub enum CreationErrorView {
    Refused { reason: Seq<char> },
    Exhausted,
}

impl View for CreationError {
    type V = CreationErrorView;

    open spec fn view(&self) -> CreationErrorView {
        match self {
            CreationError::Refused { reason } => CreationErrorView::Refused { reason: reason@ },
            CreationError::Exhausted => CreationErrorView::Exhausted,
        }
    }
}

} // verus!
