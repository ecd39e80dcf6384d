//! The registry as a mathematical value, and the transitions that the
//! operations of the registry carry out on it.

use vstd::prelude::*;
use crate::chrome::{spec_chrome, Addressing};
use crate::operation::{
    CreationErrorView, EffectView, OperationView, SurfaceOutcomeView, CHANNEL_PREFIX,
};
use crate::policy::{spec_decide, LifecycleAction, WindowEvent};
use crate::window::{EditorParamsView, Role, Visibility, WindowHandle, WindowView};

verus! {

/// What a repeated request for a live transient window does when it brings
/// the very payload the window was created with.
#[derive(Clone, Copy, PartialEq, Eq, Debug, Structural)]
pub enum IdenticalPayload {
    /// Show the window that is there.
    Reshow,
    /// Replace it with a fresh one all the same.
    Recreate,
}

/// The choices that are fixed once for a deployment.
#[derive(Clone, Copy, PartialEq, Eq, Debug, Structural)]
pub struct Deployment {
    pub addressing: Addressing,
    pub identical_payload: IdenticalPayload,
}

/// Mathematical value of a registry.
///
/// `windows` files each live window under its label, so a label never has
/// more than one. `focus` is the label of the window that was last given
/// input focus and has not lost it since. `next_surface` is the token that
/// the next window will get.
pub struct RegistryView {
    pub windows: Map<Seq<char>, WindowView>,
    pub focus: Option<Seq<char>>,
    pub next_surface: u64,
    pub deployment: Deployment,
}

impl RegistryView {
    /// What holds of every registry: it is finite, no surface token is in
    /// use twice or was minted out of turn, and the window in focus is live
    /// and visible.
    pub open spec fn wf(self) -> bool {
        &&& self.windows.dom().finite()
        &&& forall|l: Seq<char>| #[trigger]
            self.windows.contains_key(l) ==> self.windows[l].surface < self.next_surface
        &&& forall|a: Seq<char>, b: Seq<char>|
            #![trigger self.windows[a], self.windows[b]]
            self.windows.contains_key(a) && self.windows.contains_key(b) && a != b
                ==> self.windows[a].surface != self.windows[b].surface
        &&& self.focus matches Some(l) ==> self.windows.contains_key(l)
            && self.windows[l].visibility == Visibility::Visible
    }

    /// A registry without windows whose first window gets the token `first`.
    pub open spec fn empty_from(deployment: Deployment, first: u64) -> RegistryView {
        RegistryView { windows: Map::empty(), focus: None, next_surface: first, deployment }
    }

    /// A registry without windows that has handed out no token yet.
    pub open spec fn empty(deployment: Deployment) -> RegistryView {
        RegistryView::empty_from(deployment, 0)
    }

    /// Whether a window is filed under `label`.
    pub open spec fn live(self, label: Seq<char>) -> bool {
        self.windows.contains_key(label)
    }

    /// Whether the window `label` is live, visible and in focus.
    pub open spec fn in_front(self, label: Seq<char>) -> bool {
        &&& self.live(label)
        &&& self.windows[label].visibility == Visibility::Visible
        &&& self.focus == Some(label)
    }

    /// Whether no token is left for a new surface.
    pub open spec fn exhausted(self) -> bool {
        self.next_surface == u64::MAX
    }

    /// A live window becomes visible and takes the focus; an absent one
    /// changes nothing.
    pub open spec fn show_and_focus(self, label: Seq<char>) -> RegistryView {
        if self.live(label) {
            RegistryView {
                windows: self.windows.insert(label, self.windows[label].shown()),
                focus: Some(label),
                ..self
            }
        } else {
            self
        }
    }

    /// A live window goes out of sight, and out of focus with it; an absent
    /// one changes nothing.
    pub open spec fn conceal(self, label: Seq<char>) -> RegistryView {
        if self.live(label) {
            RegistryView {
                windows: self.windows.insert(label, self.windows[label].concealed()),
                focus: if self.focus == Some(label) {
                    None
                } else {
                    self.focus
                },
                ..self
            }
        } else {
            self
        }
    }

    /// The window leaves the registry; an absent one changes nothing.
    pub open spec fn destroy(self, label: Seq<char>) -> RegistryView {
        if self.live(label) {
            RegistryView {
                windows: self.windows.remove(label),
                focus: if self.focus == Some(label) {
                    None
                } else {
                    self.focus
                },
                ..self
            }
        } else {
            self
        }
    }

    /// The window is no longer in focus, if it was.
    pub open spec fn focus_lost(self, label: Seq<char>) -> RegistryView {
        if self.focus == Some(label) {
            RegistryView { focus: None, ..self }
        } else {
            self
        }
    }

    /// Whether a request for `label` with `payload` replaces the window that
    /// is there: only a transient window is ever replaced, always when the
    /// payload differs from the one it was created with, and for the same
    /// payload when the deployment says so.
    pub open spec fn supersedes(self, label: Seq<char>, payload: Option<EditorParamsView>) -> bool {
        &&& self.live(label)
        &&& self.windows[label].role == Role::Transient
        &&& (self.windows[label].init_payload != payload || self.deployment.identical_payload
            == IdenticalPayload::Recreate)
    }

    /// Whether a request for `label` with `payload` needs a new surface.
    pub open spec fn must_build(self, label: Seq<char>, payload: Option<EditorParamsView>) -> bool {
        !self.live(label) || self.supersedes(label, payload)
    }

    /// Whether a request that needs a new surface gets one.
    pub open spec fn builds(self, outcome: SurfaceOutcomeView) -> bool {
        !self.exhausted() && outcome is Ready
    }

    /// The registry after a request to create or focus.
    ///
    /// Where no surface is needed the window that is there comes to the
    /// front. Where one is needed and was built, the new window is filed
    /// under the label, visible and in focus, with the next token; a window
    /// it replaces is gone. Where it could not be built nothing is left
    /// under the label.
    pub open spec fn create_or_focus(
        self,
        label: Seq<char>,
        role: Role,
        payload: Option<EditorParamsView>,
        outcome: SurfaceOutcomeView,
    ) -> RegistryView {
        if !self.must_build(label, payload) {
            self.show_and_focus(label)
        } else if self.builds(outcome) {
            RegistryView {
                windows: self.windows.insert(
                    label,
                    WindowView {
                        role,
                        visibility: Visibility::Visible,
                        surface: self.next_surface,
                        init_payload: payload,
                    },
                ),
                focus: Some(label),
                next_surface: (self.next_surface + 1) as u64,
                ..self
            }
        } else {
            self.destroy(label)
        }
    }

    /// What a request to create or focus returns: the handle of the window
    /// that is now in front, or the reason why there is none.
    pub open spec fn creation_result(
        self,
        label: Seq<char>,
        payload: Option<EditorParamsView>,
        outcome: SurfaceOutcomeView,
    ) -> Result<WindowHandle, CreationErrorView> {
        if !self.must_build(label, payload) {
            Ok(WindowHandle { surface: self.windows[label].surface })
        } else if self.exhausted() {
            Err(CreationErrorView::Exhausted)
        } else {
            match outcome {
                SurfaceOutcomeView::Ready => Ok(WindowHandle { surface: self.next_surface }),
                SurfaceOutcomeView::Refused { reason } => Err(CreationErrorView::Refused { reason }),
            }
        }
    }

    /// The operation that the policy asks for when `event` arrives for the
    /// window `label`; none for a label that is not live.
    pub open spec fn window_event_operation(self, label: Seq<char>, event: WindowEvent) -> OperationView {
        if !self.live(label) {
            OperationView::Nothing
        } else {
            match spec_decide(self.windows[label].role, event).action {
                LifecycleAction::Hide => OperationView::Hide { label },
                LifecycleAction::Destroy => OperationView::Destroy { label },
                LifecycleAction::Nothing => OperationView::Nothing,
            }
        }
    }

    /// The registry after an operating system event on the window `label`:
    /// the focus is noted as lost where it was, and the operation that the
    /// policy asks for is carried out.
    pub open spec fn after_window_event(self, label: Seq<char>, event: WindowEvent) -> RegistryView {
        let noted = if event == WindowEvent::FocusLost {
            self.focus_lost(label)
        } else {
            self
        };
        noted.apply(noted.window_event_operation(label, event), SurfaceOutcomeView::Ready)
    }

    /// Whether the close that the event announces is called off.
    pub open spec fn vetoes(self, label: Seq<char>, event: WindowEvent) -> bool {
        self.live(label) && spec_decide(self.windows[label].role, event).veto_close
    }

    /// The registry after `op`.
    pub open spec fn apply(self, op: OperationView, outcome: SurfaceOutcomeView) -> RegistryView {
        match op {
            OperationView::CreateOrFocus { label, role, init_payload } => self.create_or_focus(
                label,
                role,
                init_payload,
                outcome,
            ),
            OperationView::ShowAndFocus { label } => self.show_and_focus(label),
            OperationView::Hide { label } => self.conceal(label),
            OperationView::Destroy { label } => self.destroy(label),
            OperationView::Quit { code } => self,
            OperationView::Nothing => self,
        }
    }

    /// What `op` returns: a handle where a window was asked for and is
    /// there, the reason where it is not, and no handle for every other
    /// operation.
    pub open spec fn apply_result(self, op: OperationView, outcome: SurfaceOutcomeView) -> Result<
        Option<WindowHandle>,
        CreationErrorView,
    > {
        match op {
            OperationView::CreateOrFocus { label, role, init_payload } => match self.creation_result(
                label,
                init_payload,
                outcome,
            ) {
                Ok(handle) => Ok(Some(handle)),
                Err(e) => Err(e),
            },
            _ => Ok(None),
        }
    }

    /// The commands that build the window `label` and hand it its payload;
    /// none where no token is left.
    pub open spec fn build_effects(
        self,
        label: Seq<char>,
        role: Role,
        payload: Option<EditorParamsView>,
    ) -> Seq<EffectView> {
        if self.exhausted() {
            Seq::empty()
        } else {
            let build = EffectView::Build {
                label,
                chrome: spec_chrome(label, role, self.deployment.addressing),
            };
            match payload {
                Some(p) => seq![
                    build,
                    EffectView::Deliver { label, channel: CHANNEL_PREFIX@ + label, payload: p },
                ],
                None => seq![build],
            }
        }
    }

    /// The commands of a request to create or focus: show and focus the
    /// window that is there, or release the one that is replaced and build
    /// the new one.
    pub open spec fn create_effects(
        self,
        label: Seq<char>,
        role: Role,
        payload: Option<EditorParamsView>,
    ) -> Seq<EffectView> {
        if !self.must_build(label, payload) {
            seq![EffectView::Show { label }, EffectView::Focus { label }]
        } else if self.live(label) {
            seq![EffectView::Release { label }] + self.build_effects(label, role, payload)
        } else {
            self.build_effects(label, role, payload)
        }
    }

    /// The commands that the windowing system has to carry out for `op`, in
    /// order. An operation that changes nothing commands nothing.
    pub open spec fn effects(self, op: OperationView) -> Seq<EffectView> {
        match op {
            OperationView::CreateOrFocus { label, role, init_payload } => self.create_effects(
                label,
                role,
                init_payload,
            ),
            OperationView::ShowAndFocus { label } => if self.live(label) {
                seq![EffectView::Show { label }, EffectView::Focus { label }]
            } else {
                Seq::empty()
            },
            OperationView::Hide { label } => if self.live(label) && self.windows[label].visibility
                == Visibility::Visible {
                seq![EffectView::Hide { label }]
            } else {
                Seq::empty()
            },
            OperationView::Destroy { label } => if self.live(label) {
                seq![EffectView::Release { label }]
            } else {
                Seq::empty()
            },
            OperationView::Quit { code } => seq![EffectView::Exit { code }],
            OperationView::Nothing => Seq::empty(),
        }
    }
}

} // verus!
