//! The window registry: one entry per label, and the operations that create,
//! show, hide and destroy windows.
//!
//! The registry does not talk to the windowing system. A caller asks
//! [`Registry::effects`] what the windowing system has to do for an
//! operation, has it done, and hands the answer to [`Registry::apply`]. All of
//! this happens on the one loop that serves the user interface, so nothing
//! comes between the question and the answer.

use vstd::prelude::*;
use crate::chrome::chrome_for;
use crate::laws::{
    lemma_conceal_wf, lemma_create_or_focus_wf, lemma_destroy_wf, lemma_focus_lost_wf,
    lemma_show_and_focus_wf,
};
use crate::model::{Deployment, IdenticalPayload, RegistryView};
use crate::operation::{
    effect_views, CreationError, CreationErrorView, Effect, Operation, Plan, SurfaceOutcome,
    CHANNEL_PREFIX,
};
use crate::policy::{decide, LifecycleAction, WindowEvent};
use crate::text::join;
use crate::window::{
    same_payload, EditorParams, Role, Visibility, Window, WindowHandle, WindowView,
};

verus! {

/// Whether no two of the windows have the same label.
spec fn distinct(ws: Seq<Window>) -> bool {
    forall|i: int, j: int|
        0 <= i < ws.len() && 0 <= j < ws.len() && i != j ==> ws[i].label@ != ws[j].label@
}

/// Whether one of the windows has the label `l`.
spec fn listed(ws: Seq<Window>, l: Seq<char>) -> bool {
    exists|i: int| 0 <= i < ws.len() && ws[i].label@ == l
}

/// Where the window labelled `l` stands.
spec fn slot(ws: Seq<Window>, l: Seq<char>) -> int {
    choose|i: int| 0 <= i < ws.len() && ws[i].label@ == l
}

/// The windows, each filed under its label.
spec fn filed(ws: Seq<Window>) -> Map<Seq<char>, WindowView> {
    Map::new(|l: Seq<char>| listed(ws, l), |l: Seq<char>| ws[slot(ws, l)]@)
}

proof fn lemma_slot(ws: Seq<Window>, i: int)
    requires
        distinct(ws),
        0 <= i < ws.len(),
    ensures
        listed(ws, ws[i].label@),
        slot(ws, ws[i].label@) == i,
        filed(ws).contains_key(ws[i].label@),
        filed(ws)[ws[i].label@] == ws[i]@,
{
}

proof fn lemma_filed_push(ws: Seq<Window>, w: Window)
    requires
        distinct(ws),
        !listed(ws, w.label@),
    ensures
        distinct(ws.push(w)),
        filed(ws.push(w)) == filed(ws).insert(w.label@, w@),
{
    let after = ws.push(w);
    assert(distinct(after));
    assert forall|l: Seq<char>| listed(after, l) <==> (listed(ws, l) || l == w.label@) by {
        if listed(ws, l) {
            let i = slot(ws, l);
            assert(after[i].label@ == l);
        }
        if l == w.label@ {
            assert(after[ws.len() as int].label@ == l);
        }
    }
    assert forall|l: Seq<char>| listed(after, l) implies #[trigger] filed(after)[l] == filed(
        ws,
    ).insert(w.label@, w@)[l] by {
        let i = slot(after, l);
        lemma_slot(after, i);
        if i < ws.len() {
            lemma_slot(ws, i);
        }
    }
    assert(filed(after) =~= filed(ws).insert(w.label@, w@));
}

proof fn lemma_filed_remove(ws: Seq<Window>, i: int)
    requires
        distinct(ws),
        0 <= i < ws.len(),
    ensures
        distinct(ws.remove(i)),
        !listed(ws.remove(i), ws[i].label@),
        filed(ws.remove(i)) == filed(ws).remove(ws[i].label@),
{
    let after = ws.remove(i);
    assert forall|a: int, b: int| 0 <= a < after.len() && 0 <= b < after.len() && a != b implies after[a].label@
        != after[b].label@ by {
        let a0 = if a < i { a } else { a + 1 };
        let b0 = if b < i { b } else { b + 1 };
        assert(after[a] == ws[a0] && after[b] == ws[b0]);
    }
    assert forall|l: Seq<char>| listed(after, l) <==> (listed(ws, l) && l != ws[i].label@) by {
        if listed(after, l) {
            let a = slot(after, l);
            let a0 = if a < i { a } else { a + 1 };
            assert(after[a] == ws[a0]);
        }
        if listed(ws, l) && l != ws[i].label@ {
            let k = slot(ws, l);
            let k1 = if k < i { k } else { k - 1 };
            assert(after[k1] == ws[k]);
        }
    }
    assert forall|l: Seq<char>| listed(after, l) implies #[trigger] filed(after)[l] == filed(ws)[l] by {
        let a = slot(after, l);
        let a0 = if a < i { a } else { a + 1 };
        assert(after[a] == ws[a0]);
        lemma_slot(after, a);
        lemma_slot(ws, a0);
    }
    assert(filed(after) =~= filed(ws).remove(ws[i].label@));
}

proof fn lemma_filed_update(ws: Seq<Window>, i: int, w: Window)
    requires
        distinct(ws),
        0 <= i < ws.len(),
        w.label@ == ws[i].label@,
    ensures
        distinct(ws.update(i, w)),
        filed(ws.update(i, w)) == filed(ws).insert(w.label@, w@),
{
    let after = ws.update(i, w);
    assert(distinct(after));
    assert forall|l: Seq<char>| listed(after, l) <==> listed(ws, l) by {
        if listed(after, l) {
            let a = slot(after, l);
            assert(ws[a].label@ == l);
        }
        if listed(ws, l) {
            let a = slot(ws, l);
            assert(after[a].label@ == l);
        }
    }
    lemma_slot(ws, i);
    assert forall|l: Seq<char>| listed(after, l) implies #[trigger] filed(after)[l] == filed(
        ws,
    ).insert(w.label@, w@)[l] by {
        let a = slot(after, l);
        lemma_slot(after, a);
        if a != i {
            lemma_slot(ws, a);
        }
    }
    assert(filed(after) =~= filed(ws).insert(w.label@, w@));
}

proof fn lemma_filed_count(ws: Seq<Window>)
    requires
        distinct(ws),
    ensures
        filed(ws).dom().finite(),
        filed(ws).dom().len() == ws.len(),
    decreases ws.len(),
{
    if ws.len() == 0 {
        assert(filed(ws).dom() =~= Set::<Seq<char>>::empty());
    } else {
        let front = ws.drop_last();
        let last = ws.last();
        assert(ws =~= front.push(last));
        assert(distinct(front));
        assert(!listed(front, last.label@)) by {
            if listed(front, last.label@) {
                let k = slot(front, last.label@);
                assert(ws[k].label@ == ws[ws.len() - 1].label@);
            }
        }
        lemma_filed_count(front);
        lemma_filed_push(front, last);
        assert(filed(ws).dom() =~= filed(front).dom().insert(last.label@));
        assert(!filed(front).dom().contains(last.label@));
    }
}

/// The window registry: the live windows, at most one under each label, the
/// label of the window in focus, and the token of the next surface.
#[derive(Debug)]
pub struct Registry {
    windows: Vec<Window>,
    focus: Option<String>,
    next_surface: u64,
    deployment: Deployment,
}

impl View for Registry {
    type V = RegistryView;

    closed spec fn view(&self) -> RegistryView {
        RegistryView {
            windows: filed(self.windows@),
            focus: match self.focus {
                Some(label) => Some(label@),
                None => None,
            },
            next_surface: self.next_surface,
            deployment: self.deployment,
        }
    }
}

impl Registry {
    /// Validity of a registry: no label is filed twice, and its value is
    /// well-formed. Every registry that this module hands out is valid.
    pub closed spec fn wf(&self) -> bool {
        &&& distinct(self.windows@)
        &&& self@.wf()
    }

    /// The value of a valid registry is well-formed.
    pub proof fn lemma_wf(&self)
        requires
            self.wf(),
        ensures
            self@.wf(),
    {
    }

    /// A registry without windows.
    pub fn new(deployment: Deployment) -> (registry: Registry)
        ensures
            registry.wf(),
            registry@ == RegistryView::empty(deployment),
    {
        Registry::with_tokens_from(deployment, 0)
    }

    /// A registry without windows whose first window gets the token `first`.
    pub fn with_tokens_from(deployment: Deployment, first: u64) -> (registry: Registry)
        ensures
            registry.wf(),
            registry@ == RegistryView::empty_from(deployment, first),
    {
        let registry = Registry { windows: Vec::new(), focus: None, next_surface: first, deployment };
        assert(registry@.windows =~= Map::empty());
        registry
    }

    fn position(&self, label: &String) -> (at: Option<usize>)
        ensures
            match at {
                Some(i) => i < self.windows@.len() && self.windows@[i as int].label@ == label@,
                None => !listed(self.windows@, label@),
            },
    {
        let mut i: usize = 0;
        while i < self.windows.len()
            invariant
                i <= self.windows@.len(),
                forall|j: int| 0 <= j < i ==> self.windows@[j].label@ != label@,
            decreases self.windows@.len() - i,
        {
            if self.windows[i].label == *label {
                return Some(i);
            }
            i += 1;
        }
        None
    }

    /// The choices this registry was made with.
    pub fn deployment(&self) -> (deployment: Deployment)
        ensures
            deployment == self@.deployment,
    {
        self.deployment
    }

    /// How many windows are live.
    pub fn len(&self) -> (count: usize)
        requires
            self.wf(),
        ensures
            count == self@.windows.len(),
    {
        proof {
            lemma_filed_count(self.windows@);
        }
        self.windows.len()
    }

    /// Whether a window is live under `label`.
    pub fn contains(&self, label: &str) -> (live: bool)
        ensures
            live == self@.live(label@),
    {
        let key = label.to_owned();
        self.position(&key).is_some()
    }

    /// The live window under `label`.
    pub fn get(&self, label: &str) -> (found: Option<&Window>)
        requires
            self.wf(),
        ensures
            match found {
                Some(w) => self@.live(label@) && w.label@ == label@ && w@ == self@.windows[label@],
                None => !self@.live(label@),
            },
    {
        let key = label.to_owned();
        match self.position(&key) {
            Some(i) => {
                proof {
                    lemma_slot(self.windows@, i as int);
                }
                Some(&self.windows[i])
            },
            None => None,
        }
    }

    /// Whether the window under `label` holds the input focus.
    pub fn is_focused(&self, label: &str) -> (focused: bool)
        ensures
            focused == (self@.focus == Some(label@)),
    {
        let key = label.to_owned();
        self.holds_focus(&key)
    }

    fn holds_focus(&self, key: &String) -> (held: bool)
        ensures
            held == (self@.focus == Some(key@)),
    {
        match &self.focus {
            Some(holder) => *holder == *key,
            None => false,
        }
    }

    /// Takes the window at `i` out of the registry.
    fn take_out(&mut self, i: usize)
        requires
            old(self).wf(),
            i < old(self).windows@.len(),
        ensures
            final(self).wf(),
            final(self)@ == old(self)@.destroy(old(self).windows@[i as int].label@),
            !final(self)@.live(old(self).windows@[i as int].label@),
            !listed(final(self).windows@, old(self).windows@[i as int].label@),
    {
        proof {
            lemma_slot(self.windows@, i as int);
            lemma_filed_remove(self.windows@, i as int);
            lemma_destroy_wf(self@, self.windows@[i as int].label@);
        }
        let gone = self.windows.remove(i);
        if self.holds_focus(&gone.label) {
            self.focus = None;
        }
    }

    /// Makes an existing window visible and gives it input focus. Does
    /// nothing for a label that is not live; use
    /// [`Registry::create_or_focus`] where the window may have to be made.
    pub fn show_and_focus(&mut self, label: &str)
        requires
            old(self).wf(),
        ensures
            final(self).wf(),
            final(self)@ == old(self)@.show_and_focus(label@),
    {
        let key = label.to_owned();
        match self.position(&key) {
            Some(i) => {
                proof {
                    lemma_slot(self.windows@, i as int);
                    lemma_show_and_focus_wf(self@, label@);
                }
                self.windows[i].visibility = Visibility::Visible;
                self.focus = Some(key);
                proof {
                    lemma_filed_update(old(self).windows@, i as int, self.windows@[i as int]);
                    assert(self.windows@ =~= old(self).windows@.update(
                        i as int,
                        self.windows@[i as int],
                    ));
                }
            },
            None => {},
        }
    }

    /// Takes a live window out of sight without destroying it. Does nothing
    /// for a label that is not live, and changes nothing of a window that
    /// is hidden already.
    pub fn hide_window(&mut self, label: &str)
        requires
            old(self).wf(),
        ensures
            final(self).wf(),
            final(self)@ == old(self)@.conceal(label@),
    {
        let key = label.to_owned();
        match self.position(&key) {
            Some(i) => {
                proof {
                    lemma_slot(self.windows@, i as int);
                    lemma_conceal_wf(self@, label@);
                }
                self.windows[i].visibility = Visibility::Hidden;
                if self.holds_focus(&key) {
                    self.focus = None;
                }
                proof {
                    lemma_filed_update(old(self).windows@, i as int, self.windows@[i as int]);
                    assert(self.windows@ =~= old(self).windows@.update(
                        i as int,
                        self.windows@[i as int],
                    ));
                }
            },
            None => {},
        }
    }

    /// Removes the window and releases its surface. Does nothing for a
    /// label that is not live.
    pub fn destroy(&mut self, label: &str)
        requires
            old(self).wf(),
        ensures
            final(self).wf(),
            final(self)@ == old(self)@.destroy(label@),
    {
        let key = label.to_owned();
        match self.position(&key) {
            Some(i) => {
                self.take_out(i);
            },
            None => {},
        }
    }

    /// Notes that the window under `label` no longer holds the input focus.
    pub fn focus_lost(&mut self, label: &str)
        requires
            old(self).wf(),
        ensures
            final(self).wf(),
            final(self)@ == old(self)@.focus_lost(label@),
    {
        let key = label.to_owned();
        proof {
            lemma_focus_lost_wf(self@, label@);
        }
        if self.holds_focus(&key) {
            self.focus = None;
        }
    }

    /// Whether a request to create or focus `label` with `init_payload`
    /// needs a new surface from the windowing system.
    pub fn must_build(&self, label: &str, init_payload: &Option<EditorParams>) -> (needed: bool)
        requires
            self.wf(),
        ensures
            needed == self@.must_build(label@, init_payload.deep_view()),
    {
        match self.get(label) {
            Some(w) => match w.role {
                Role::Primary => false,
                Role::Transient => {
                    let recreate = match self.deployment.identical_payload {
                        IdenticalPayload::Recreate => true,
                        IdenticalPayload::Reshow => false,
                    };
                    recreate || !same_payload(&w.init_payload, init_payload)
                },
            },
            None => true,
        }
    }

    /// Brings the window under `label` to the front, creating it if need be.
    ///
    /// If a window is live under the label and the request does not replace
    /// it, that window is shown and focused and its handle returned; no
    /// surface is created and `outcome` is not looked at. Otherwise a window
    /// with the given role and payload is registered, visible and in focus,
    /// on the surface that the windowing system reported in `outcome`; a
    /// window that it replaces is destroyed. If the surface was refused, or
    /// no token is left for it, an error is returned and nothing is left
    /// under the label.
    pub fn create_or_focus(
        &mut self,
        label: &str,
        role: Role,
        init_payload: Option<EditorParams>,
        outcome: SurfaceOutcome,
    ) -> (res: Result<WindowHandle, CreationError>)
        requires
            old(self).wf(),
        ensures
            final(self).wf(),
            final(self)@ == old(self)@.create_or_focus(
                label@,
                role,
                init_payload.deep_view(),
                outcome@,
            ),
            match res {
                Ok(handle) => old(self)@.creation_result(label@, init_payload.deep_view(), outcome@)
                    == Ok::<WindowHandle, CreationErrorView>(handle),
                Err(e) => old(self)@.creation_result(label@, init_payload.deep_view(), outcome@)
                    == Err::<WindowHandle, CreationErrorView>(e@),
            },
    {
        proof {
            lemma_create_or_focus_wf(self@, label@, role, init_payload.deep_view(), outcome@);
        }
        let key = label.to_owned();
        match self.position(&key) {
            Some(i) => {
                proof {
                    lemma_slot(self.windows@, i as int);
                }
                if !self.must_build(label, &init_payload) {
                    let surface = self.windows[i].surface;
                    self.show_and_focus(label);
                    return Ok(WindowHandle { surface });
                }
                self.take_out(i);
            },
            None => {},
        }
        if self.next_surface == u64::MAX {
            return Err(CreationError::Exhausted);
        }
        match outcome {
            SurfaceOutcome::Refused { reason } => Err(CreationError::Refused { reason }),
            SurfaceOutcome::Ready => {
                let surface = self.next_surface;
                let window = Window {
                    label: key.clone(),
                    role,
                    visibility: Visibility::Visible,
                    surface,
                    init_payload,
                };
                proof {
                    lemma_filed_push(self.windows@, window);
                }
                self.windows.push(window);
                self.focus = Some(key);
                self.next_surface = surface + 1;
                proof {
                    assert(self@.windows =~= old(self)@.windows.insert(label@, window@));
                }
                Ok(WindowHandle { surface })
            },
        }
    }

    /// The commands that the windowing system has to carry out for `op`, in
    /// order, as the registry stands. They are to be carried out before the
    /// operation is applied; the answer to a `Build` among them is the
    /// outcome that [`Registry::apply`] takes.
    pub fn effects(&self, op: &Operation) -> (effects: Vec<Effect>)
        requires
            self.wf(),
        ensures
            effect_views(effects@) == self@.effects(op@),
    {
        let mut out: Vec<Effect> = Vec::new();
        match op {
            Operation::CreateOrFocus { label, role, init_payload } => {
                if !self.must_build(label.as_str(), init_payload) {
                    out.push(Effect::Show { label: label.clone() });
                    out.push(Effect::Focus { label: label.clone() });
                } else {
                    if self.contains(label.as_str()) {
                        out.push(Effect::Release { label: label.clone() });
                    }
                    if self.next_surface != u64::MAX {
                        out.push(
                            Effect::Build {
                                label: label.clone(),
                                chrome: chrome_for(label.as_str(), *role, self.deployment.addressing),
                            },
                        );
                        match init_payload {
                            Some(p) => {
                                out.push(
                                    Effect::Deliver {
                                        label: label.clone(),
                                        channel: join(CHANNEL_PREFIX, label.as_str()),
                                        payload: p.clone(),
                                    },
                                );
                            },
                            None => {},
                        }
                    }
                }
            },
            Operation::ShowAndFocus { label } => {
                if self.contains(label.as_str()) {
                    out.push(Effect::Show { label: label.clone() });
                    out.push(Effect::Focus { label: label.clone() });
                }
            },
            Operation::Hide { label } => {
                match self.get(label.as_str()) {
                    Some(w) => match w.visibility {
                        Visibility::Visible => {
                            out.push(Effect::Hide { label: label.clone() });
                        },
                        Visibility::Hidden => {},
                    },
                    None => {},
                }
            },
            Operation::Destroy { label } => {
                if self.contains(label.as_str()) {
                    out.push(Effect::Release { label: label.clone() });
                }
            },
            Operation::Quit { code } => {
                out.push(Effect::Exit { code: *code });
            },
            Operation::Nothing => {},
        }
        assert(effect_views(out@) =~= self@.effects(op@));
        out
    }

    /// Carries out `op` on the registry. `outcome` is what the windowing
    /// system answered to the `Build` among the effects of `op`; where there
    /// was none it is `Ready`, and it is looked at only where a surface was
    /// needed.
    pub fn apply(&mut self, op: Operation, outcome: SurfaceOutcome) -> (res: Result<
        Option<WindowHandle>,
        CreationError,
    >)
        requires
            old(self).wf(),
        ensures
            final(self).wf(),
            final(self)@ == old(self)@.apply(op@, outcome@),
            match res {
                Ok(handle) => old(self)@.apply_result(op@, outcome@) == Ok::<
                    Option<WindowHandle>,
                    CreationErrorView,
                >(handle),
                Err(e) => old(self)@.apply_result(op@, outcome@) == Err::<
                    Option<WindowHandle>,
                    CreationErrorView,
                >(e@),
            },
    {
        match op {
            Operation::CreateOrFocus { label, role, init_payload } => {
                match self.create_or_focus(label.as_str(), role, init_payload, outcome) {
                    Ok(handle) => Ok(Some(handle)),
                    Err(e) => Err(e),
                }
            },
            Operation::ShowAndFocus { label } => {
                self.show_and_focus(label.as_str());
                Ok(None)
            },
            Operation::Hide { label } => {
                self.hide_window(label.as_str());
                Ok(None)
            },
            Operation::Destroy { label } => {
                self.destroy(label.as_str());
                Ok(None)
            },
            Operation::Quit { code } => Ok(None),
            Operation::Nothing => Ok(None),
        }
    }

    /// Turns an operating system event on the window `label` into the
    /// operation that the lifecycle policy asks for.
    pub fn window_event_operation(&self, label: &str, event: WindowEvent) -> (op: Operation)
        requires
            self.wf(),
        ensures
            op@ == self@.window_event_operation(label@, event),
    {
        match self.get(label) {
            Some(w) => match decide(w.role, event).action {
                LifecycleAction::Hide => Operation::Hide { label: label.to_owned() },
                LifecycleAction::Destroy => Operation::Destroy { label: label.to_owned() },
                LifecycleAction::Nothing => Operation::Nothing,
            },
            None => Operation::Nothing,
        }
    }

    /// Whether the close that `event` announces for the window `label` is
    /// to be called off.
    pub fn vetoes(&self, label: &str, event: WindowEvent) -> (veto: bool)
        requires
            self.wf(),
        ensures
            veto == self@.vetoes(label@, event),
    {
        match self.get(label) {
            Some(w) => decide(w.role, event).veto_close,
            None => false,
        }
    }

    /// Handles an operating system event on the window `label`: notes a
    /// lost focus, carries out what the lifecycle policy decides, and says
    /// what the windowing system has to do about it.
    pub fn on_window_event(&mut self, label: &str, event: WindowEvent) -> (reaction: Plan)
        requires
            old(self).wf(),
        ensures
            final(self).wf(),
            final(self)@ == old(self)@.after_window_event(label@, event),
            reaction.veto_close == old(self)@.vetoes(label@, event),
            effect_views(reaction.effects@) == old(self)@.effects(
                old(self)@.window_event_operation(label@, event),
            ),
    {
        let veto_close = self.vetoes(label, event);
        let op = self.window_event_operation(label, event);
        let effects = self.effects(&op);
        match event {
            WindowEvent::FocusLost => {
                self.focus_lost(label);
            },
            WindowEvent::CloseRequested => {},
        }
        let _applied = self.apply(op, SurfaceOutcome::Ready);
        Plan { veto_close, effects }
    }
}

} // verus!
