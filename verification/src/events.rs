//! Everything that can happen to a running process: one kind of event for
//! each source, one function that says what the windowing system has to do
//! about an event, one that carries it out, and what holds of the registry
//! however long the process runs.

use vstd::prelude::*;
use crate::bridge::{
    open_editor, open_editor_effects, reply, request_show_main, show_main_operation,
    spec_open_editor, spec_open_editor_effects, spec_open_editor_reply, spec_reply,
    spec_show_main_operation, EditorRequest, EditorRequestView,
};
use crate::hotkey::{fire_operation, on_fire};
use crate::laws::{
    lemma_apply_wf, lemma_create_or_focus_wf, lemma_show_and_focus_wf, lemma_window_event_wf,
};
use crate::model::{Deployment, RegistryView};
use crate::operation::{effect_views, EffectView, Plan, SurfaceOutcome, SurfaceOutcomeView};
use crate::policy::WindowEvent;
use crate::registry::Registry;
use crate::startup::spec_started;
use crate::tray::{
    click_operation, menu_operation, on_click, on_menu_select, MouseButton, MouseButtonState,
    QUIT_ID, SHOW_ID, TEST_COMMAND_ID,
};
use crate::window::{Role, Visibility, MAIN};

verus! {

/// One thing that happens to the process, from any of its event sources.
#[derive(PartialEq, Eq, Debug)]
pub enum Event {
    /// A mouse button changed state on the tray icon.
    TrayClick { button: MouseButton, state: MouseButtonState },
    /// An entry of the tray menu was selected.
    MenuSelected { id: String },
    /// The global hotkey fired.
    HotkeyFired,
    /// The operating system reported on a window.
    Window { label: String, event: WindowEvent },
    /// The content of a window asked for the editor.
    OpenEditor { request: EditorRequest },
    /// The content of a window asked for the primary window.
    ShowMainRequested,
}

/// Mathematical value of an [`Event`].
pub enum EventView {
    TrayClick { button: MouseButton, state: MouseButtonState },
    MenuSelected { id: Seq<char> },
    HotkeyFired,
    Window { label: Seq<char>, event: WindowEvent },
    OpenEditor { request: EditorRequestView },
    ShowMainRequested,
}

impl View for Event {
    type V = EventView;

    open spec fn view(&self) -> EventView {
        match self {
            Event::TrayClick { button, state } => EventView::TrayClick {
                button: *button,
                state: *state,
            },
            Event::MenuSelected { id } => EventView::MenuSelected { id: id@ },
            Event::HotkeyFired => EventView::HotkeyFired,
            Event::Window { label, event } => EventView::Window { label: label@, event: *event },
            Event::OpenEditor { request } => EventView::OpenEditor { request: request@ },
            Event::ShowMainRequested => EventView::ShowMainRequested,
        }
    }
}

/// An event together with what the windowing system answered while it was
/// handled.
pub struct Happening {
    pub event: EventView,
    pub outcome: SurfaceOutcomeView,
}

/// The commands that an event asks of the windowing system.
pub open spec fn event_effects(r: RegistryView, event: EventView) -> Seq<EffectView> {
    match event {
        EventView::TrayClick { button, state } => r.effects(click_operation(button, state)),
        EventView::MenuSelected { id } => r.effects(menu_operation(id)),
        EventView::HotkeyFired => r.effects(fire_operation()),
        EventView::Window { label, event } => r.effects(r.window_event_operation(label, event)),
        EventView::OpenEditor { request } => spec_open_editor_effects(r, request),
        EventView::ShowMainRequested => r.effects(spec_show_main_operation()),
    }
}

/// Whether an event announces a close that is called off. Only a close
/// request on a window can be.
pub open spec fn event_vetoes(r: RegistryView, event: EventView) -> bool {
    match event {
        EventView::Window { label, event } => r.vetoes(label, event),
        _ => false,
    }
}

/// What the source of an event is told once it is handled: success, or the
/// reason of the failure as text.
pub open spec fn event_reply(r: RegistryView, event: EventView, outcome: SurfaceOutcomeView) -> Result<
    (),
    Seq<char>,
> {
    match event {
        EventView::TrayClick { button, state } => spec_reply(
            r.apply_result(click_operation(button, state), outcome),
        ),
        EventView::MenuSelected { id } => spec_reply(r.apply_result(menu_operation(id), outcome)),
        EventView::HotkeyFired => spec_reply(r.apply_result(fire_operation(), outcome)),
        EventView::Window { label, event } => Ok(()),
        EventView::OpenEditor { request } => spec_open_editor_reply(r, request, outcome),
        EventView::ShowMainRequested => Ok(()),
    }
}

/// The registry after one event.
pub open spec fn after_event(r: RegistryView, event: EventView, outcome: SurfaceOutcomeView) -> RegistryView {
    match event {
        EventView::TrayClick { button, state } => r.apply(click_operation(button, state), outcome),
        EventView::MenuSelected { id } => r.apply(menu_operation(id), outcome),
        EventView::HotkeyFired => r.apply(fire_operation(), outcome),
        EventView::Window { label, event } => r.after_window_event(label, event),
        EventView::OpenEditor { request } => spec_open_editor(r, request, outcome),
        EventView::ShowMainRequested => r.show_and_focus(MAIN@),
    }
}

/// The registry after a run of events, the earliest first.
pub open spec fn after_events(r: RegistryView, run: Seq<Happening>) -> RegistryView
    decreases run.len(),
{
    if run.len() == 0 {
        r
    } else {
        after_event(after_events(r, run.drop_last()), run.last().event, run.last().outcome)
    }
}

/// What the windowing system has to do about `event`, as the registry
/// stands. It is to be done before the event is handled; the answer to a
/// `Build` among the effects is the outcome that [`handle`] takes.
pub fn plan(registry: &Registry, event: &Event) -> (plan: Plan)
    requires
        registry.wf(),
    ensures
        plan.veto_close == event_vetoes(registry@, event@),
        effect_views(plan.effects@) == event_effects(registry@, event@),
{
    match event {
        Event::TrayClick { button, state } => Plan {
            veto_close: false,
            effects: registry.effects(&on_click(*button, *state)),
        },
        Event::MenuSelected { id } => Plan {
            veto_close: false,
            effects: registry.effects(&on_menu_select(id.as_str())),
        },
        Event::HotkeyFired => Plan { veto_close: false, effects: registry.effects(&on_fire()) },
        Event::Window { label, event } => Plan {
            veto_close: registry.vetoes(label.as_str(), *event),
            effects: registry.effects(&registry.window_event_operation(label.as_str(), *event)),
        },
        Event::OpenEditor { request } => Plan {
            veto_close: false,
            effects: open_editor_effects(registry, request),
        },
        Event::ShowMainRequested => Plan {
            veto_close: false,
            effects: registry.effects(&show_main_operation()),
        },
    }
}

/// Handles `event`: the registry moves to the state that the event leads
/// to, and the source of the event gets its reply. `outcome` is what the
/// windowing system answered to the `Build` among the effects of [`plan`];
/// where there was none it is `Ready`.
pub fn handle(registry: &mut Registry, event: Event, outcome: SurfaceOutcome) -> (told: Result<
    (),
    String,
>)
    requires
        old(registry).wf(),
    ensures
        final(registry).wf(),
        final(registry)@ == after_event(old(registry)@, event@, outcome@),
        match told {
            Ok(_) => event_reply(old(registry)@, event@, outcome@) is Ok,
            Err(text) => event_reply(old(registry)@, event@, outcome@) == Err::<(), Seq<char>>(
                text@,
            ),
        },
{
    match event {
        Event::TrayClick { button, state } => reply(registry.apply(on_click(button, state), outcome)),
        Event::MenuSelected { id } => reply(registry.apply(on_menu_select(id.as_str()), outcome)),
        Event::HotkeyFired => reply(registry.apply(on_fire(), outcome)),
        Event::Window { label, event } => {
            let _reaction = registry.on_window_event(label.as_str(), event);
            Ok(())
        },
        Event::OpenEditor { request } => open_editor(registry, request, outcome),
        Event::ShowMainRequested => request_show_main(registry),
    }
}

/// No event harms the registry or the primary windows in it: after any
/// event the registry is well-formed, and a primary window that was live is
/// live still, primary still, on the surface it had.
pub proof fn law_event_spares_primary(
    r: RegistryView,
    event: EventView,
    outcome: SurfaceOutcomeView,
    primary: Seq<char>,
)
    requires
        r.wf(),
        r.live(primary),
        r.windows[primary].role == Role::Primary,
    ensures
        after_event(r, event, outcome).wf(),
        after_event(r, event, outcome).live(primary),
        after_event(r, event, outcome).windows[primary].role == Role::Primary,
        after_event(r, event, outcome).windows[primary].surface == r.windows[primary].surface,
{
    match event {
        EventView::TrayClick { button, state } => {
            lemma_apply_wf(r, click_operation(button, state), outcome);
        },
        EventView::MenuSelected { id } => {
            lemma_apply_wf(r, menu_operation(id), outcome);
        },
        EventView::HotkeyFired => {
            lemma_apply_wf(r, fire_operation(), outcome);
        },
        EventView::Window { label, event } => {
            lemma_window_event_wf(r, label, event);
        },
        EventView::OpenEditor { request } => {
            match request.kind {
                Some(kind) => {
                    lemma_apply_wf(
                        r,
                        crate::bridge::spec_editor_operation(
                            crate::window::EditorParamsView { kind, title: request.title },
                        ),
                        outcome,
                    );
                },
                None => {},
            }
        },
        EventView::ShowMainRequested => {
            lemma_show_and_focus_wf(r, MAIN@);
        },
    }
}

/// However long the process runs, its primary window is never destroyed:
/// after any run of events from startup the registry is well-formed and the
/// window that startup registered is live, primary, and on its first surface.
pub proof fn law_primary_outlives_every_run(deployment: Deployment, run: Seq<Happening>)
    ensures
        after_events(spec_started(deployment), run).wf(),
        after_events(spec_started(deployment), run).live(MAIN@),
        after_events(spec_started(deployment), run).windows[MAIN@].role == Role::Primary,
        after_events(spec_started(deployment), run).windows[MAIN@].surface == 0,
    decreases run.len(),
{
    if run.len() == 0 {
        lemma_create_or_focus_wf(
            RegistryView::empty(deployment),
            MAIN@,
            Role::Primary,
            None,
            SurfaceOutcomeView::Ready,
        );
    } else {
        law_primary_outlives_every_run(deployment, run.drop_last());
        law_event_spares_primary(
            after_events(spec_started(deployment), run.drop_last()),
            run.last().event,
            run.last().outcome,
            MAIN@,
        );
    }
}

/// At any moment of any run, a left click on the tray icon brings the
/// primary window to the front, whatever state it was in.
pub proof fn law_tray_click_always_shows_primary(
    deployment: Deployment,
    run: Seq<Happening>,
    outcome: SurfaceOutcomeView,
)
    ensures
        after_event(
            after_events(spec_started(deployment), run),
            EventView::TrayClick { button: MouseButton::Left, state: MouseButtonState::Up },
            outcome,
        ).in_front(MAIN@),
{
    law_primary_outlives_every_run(deployment, run);
}

/// At any moment of any run, a close request on the primary window is called
/// off and leaves the window live and hidden.
pub proof fn law_close_request_always_hides_primary(deployment: Deployment, run: Seq<Happening>)
    ensures
        after_events(spec_started(deployment), run).vetoes(MAIN@, WindowEvent::CloseRequested),
        after_event(
            after_events(spec_started(deployment), run),
            EventView::Window { label: MAIN@, event: WindowEvent::CloseRequested },
            SurfaceOutcomeView::Ready,
        ).live(MAIN@),
        after_event(
            after_events(spec_started(deployment), run),
            EventView::Window { label: MAIN@, event: WindowEvent::CloseRequested },
            SurfaceOutcomeView::Ready,
        ).windows[MAIN@].visibility == Visibility::Hidden,
{
    law_primary_outlives_every_run(deployment, run);
}

/// Whether one of the commands ends the process.
pub open spec fn ends_process(effects: Seq<EffectView>) -> bool {
    exists|i: int| 0 <= i < effects.len() && #[trigger] effects[i] is Exit
}

/// Quitting through the tray menu is the only way the process ends: an
/// event commands an exit if and only if it is the selection of the quit
/// entry, and the exit code is zero.
pub proof fn law_only_quit_ends_the_process(r: RegistryView, event: EventView)
    ensures
        ends_process(event_effects(r, event)) <==> event == (EventView::MenuSelected {
            id: QUIT_ID@,
        }),
        event == (EventView::MenuSelected { id: QUIT_ID@ }) ==> event_effects(r, event) == seq![
            EffectView::Exit { code: 0 },
        ],
{
    reveal_strlit("show");
    reveal_strlit("test_command");
    reveal_strlit("quit");
    assert(QUIT_ID@.len() == 4 && QUIT_ID@[0] == 'q');
    assert(SHOW_ID@.len() == 4 && SHOW_ID@[0] == 's');
    assert(TEST_COMMAND_ID@.len() == 12);
    let effects = event_effects(r, event);
    if event == (EventView::MenuSelected { id: QUIT_ID@ }) {
        assert(effects[0] is Exit);
    } else if ends_process(effects) {
        let i = choose|i: int| 0 <= i < effects.len() && #[trigger] effects[i] is Exit;
        assert(effects[i] is Exit);
        assert(false);
    }
}

} // verus!
