//! What holds of the registry whatever is asked of it.

use vstd::prelude::*;
use crate::model::RegistryView;
use crate::operation::{EffectView, OperationView, SurfaceOutcomeView};
use crate::policy::WindowEvent;
use crate::tray::{click_operation, menu_operation, MouseButton, MouseButtonState, QUIT_ID};
use crate::window::{EditorParamsView, Role, Visibility, MAIN};

verus! {

/// Showing and focusing a window keeps the registry well-formed.
pub proof fn lemma_show_and_focus_wf(r: RegistryView, label: Seq<char>)
    requires
        r.wf(),
    ensures
        r.show_and_focus(label).wf(),
{
}

/// Hiding a window keeps the registry well-formed.
pub proof fn lemma_conceal_wf(r: RegistryView, label: Seq<char>)
    requires
        r.wf(),
    ensures
        r.conceal(label).wf(),
{
}

/// Destroying a window keeps the registry well-formed.
pub proof fn lemma_destroy_wf(r: RegistryView, label: Seq<char>)
    requires
        r.wf(),
    ensures
        r.destroy(label).wf(),
{
}

/// Noting a lost focus keeps the registry well-formed.
pub proof fn lemma_focus_lost_wf(r: RegistryView, label: Seq<char>)
    requires
        r.wf(),
    ensures
        r.focus_lost(label).wf(),
{
}

/// A request to create or focus keeps the registry well-formed, whatever
/// the windowing system answered.
pub proof fn lemma_create_or_focus_wf(
    r: RegistryView,
    label: Seq<char>,
    role: Role,
    payload: Option<EditorParamsView>,
    outcome: SurfaceOutcomeView,
)
    requires
        r.wf(),
    ensures
        r.create_or_focus(label, role, payload, outcome).wf(),
{
    lemma_show_and_focus_wf(r, label);
    lemma_destroy_wf(r, label);
}

/// Every operation keeps the registry well-formed.
pub proof fn lemma_apply_wf(r: RegistryView, op: OperationView, outcome: SurfaceOutcomeView)
    requires
        r.wf(),
    ensures
        r.apply(op, outcome).wf(),
{
    match op {
        OperationView::CreateOrFocus { label, role, init_payload } => {
            lemma_create_or_focus_wf(r, label, role, init_payload, outcome);
        },
        OperationView::ShowAndFocus { label } => {
            lemma_show_and_focus_wf(r, label);
        },
        OperationView::Hide { label } => {
            lemma_conceal_wf(r, label);
        },
        OperationView::Destroy { label } => {
            lemma_destroy_wf(r, label);
        },
        OperationView::Quit { code } => {},
        OperationView::Nothing => {},
    }
}

/// Every operating system event keeps the registry well-formed.
pub proof fn lemma_window_event_wf(r: RegistryView, label: Seq<char>, event: WindowEvent)
    requires
        r.wf(),
    ensures
        r.after_window_event(label, event).wf(),
{
    lemma_focus_lost_wf(r, label);
    let noted = if event == WindowEvent::FocusLost {
        r.focus_lost(label)
    } else {
        r
    };
    lemma_apply_wf(noted, noted.window_event_operation(label, event), SurfaceOutcomeView::Ready);
}

/// Creating or focusing is idempotent.
///
/// Two requests for the same label in a row leave every other window as it
/// was and never more than one window under the label. If the second request
/// returns a handle, that window is visible and in focus; if it returns an
/// error, nothing is left under the label. A second request that does not
/// replace the window finds the very window that the first one left: same
/// surface, same role, same payload.
pub proof fn law_create_or_focus_idempotent(
    r: RegistryView,
    label: Seq<char>,
    first_role: Role,
    first_payload: Option<EditorParamsView>,
    first_outcome: SurfaceOutcomeView,
    second_role: Role,
    second_payload: Option<EditorParamsView>,
    second_outcome: SurfaceOutcomeView,
)
    requires
        r.wf(),
    ensures
        ({
            let once = r.create_or_focus(label, first_role, first_payload, first_outcome);
            let twice = once.create_or_focus(label, second_role, second_payload, second_outcome);
            let returned = once.creation_result(label, second_payload, second_outcome);
            &&& twice.wf()
            &&& twice.windows.remove(label) == r.windows.remove(label)
            &&& returned is Ok ==> twice.in_front(label)
            &&& returned matches Ok(handle) ==> twice.windows[label].surface == handle.surface
            &&& returned is Err ==> !twice.live(label)
            &&& once.live(label) && !once.supersedes(label, second_payload) ==> returned is Ok
                && twice.windows[label] == once.windows[label].shown()
        }),
{
    let once = r.create_or_focus(label, first_role, first_payload, first_outcome);
    let twice = once.create_or_focus(label, second_role, second_payload, second_outcome);
    lemma_create_or_focus_wf(r, label, first_role, first_payload, first_outcome);
    lemma_create_or_focus_wf(once, label, second_role, second_payload, second_outcome);
    assert(once.windows.remove(label) =~= r.windows.remove(label));
    assert(twice.windows.remove(label) =~= once.windows.remove(label));
}

/// A transient window is dismissed when it loses focus: right after the
/// event it is absent from the registry, its surface is released, and no
/// other window has changed.
pub proof fn law_focus_loss_dismisses_transient(r: RegistryView, label: Seq<char>)
    requires
        r.wf(),
        r.live(label),
        r.windows[label].role == Role::Transient,
    ensures
        !r.after_window_event(label, WindowEvent::FocusLost).live(label),
        r.after_window_event(label, WindowEvent::FocusLost).windows == r.windows.remove(label),
        r.effects(r.window_event_operation(label, WindowEvent::FocusLost)) == seq![
            EffectView::Release { label },
        ],
{
    assert(r.after_window_event(label, WindowEvent::FocusLost).windows =~= r.windows.remove(label));
}

/// A close request never removes a primary window: the close is called off
/// and the window, on the surface it had, is hidden.
pub proof fn law_close_request_hides_primary(r: RegistryView, label: Seq<char>)
    requires
        r.wf(),
        r.live(label),
        r.windows[label].role == Role::Primary,
    ensures
        r.vetoes(label, WindowEvent::CloseRequested),
        r.after_window_event(label, WindowEvent::CloseRequested).live(label),
        r.after_window_event(label, WindowEvent::CloseRequested).windows[label]
            == r.windows[label].concealed(),
        r.after_window_event(label, WindowEvent::CloseRequested).windows.dom() == r.windows.dom(),
{
    assert(r.after_window_event(label, WindowEvent::CloseRequested).windows.dom()
        =~= r.windows.dom());
}

/// A primary window stays as it is when it loses focus: only the focus is
/// noted as gone.
pub proof fn law_focus_loss_keeps_primary(r: RegistryView, label: Seq<char>)
    requires
        r.wf(),
        r.live(label),
        r.windows[label].role == Role::Primary,
    ensures
        r.after_window_event(label, WindowEvent::FocusLost).windows == r.windows,
        r.after_window_event(label, WindowEvent::FocusLost).focus != Some(label),
        !r.vetoes(label, WindowEvent::FocusLost),
        r.effects(r.window_event_operation(label, WindowEvent::FocusLost)) == Seq::<
            EffectView,
        >::empty(),
{
}

/// A close request on a transient window goes ahead: the close is not
/// called off, and right after the event the window is absent from the
/// registry while every other window is as it was.
pub proof fn law_close_request_destroys_transient(r: RegistryView, label: Seq<char>)
    requires
        r.wf(),
        r.live(label),
        r.windows[label].role == Role::Transient,
    ensures
        !r.vetoes(label, WindowEvent::CloseRequested),
        !r.after_window_event(label, WindowEvent::CloseRequested).live(label),
        r.after_window_event(label, WindowEvent::CloseRequested).windows == r.windows.remove(
            label,
        ),
{
    assert(r.after_window_event(label, WindowEvent::CloseRequested).windows =~= r.windows.remove(
        label,
    ));
}

/// A left click on the tray icon brings the primary window to the front,
/// whether it was hidden or visible, in focus or not.
pub proof fn law_tray_click_shows_primary(r: RegistryView, outcome: SurfaceOutcomeView)
    requires
        r.wf(),
        r.live(MAIN@),
    ensures
        r.apply(click_operation(MouseButton::Left, MouseButtonState::Up), outcome).in_front(MAIN@),
        r.apply(click_operation(MouseButton::Left, MouseButtonState::Up), outcome).windows[MAIN@]
            == r.windows[MAIN@].shown(),
{
}

/// No operation but an explicit request to destroy it removes a primary
/// window or moves it to another surface.
pub proof fn law_primary_survives(
    r: RegistryView,
    op: OperationView,
    outcome: SurfaceOutcomeView,
    label: Seq<char>,
)
    requires
        r.wf(),
        r.live(label),
        r.windows[label].role == Role::Primary,
        op != (OperationView::Destroy { label }),
    ensures
        r.apply(op, outcome).live(label),
        r.apply(op, outcome).windows[label].role == Role::Primary,
        r.apply(op, outcome).windows[label].surface == r.windows[label].surface,
{
}

/// A window that is created never gets a surface that a window of the
/// registry has, or had when it was destroyed just before: a popup that is
/// opened again is a new one, not the old one shown again.
pub proof fn law_new_window_is_fresh(
    r: RegistryView,
    gone: Seq<char>,
    label: Seq<char>,
    role: Role,
    payload: Option<EditorParamsView>,
    other: Seq<char>,
)
    requires
        r.wf(),
        r.live(other),
        r.destroy(gone).must_build(label, payload),
        !r.exhausted(),
    ensures
        r.destroy(gone).create_or_focus(label, role, payload, SurfaceOutcomeView::Ready).live(label),
        r.destroy(gone).create_or_focus(
            label,
            role,
            payload,
            SurfaceOutcomeView::Ready,
        ).windows[label].surface != r.windows[other].surface,
{
}

/// Quitting through the tray menu ends the process with code zero and asks
/// no window: the only command is the exit, and the registry is left as it
/// was.
pub proof fn law_quit_bypasses_windows(r: RegistryView, outcome: SurfaceOutcomeView)
    ensures
        menu_operation(QUIT_ID@) == (OperationView::Quit { code: 0 }),
        r.effects(menu_operation(QUIT_ID@)) == seq![EffectView::Exit { code: 0 }],
        r.apply(menu_operation(QUIT_ID@), outcome) == r,
{
    reveal_strlit("show");
    reveal_strlit("test_command");
    reveal_strlit("quit");
    assert(QUIT_ID@.len() == 4);
    assert(crate::tray::SHOW_ID@.len() == 4);
    assert(crate::tray::SHOW_ID@[0] == 's');
    assert(QUIT_ID@[0] == 'q');
    assert(crate::tray::TEST_COMMAND_ID@.len() == 12);
}

/// A surface is asked of the windowing system exactly where the answer is
/// looked at: a request to create or focus commands a `Build` if and only if
/// it needs a new surface and a token is left for it.
pub proof fn law_build_commanded_where_needed(
    r: RegistryView,
    label: Seq<char>,
    role: Role,
    payload: Option<EditorParamsView>,
)
    ensures
        (exists|i: int|
            0 <= i < r.create_effects(label, role, payload).len() && #[trigger] r.create_effects(
                label,
                role,
                payload,
            )[i] is Build) <==> (r.must_build(label, payload) && !r.exhausted()),
{
    let effects = r.create_effects(label, role, payload);
    if r.must_build(label, payload) && !r.exhausted() {
        if r.live(label) {
            assert(effects[1] is Build);
        } else {
            assert(effects[0] is Build);
        }
    }
}

/// Hiding a window that is hidden already, or one that is not there,
/// changes nothing.
pub proof fn law_hiding_twice_changes_nothing(r: RegistryView, label: Seq<char>)
    requires
        r.wf(),
    ensures
        r.conceal(label).conceal(label) == r.conceal(label),
        !r.live(label) ==> r.conceal(label) == r,
        r.live(label) && r.windows[label].visibility == Visibility::Hidden ==> r.conceal(label) == r,
{
    assert(r.conceal(label).conceal(label).windows =~= r.conceal(label).windows);
    if r.live(label) && r.windows[label].visibility == Visibility::Hidden {
        assert(r.conceal(label).windows =~= r.windows);
    }
}

/// The answer of the windowing system is looked at only where a surface
/// was asked of it: an operation whose commands hold no `Build` comes out
/// the same whatever the answer.
pub proof fn law_outcome_matters_only_after_build(
    r: RegistryView,
    op: OperationView,
    one: SurfaceOutcomeView,
    other: SurfaceOutcomeView,
)
    requires
        forall|i: int| 0 <= i < r.effects(op).len() ==> !(#[trigger] r.effects(op)[i] is Build),
    ensures
        r.apply(op, one) == r.apply(op, other),
        r.apply_result(op, one) == r.apply_result(op, other),
{
    match op {
        OperationView::CreateOrFocus { label, role, init_payload } => {
            if r.must_build(label, init_payload) && !r.exhausted() {
                let at: int = if r.live(label) {
                    1
                } else {
                    0
                };
                assert(r.effects(op)[at] is Build);
            }
        },
        _ => {},
    }
}

} // verus!
