use devnote::chrome::Addressing;
use devnote::model::{Deployment, IdenticalPayload};
use devnote::operation::{Effect, Operation, Plan, SurfaceOutcome};
use devnote::policy::{decide, LifecycleAction, Verdict, WindowEvent};
use devnote::registry::Registry;
use devnote::window::{EditorParams, Role, Visibility};

fn registry() -> Registry {
    Registry::new(Deployment { addressing: Addressing::Query, identical_payload: IdenticalPayload::Reshow })
}

#[test]
fn decision_table() {
    assert_eq!(
        decide(Role::Primary, WindowEvent::CloseRequested),
        Verdict { veto_close: true, action: LifecycleAction::Hide }
    );
    assert_eq!(
        decide(Role::Primary, WindowEvent::FocusLost),
        Verdict { veto_close: false, action: LifecycleAction::Nothing }
    );
    assert_eq!(
        decide(Role::Transient, WindowEvent::CloseRequested),
        Verdict { veto_close: false, action: LifecycleAction::Destroy }
    );
    assert_eq!(
        decide(Role::Transient, WindowEvent::FocusLost),
        Verdict { veto_close: false, action: LifecycleAction::Destroy }
    );
}

#[test]
fn transient_is_dismissed_on_focus_loss() {
    for label in ["command", "editor", "palette"] {
        let mut r = registry();
        r.create_or_focus("main", Role::Primary, None, SurfaceOutcome::Ready).unwrap();
        r.create_or_focus(label, Role::Transient, None, SurfaceOutcome::Ready).unwrap();
        let reaction = r.on_window_event(label, WindowEvent::FocusLost);
        assert_eq!(
            reaction,
            Plan { veto_close: false, effects: vec![Effect::Release { label: label.to_string() }] }
        );
        assert!(!r.contains(label));
        assert!(r.get(label).is_none());
        assert_eq!(r.len(), 1);
        assert!(r.contains("main"));
        assert!(!r.is_focused(label));
    }
}

#[test]
fn hidden_transient_is_dismissed_on_focus_loss() {
    let mut r = registry();
    r.create_or_focus("command", Role::Transient, None, SurfaceOutcome::Ready).unwrap();
    r.hide_window("command");
    r.on_window_event("command", WindowEvent::FocusLost);
    assert!(!r.contains("command"));
}

#[test]
fn transient_close_goes_ahead() {
    let mut r = registry();
    let payload = EditorParams { kind: "note".to_string(), title: None };
    r.create_or_focus("editor", Role::Transient, Some(payload), SurfaceOutcome::Ready).unwrap();
    let reaction = r.on_window_event("editor", WindowEvent::CloseRequested);
    assert!(!reaction.veto_close);
    assert_eq!(reaction.effects, vec![Effect::Release { label: "editor".to_string() }]);
    assert!(!r.contains("editor"));
    assert_eq!(r.len(), 0);
}

#[test]
fn primary_close_is_called_off() {
    let mut r = registry();
    r.create_or_focus("main", Role::Primary, None, SurfaceOutcome::Ready).unwrap();
    let reaction = r.on_window_event("main", WindowEvent::CloseRequested);
    assert_eq!(
        reaction,
        Plan { veto_close: true, effects: vec![Effect::Hide { label: "main".to_string() }] }
    );
    let w = r.get("main").unwrap();
    assert_eq!(w.visibility, Visibility::Hidden);
    assert_eq!(w.role, Role::Primary);
    assert_eq!(w.surface, 0);
    assert!(!r.is_focused("main"));
}

#[test]
fn primary_close_when_hidden_already() {
    let mut r = registry();
    r.create_or_focus("main", Role::Primary, None, SurfaceOutcome::Ready).unwrap();
    r.hide_window("main");
    let reaction = r.on_window_event("main", WindowEvent::CloseRequested);
    assert!(reaction.veto_close);
    assert_eq!(reaction.effects, vec![]);
    assert!(r.contains("main"));
    assert_eq!(r.get("main").unwrap().visibility, Visibility::Hidden);
}

#[test]
fn primary_close_any_number_of_times() {
    let mut r = registry();
    r.create_or_focus("main", Role::Primary, None, SurfaceOutcome::Ready).unwrap();
    for _ in 0..5 {
        assert!(r.on_window_event("main", WindowEvent::CloseRequested).veto_close);
        assert!(r.contains("main"));
        assert_eq!(r.get("main").unwrap().visibility, Visibility::Hidden);
    }
}

#[test]
fn primary_keeps_everything_but_focus_on_focus_loss() {
    let mut r = registry();
    r.create_or_focus("main", Role::Primary, None, SurfaceOutcome::Ready).unwrap();
    let reaction = r.on_window_event("main", WindowEvent::FocusLost);
    assert_eq!(reaction, Plan { veto_close: false, effects: vec![] });
    assert!(r.contains("main"));
    assert_eq!(r.get("main").unwrap().visibility, Visibility::Visible);
    assert!(!r.is_focused("main"));
}

#[test]
fn event_on_unknown_window() {
    let mut r = registry();
    r.create_or_focus("main", Role::Primary, None, SurfaceOutcome::Ready).unwrap();
    let close = r.on_window_event("ghost", WindowEvent::CloseRequested);
    assert_eq!(close, Plan { veto_close: false, effects: vec![] });
    let blur = r.on_window_event("ghost", WindowEvent::FocusLost);
    assert_eq!(blur, Plan { veto_close: false, effects: vec![] });
    assert_eq!(r.len(), 1);
    assert!(r.is_focused("main"));
}

#[test]
fn window_event_operations() {
    let mut r = registry();
    r.create_or_focus("main", Role::Primary, None, SurfaceOutcome::Ready).unwrap();
    r.create_or_focus("command", Role::Transient, None, SurfaceOutcome::Ready).unwrap();
    assert_eq!(
        r.window_event_operation("main", WindowEvent::CloseRequested),
        Operation::Hide { label: "main".to_string() }
    );
    assert_eq!(r.window_event_operation("main", WindowEvent::FocusLost), Operation::Nothing);
    assert_eq!(
        r.window_event_operation("command", WindowEvent::CloseRequested),
        Operation::Destroy { label: "command".to_string() }
    );
    assert_eq!(
        r.window_event_operation("command", WindowEvent::FocusLost),
        Operation::Destroy { label: "command".to_string() }
    );
    assert_eq!(r.window_event_operation("editor", WindowEvent::FocusLost), Operation::Nothing);
}

#[test]
fn only_a_primary_close_is_vetoed() {
    let mut r = registry();
    r.create_or_focus("main", Role::Primary, None, SurfaceOutcome::Ready).unwrap();
    r.create_or_focus("command", Role::Transient, None, SurfaceOutcome::Ready).unwrap();
    assert!(r.vetoes("main", WindowEvent::CloseRequested));
    assert!(!r.vetoes("main", WindowEvent::FocusLost));
    assert!(!r.vetoes("command", WindowEvent::CloseRequested));
    assert!(!r.vetoes("command", WindowEvent::FocusLost));
    assert!(!r.vetoes("editor", WindowEvent::CloseRequested));
}
