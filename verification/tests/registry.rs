use devnote::chrome::{Addressing, Chrome};
use devnote::model::{Deployment, IdenticalPayload};
use devnote::operation::{CreationError, Effect, Operation, SurfaceOutcome};
use devnote::registry::Registry;
use devnote::window::{EditorParams, Role, Visibility, WindowHandle};

fn deployment(identical_payload: IdenticalPayload) -> Deployment {
    Deployment { addressing: Addressing::Query, identical_payload }
}

fn reshow() -> Registry {
    Registry::new(deployment(IdenticalPayload::Reshow))
}

fn note(title: &str) -> EditorParams {
    EditorParams { kind: "note".to_string(), title: Some(title.to_string()) }
}

fn refused(reason: &str) -> SurfaceOutcome {
    SurfaceOutcome::Refused { reason: reason.to_string() }
}

#[test]
fn new_registry_is_empty() {
    let r = reshow();
    assert_eq!(r.len(), 0);
    assert!(!r.contains("main"));
    assert!(r.get("main").is_none());
    assert!(!r.is_focused("main"));
    assert_eq!(r.deployment(), deployment(IdenticalPayload::Reshow));
}

#[test]
fn create_registers_a_visible_focused_window() {
    let mut r = reshow();
    let handle = r.create_or_focus("command", Role::Transient, None, SurfaceOutcome::Ready);
    assert_eq!(handle, Ok(WindowHandle { surface: 0 }));
    assert_eq!(r.len(), 1);
    let w = r.get("command").unwrap();
    assert_eq!(w.label, "command");
    assert_eq!(w.role, Role::Transient);
    assert_eq!(w.visibility, Visibility::Visible);
    assert_eq!(w.surface, 0);
    assert_eq!(w.init_payload, None);
    assert!(r.is_focused("command"));
}

#[test]
fn create_twice_keeps_one_window() {
    let mut r = reshow();
    let first = r.create_or_focus("command", Role::Transient, None, SurfaceOutcome::Ready);
    let second = r.create_or_focus("command", Role::Transient, None, SurfaceOutcome::Ready);
    assert_eq!(first, Ok(WindowHandle { surface: 0 }));
    assert_eq!(second, first);
    assert_eq!(r.len(), 1);
    assert_eq!(r.get("command").unwrap().visibility, Visibility::Visible);
    assert!(r.is_focused("command"));
}

#[test]
fn create_twice_for_every_label() {
    for label in ["main", "command", "editor", "", "设置", "a b"] {
        for role in [Role::Primary, Role::Transient] {
            let mut r = reshow();
            r.create_or_focus("other", Role::Transient, None, SurfaceOutcome::Ready).unwrap();
            let first = r.create_or_focus(label, role, None, SurfaceOutcome::Ready).unwrap();
            r.hide_window(label);
            let second = r.create_or_focus(label, role, None, refused("not asked")).unwrap();
            assert_eq!(first, second);
            assert_eq!(r.len(), 2);
            assert_eq!(r.get(label).unwrap().visibility, Visibility::Visible);
            assert!(r.is_focused(label));
            assert!(r.contains("other"));
        }
    }
}

#[test]
fn focus_path_ignores_the_outcome() {
    let mut r = reshow();
    r.create_or_focus("main", Role::Primary, None, SurfaceOutcome::Ready).unwrap();
    let again = r.create_or_focus("main", Role::Primary, None, refused("never asked"));
    assert_eq!(again, Ok(WindowHandle { surface: 0 }));
    assert_eq!(r.len(), 1);
}

#[test]
fn refused_surface_leaves_no_entry() {
    let mut r = reshow();
    let res = r.create_or_focus("command", Role::Transient, None, refused("out of memory"));
    assert_eq!(res, Err(CreationError::Refused { reason: "out of memory".to_string() }));
    assert_eq!(r.len(), 0);
    assert!(!r.contains("command"));
    assert!(!r.is_focused("command"));
}

#[test]
fn refused_replacement_leaves_no_entry() {
    let mut r = reshow();
    r.create_or_focus("editor", Role::Transient, Some(note("X")), SurfaceOutcome::Ready).unwrap();
    let res = r.create_or_focus("editor", Role::Transient, Some(note("Y")), refused("no"));
    assert_eq!(res, Err(CreationError::Refused { reason: "no".to_string() }));
    assert!(!r.contains("editor"));
    assert_eq!(r.len(), 0);
}

#[test]
fn exhausted_tokens_give_an_error() {
    let mut r = Registry::with_tokens_from(deployment(IdenticalPayload::Reshow), u64::MAX);
    let op = Operation::CreateOrFocus { label: "command".to_string(), role: Role::Transient, init_payload: None };
    assert_eq!(r.effects(&op), vec![]);
    let res = r.create_or_focus("command", Role::Transient, None, SurfaceOutcome::Ready);
    assert_eq!(res, Err(CreationError::Exhausted));
    assert_eq!(r.len(), 0);
}

#[test]
fn last_token_is_handed_out() {
    let mut r = Registry::with_tokens_from(deployment(IdenticalPayload::Reshow), u64::MAX - 1);
    let res = r.create_or_focus("command", Role::Transient, None, SurfaceOutcome::Ready);
    assert_eq!(res, Ok(WindowHandle { surface: u64::MAX - 1 }));
    let next = r.create_or_focus("editor", Role::Transient, None, SurfaceOutcome::Ready);
    assert_eq!(next, Err(CreationError::Exhausted));
    assert_eq!(r.len(), 1);
}

#[test]
fn different_payload_replaces_a_transient_window() {
    let mut r = reshow();
    let first = r.create_or_focus("editor", Role::Transient, Some(note("X")), SurfaceOutcome::Ready).unwrap();
    let second = r.create_or_focus("editor", Role::Transient, Some(note("Y")), SurfaceOutcome::Ready).unwrap();
    assert_ne!(first, second);
    assert_eq!(second, WindowHandle { surface: 1 });
    assert_eq!(r.len(), 1);
    assert_eq!(r.get("editor").unwrap().init_payload, Some(note("Y")));
    assert_eq!(r.get("editor").unwrap().surface, 1);
}

#[test]
fn identical_payload_reshows_when_configured() {
    let mut r = reshow();
    let first = r.create_or_focus("editor", Role::Transient, Some(note("X")), SurfaceOutcome::Ready).unwrap();
    r.hide_window("editor");
    assert!(!r.must_build("editor", &Some(note("X"))));
    let second = r.create_or_focus("editor", Role::Transient, Some(note("X")), SurfaceOutcome::Ready).unwrap();
    assert_eq!(first, second);
    assert_eq!(r.get("editor").unwrap().visibility, Visibility::Visible);
}

#[test]
fn identical_payload_recreates_when_configured() {
    let mut r = Registry::new(deployment(IdenticalPayload::Recreate));
    let first = r.create_or_focus("editor", Role::Transient, Some(note("X")), SurfaceOutcome::Ready).unwrap();
    assert!(r.must_build("editor", &Some(note("X"))));
    let second = r.create_or_focus("editor", Role::Transient, Some(note("X")), SurfaceOutcome::Ready).unwrap();
    assert_eq!(first, WindowHandle { surface: 0 });
    assert_eq!(second, WindowHandle { surface: 1 });
    assert_eq!(r.len(), 1);
}

#[test]
fn primary_is_never_replaced() {
    let mut r = Registry::new(deployment(IdenticalPayload::Recreate));
    let first = r.create_or_focus("main", Role::Primary, None, SurfaceOutcome::Ready).unwrap();
    assert!(!r.must_build("main", &Some(note("X"))));
    let second = r.create_or_focus("main", Role::Transient, Some(note("X")), SurfaceOutcome::Ready).unwrap();
    assert_eq!(first, second);
    assert_eq!(r.get("main").unwrap().role, Role::Primary);
    assert_eq!(r.get("main").unwrap().init_payload, None);
}

#[test]
fn must_build_for_absent_label() {
    let r = reshow();
    assert!(r.must_build("command", &None));
    assert!(r.must_build("editor", &Some(note("X"))));
}

#[test]
fn show_and_focus_absent_is_a_no_op() {
    let mut r = reshow();
    r.show_and_focus("main");
    assert_eq!(r.len(), 0);
    assert!(!r.is_focused("main"));
}

#[test]
fn show_and_focus_moves_the_focus() {
    let mut r = reshow();
    r.create_or_focus("main", Role::Primary, None, SurfaceOutcome::Ready).unwrap();
    r.create_or_focus("command", Role::Transient, None, SurfaceOutcome::Ready).unwrap();
    assert!(r.is_focused("command"));
    assert!(!r.is_focused("main"));
    r.show_and_focus("main");
    assert!(r.is_focused("main"));
    assert!(!r.is_focused("command"));
    assert_eq!(r.get("command").unwrap().visibility, Visibility::Visible);
}

#[test]
fn hide_keeps_the_window() {
    let mut r = reshow();
    r.create_or_focus("main", Role::Primary, None, SurfaceOutcome::Ready).unwrap();
    r.hide_window("main");
    assert!(r.contains("main"));
    assert_eq!(r.get("main").unwrap().visibility, Visibility::Hidden);
    assert_eq!(r.get("main").unwrap().surface, 0);
    assert!(!r.is_focused("main"));
    r.hide_window("main");
    assert_eq!(r.get("main").unwrap().visibility, Visibility::Hidden);
    assert_eq!(r.len(), 1);
}

#[test]
fn hide_absent_is_a_no_op() {
    let mut r = reshow();
    r.create_or_focus("main", Role::Primary, None, SurfaceOutcome::Ready).unwrap();
    r.hide_window("command");
    assert_eq!(r.len(), 1);
    assert!(r.is_focused("main"));
    assert_eq!(r.get("main").unwrap().visibility, Visibility::Visible);
}

#[test]
fn hide_leaves_the_focus_of_another_window() {
    let mut r = reshow();
    r.create_or_focus("main", Role::Primary, None, SurfaceOutcome::Ready).unwrap();
    r.create_or_focus("command", Role::Transient, None, SurfaceOutcome::Ready).unwrap();
    r.hide_window("main");
    assert!(r.is_focused("command"));
}

#[test]
fn destroy_removes_the_window() {
    let mut r = reshow();
    r.create_or_focus("main", Role::Primary, None, SurfaceOutcome::Ready).unwrap();
    r.create_or_focus("command", Role::Transient, None, SurfaceOutcome::Ready).unwrap();
    r.create_or_focus("editor", Role::Transient, None, SurfaceOutcome::Ready).unwrap();
    r.destroy("command");
    assert_eq!(r.len(), 2);
    assert!(!r.contains("command"));
    assert_eq!(r.get("main").unwrap().surface, 0);
    assert_eq!(r.get("editor").unwrap().surface, 2);
    assert!(r.is_focused("editor"));
    r.destroy("editor");
    assert!(!r.is_focused("editor"));
    assert_eq!(r.len(), 1);
}

#[test]
fn destroy_absent_is_a_no_op() {
    let mut r = reshow();
    r.create_or_focus("main", Role::Primary, None, SurfaceOutcome::Ready).unwrap();
    r.destroy("editor");
    assert_eq!(r.len(), 1);
    assert!(r.is_focused("main"));
}

#[test]
fn focus_lost_clears_only_the_holder() {
    let mut r = reshow();
    r.create_or_focus("main", Role::Primary, None, SurfaceOutcome::Ready).unwrap();
    r.focus_lost("command");
    assert!(r.is_focused("main"));
    r.focus_lost("main");
    assert!(!r.is_focused("main"));
    assert_eq!(r.get("main").unwrap().visibility, Visibility::Visible);
}

#[test]
fn labels_are_told_apart_exactly() {
    let mut r = reshow();
    r.create_or_focus("command", Role::Transient, None, SurfaceOutcome::Ready).unwrap();
    assert!(!r.contains("Command"));
    assert!(!r.contains("command "));
    assert!(!r.contains("comman"));
    r.create_or_focus("Command", Role::Transient, None, SurfaceOutcome::Ready).unwrap();
    assert_eq!(r.len(), 2);
}

fn transient_chrome(route: &str, decorations: bool, size: (u32, u32)) -> Chrome {
    Chrome {
        title: String::new(),
        route: route.to_string(),
        decorations,
        resizable: false,
        always_on_top: true,
        skip_taskbar: true,
        centered: true,
        focused: true,
        size: Some(size),
    }
}

#[test]
fn effects_of_a_first_creation() {
    let r = reshow();
    let op = Operation::CreateOrFocus { label: "command".to_string(), role: Role::Transient, init_payload: None };
    assert_eq!(
        r.effects(&op),
        vec![Effect::Build {
            label: "command".to_string(),
            chrome: transient_chrome("index.html?window=command", false, (400, 50)),
        }]
    );
}

#[test]
fn effects_of_a_creation_with_payload() {
    let r = reshow();
    let op = Operation::CreateOrFocus {
        label: "editor".to_string(),
        role: Role::Transient,
        init_payload: Some(note("X")),
    };
    assert_eq!(
        r.effects(&op),
        vec![
            Effect::Build {
                label: "editor".to_string(),
                chrome: transient_chrome("index.html?window=editor", true, (500, 300)),
            },
            Effect::Deliver {
                label: "editor".to_string(),
                channel: "init-editor".to_string(),
                payload: note("X"),
            },
        ]
    );
}

#[test]
fn effects_of_a_replacement() {
    let mut r = reshow();
    r.create_or_focus("editor", Role::Transient, Some(note("X")), SurfaceOutcome::Ready).unwrap();
    let op = Operation::CreateOrFocus {
        label: "editor".to_string(),
        role: Role::Transient,
        init_payload: Some(note("Y")),
    };
    assert_eq!(
        r.effects(&op),
        vec![
            Effect::Release { label: "editor".to_string() },
            Effect::Build {
                label: "editor".to_string(),
                chrome: transient_chrome("index.html?window=editor", true, (500, 300)),
            },
            Effect::Deliver {
                label: "editor".to_string(),
                channel: "init-editor".to_string(),
                payload: note("Y"),
            },
        ]
    );
}

#[test]
fn effects_of_a_replacement_without_tokens() {
    let mut r = Registry::with_tokens_from(deployment(IdenticalPayload::Recreate), u64::MAX - 1);
    r.create_or_focus("command", Role::Transient, None, SurfaceOutcome::Ready).unwrap();
    let op = Operation::CreateOrFocus { label: "command".to_string(), role: Role::Transient, init_payload: None };
    assert_eq!(r.effects(&op), vec![Effect::Release { label: "command".to_string() }]);
    assert_eq!(r.apply(op, SurfaceOutcome::Ready), Err(CreationError::Exhausted));
    assert!(!r.contains("command"));
}

#[test]
fn effects_of_focusing_a_live_window() {
    let mut r = reshow();
    r.create_or_focus("command", Role::Transient, None, SurfaceOutcome::Ready).unwrap();
    let op = Operation::CreateOrFocus { label: "command".to_string(), role: Role::Transient, init_payload: None };
    let show_focus =
        vec![Effect::Show { label: "command".to_string() }, Effect::Focus { label: "command".to_string() }];
    assert_eq!(r.effects(&op), show_focus);
    assert_eq!(r.effects(&Operation::ShowAndFocus { label: "command".to_string() }), show_focus);
}

#[test]
fn effects_of_operations_on_absent_windows() {
    let r = reshow();
    assert_eq!(r.effects(&Operation::ShowAndFocus { label: "main".to_string() }), vec![]);
    assert_eq!(r.effects(&Operation::Hide { label: "main".to_string() }), vec![]);
    assert_eq!(r.effects(&Operation::Destroy { label: "main".to_string() }), vec![]);
    assert_eq!(r.effects(&Operation::Nothing), vec![]);
}

#[test]
fn effects_of_hide_and_destroy() {
    let mut r = reshow();
    r.create_or_focus("main", Role::Primary, None, SurfaceOutcome::Ready).unwrap();
    assert_eq!(
        r.effects(&Operation::Hide { label: "main".to_string() }),
        vec![Effect::Hide { label: "main".to_string() }]
    );
    assert_eq!(
        r.effects(&Operation::Destroy { label: "main".to_string() }),
        vec![Effect::Release { label: "main".to_string() }]
    );
    r.hide_window("main");
    assert_eq!(r.effects(&Operation::Hide { label: "main".to_string() }), vec![]);
}

#[test]
fn effects_of_quit() {
    let r = reshow();
    assert_eq!(r.effects(&Operation::Quit { code: 0 }), vec![Effect::Exit { code: 0 }]);
    assert_eq!(r.effects(&Operation::Quit { code: -3 }), vec![Effect::Exit { code: -3 }]);
}

#[test]
fn apply_carries_out_each_operation() {
    let mut r = reshow();
    let made = r.apply(
        Operation::CreateOrFocus { label: "main".to_string(), role: Role::Primary, init_payload: None },
        SurfaceOutcome::Ready,
    );
    assert_eq!(made, Ok(Some(WindowHandle { surface: 0 })));
    assert_eq!(r.apply(Operation::Hide { label: "main".to_string() }, SurfaceOutcome::Ready), Ok(None));
    assert_eq!(r.get("main").unwrap().visibility, Visibility::Hidden);
    assert_eq!(r.apply(Operation::ShowAndFocus { label: "main".to_string() }, SurfaceOutcome::Ready), Ok(None));
    assert_eq!(r.get("main").unwrap().visibility, Visibility::Visible);
    assert!(r.is_focused("main"));
    assert_eq!(r.apply(Operation::Nothing, SurfaceOutcome::Ready), Ok(None));
    assert_eq!(r.apply(Operation::Quit { code: 0 }, SurfaceOutcome::Ready), Ok(None));
    assert_eq!(r.len(), 1);
    assert_eq!(r.apply(Operation::Destroy { label: "main".to_string() }, SurfaceOutcome::Ready), Ok(None));
    assert_eq!(r.len(), 0);
    let failed = r.apply(
        Operation::CreateOrFocus { label: "command".to_string(), role: Role::Transient, init_payload: None },
        refused("boom"),
    );
    assert_eq!(failed, Err(CreationError::Refused { reason: "boom".to_string() }));
}
