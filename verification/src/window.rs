//! The window entity: its role, its visibility, the surface it owns and the
//! payload its content receives at creation.

use vstd::prelude::*;

verus! {

/// Label of the primary window.
pub const MAIN: &'static str = "main";

/// Label of the command popup.
pub const COMMAND: &'static str = "command";

/// Label of the editor popup.
pub const EDITOR: &'static str = "editor";

/// How a window lives: the primary window is only ever hidden, a transient
/// one goes away as soon as it is closed or loses focus.
#[derive(Clone, Copy, PartialEq, Eq, Debug, Structural)]
pub enum Role {
    Primary,
    Transient,
}

#[derive(Clone, Copy, PartialEq, Eq, Debug, Structural)]
pub enum Visibility {
    Hidden,
    Visible,
}

/// The editing target handed to an editor window when it is created.
#[derive(PartialEq, Eq, Debug)]
pub struct EditorParams {
    pub kind: String,
    pub title: Option<String>,
}

/// Mathematical value of an [`EditorParams`].
pub struct EditorParamsView {
    pub kind: Seq<char>,
    pub title: Option<Seq<char>>,
}

impl View for EditorParams {
    type V = EditorParamsView;

    open spec fn view(&self) -> EditorParamsView {
        EditorParamsView {
            kind: self.kind@,
            title: match self.title {
                Some(t) => Some(t@),
                None => None,
            },
        }
    }
}

impl DeepView for EditorParams {
    type V = EditorParamsView;

    open spec fn deep_view(&self) -> EditorParamsView {
        self@
    }
}

impl Clone for EditorParams {
    fn clone(&self) -> (copy: Self)
        ensures
            copy@ == self@,
    {
        let title = match &self.title {
            Some(t) => Some(t.clone()),
            None => None,
        };
        EditorParams { kind: self.kind.clone(), title }
    }
}

impl EditorParams {
    /// Whether two payloads carry the same kind and the same title.
    pub fn same_as(&self, other: &EditorParams) -> (same: bool)
        ensures
            same == (self@ == other@),
    {
        let titles = match (&self.title, &other.title) {
            (Some(a), Some(b)) => *a == *b,
            (None, None) => true,
            _ => false,
        };
        self.kind == other.kind && titles
    }
}

/// Whether two optional payloads are the same value.
pub fn same_payload(a: &Option<EditorParams>, b: &Option<EditorParams>) -> (same: bool)
    ensures
        same == (a.deep_view() == b.deep_view()),
{
    match (a, b) {
        (Some(x), Some(y)) => x.same_as(y),
        (None, None) => true,
        _ => false,
    }
}

/// Token for the surface behind a live window. The registry mints it when the
/// window is created; no two windows ever share one.
#[derive(Clone, Copy, PartialEq, Eq, Debug, Structural)]
pub struct WindowHandle {
    pub surface: u64,
}

/// One live window.
#[derive(PartialEq, Eq, Debug)]
pub struct Window {
    pub label: String,
    pub role: Role,
    pub visibility: Visibility,
    pub surface: u64,
    pub init_payload: Option<EditorParams>,
}

/// Mathematical value of a [`Window`]; the label is the key it is filed under.
pub struct WindowView {
    pub role: Role,
    pub visibility: Visibility,
    pub surface: u64,
    pub init_payload: Option<EditorParamsView>,
}

impl View for Window {
    type V = WindowView;

    open spec fn view(&self) -> WindowView {
        WindowView {
            role: self.role,
            visibility: self.visibility,
            surface: self.surface,
            init_payload: self.init_payload.deep_view(),
        }
    }
}

impl WindowView {
    /// The same window, shown.
    pub open spec fn shown(self) -> WindowView {
        WindowView { visibility: Visibility::Visible, ..self }
    }

    /// The same window, out of sight.
    pub open spec fn concealed(self) -> WindowView {
        WindowView { visibility: Visibility::Hidden, ..self }
    }
}

} // verus!
