//! The operations that the content of a window may call, and the replies it
//! gets: success, or the reason of the failure as text.

use vstd::prelude::*;
use vstd::string::*;
use crate::model::RegistryView;
use crate::operation::{
    effect_views, CreationError, CreationErrorView, Effect, EffectView, Operation, OperationView,
    SurfaceOutcome, SurfaceOutcomeView,
};
use crate::registry::Registry;
use crate::text::join;
use crate::window::{EditorParams, EditorParamsView, Role, WindowHandle, EDITOR, MAIN};

verus! {

/// Start of the reply for a window that could not be created.
pub const CREATION_FAILURE_TEXT: &'static str = "Failed to create window: ";

/// Reason given when every surface token has been handed out.
pub const EXHAUSTED_TEXT: &'static str = "no surface left";

/// Reply for a request that does not say what is to be edited.
pub const MISSING_KIND_TEXT: &'static str = "missing field `kind`";

/// A request to open the editor, as it arrives from the content: nothing in
/// it has been checked yet.
#[derive(PartialEq, Eq, Debug)]
pub struct EditorRequest {
    pub kind: Option<String>,
    pub title: Option<String>,
}

/// Mathematical value of an [`EditorRequest`].
pub struct EditorRequestView {
    pub kind: Option<Seq<char>>,
    pub title: Option<Seq<char>>,
}

impl View for EditorRequest {
    type V = EditorRequestView;

    open spec fn view(&self) -> EditorRequestView {
        EditorRequestView {
            kind: match self.kind {
                Some(k) => Some(k@),
                None => None,
            },
            title: match self.title {
                Some(t) => Some(t@),
                None => None,
            },
        }
    }
}

/// Why a request from the content was turned down.
#[derive(Clone, Copy, PartialEq, Eq, Debug, Structural)]
pub enum ValidationError {
    /// The request does not say what kind of thing is to be edited.
    MissingKind,
}

/// A request is well-formed when it names a kind; the title may be absent.
pub open spec fn spec_validate(request: EditorRequestView) -> Result<
    EditorParamsView,
    ValidationError,
> {
    match request.kind {
        Some(kind) => Ok(EditorParamsView { kind, title: request.title }),
        None => Err(ValidationError::MissingKind),
    }
}

/// Why a window could not be created, in words: what the windowing system
/// said, or that no surface is left.
pub open spec fn spec_creation_reason(e: CreationErrorView) -> Seq<char> {
    match e {
        CreationErrorView::Refused { reason } => reason,
        CreationErrorView::Exhausted => EXHAUSTED_TEXT@,
    }
}

/// The reply for a window that could not be created.
pub open spec fn spec_creation_message(e: CreationErrorView) -> Seq<char> {
    CREATION_FAILURE_TEXT@ + spec_creation_reason(e)
}

/// The reply for a request that was turned down.
pub open spec fn spec_validation_message(e: ValidationError) -> Seq<char> {
    match e {
        ValidationError::MissingKind => MISSING_KIND_TEXT@,
    }
}

/// What a request to open the editor asks of the registry, once checked: a
/// transient window under the editor label, with the request as payload.
pub open spec fn spec_editor_operation(params: EditorParamsView) -> OperationView {
    OperationView::CreateOrFocus {
        label: EDITOR@,
        role: Role::Transient,
        init_payload: Some(params),
    }
}

/// What a request for the primary window asks of the registry.
pub open spec fn spec_show_main_operation() -> OperationView {
    OperationView::ShowAndFocus { label: MAIN@ }
}

/// The commands of a request to open the editor; none for a request that is
/// turned down.
pub open spec fn spec_open_editor_effects(r: RegistryView, request: EditorRequestView) -> Seq<
    EffectView,
> {
    match spec_validate(request) {
        Ok(params) => r.effects(spec_editor_operation(params)),
        Err(_) => Seq::empty(),
    }
}

/// The registry after a request to open the editor; one that is turned down
/// changes nothing.
pub open spec fn spec_open_editor(
    r: RegistryView,
    request: EditorRequestView,
    outcome: SurfaceOutcomeView,
) -> RegistryView {
    match spec_validate(request) {
        Ok(params) => r.apply(spec_editor_operation(params), outcome),
        Err(_) => r,
    }
}

/// What the caller is told of an operation: that it succeeded, or the
/// reason of its failure as text.
pub open spec fn spec_reply(result: Result<Option<WindowHandle>, CreationErrorView>) -> Result<
    (),
    Seq<char>,
> {
    match result {
        Ok(_) => Ok(()),
        Err(e) => Err(spec_creation_message(e)),
    }
}

/// The reply to a request to open the editor.
pub open spec fn spec_open_editor_reply(
    r: RegistryView,
    request: EditorRequestView,
    outcome: SurfaceOutcomeView,
) -> Result<(), Seq<char>> {
    match spec_validate(request) {
        Ok(params) => spec_reply(r.apply_result(spec_editor_operation(params), outcome)),
        Err(e) => Err(spec_validation_message(e)),
    }
}

/// Checks a request to open the editor.
pub fn validate(request: EditorRequest) -> (checked: Result<EditorParams, ValidationError>)
    ensures
        match checked {
            Ok(params) => spec_validate(request@) == Ok::<EditorParamsView, ValidationError>(
                params@,
            ),
            Err(e) => spec_validate(request@) == Err::<EditorParamsView, ValidationError>(e),
        },
{
    match request.kind {
        Some(kind) => Ok(EditorParams { kind, title: request.title }),
        None => Err(ValidationError::MissingKind),
    }
}

/// Why a window could not be created, in words, for the log.
pub fn creation_reason(e: &CreationError) -> (text: String)
    ensures
        text@ == spec_creation_reason(e@),
{
    match e {
        CreationError::Refused { reason } => reason.clone(),
        CreationError::Exhausted => String::from_str(EXHAUSTED_TEXT),
    }
}

/// The reply for a window that could not be created.
pub fn creation_message(e: &CreationError) -> (text: String)
    ensures
        text@ == spec_creation_message(e@),
{
    join(CREATION_FAILURE_TEXT, creation_reason(e).as_str())
}

/// The reply for a request that was turned down.
pub fn validation_message(e: ValidationError) -> (text: String)
    ensures
        text@ == spec_validation_message(e),
{
    match e {
        ValidationError::MissingKind => String::from_str(MISSING_KIND_TEXT),
    }
}

/// Words the result of an operation for whoever asked for it.
pub fn reply(result: Result<Option<WindowHandle>, CreationError>) -> (reply: Result<(), String>)
    ensures
        match reply {
            Ok(_) => result is Ok,
            Err(text) => result matches Err(e) && text@ == spec_creation_message(e@),
        },
{
    match result {
        Ok(_) => Ok(()),
        Err(e) => Err(creation_message(&e)),
    }
}

/// The operation that opens the editor on `params`.
pub fn editor_operation(params: EditorParams) -> (op: Operation)
    ensures
        op@ == spec_editor_operation(params@),
{
    Operation::CreateOrFocus {
        label: String::from_str(EDITOR),
        role: Role::Transient,
        init_payload: Some(params),
    }
}

/// The operation that brings the primary window back.
pub fn show_main_operation() -> (op: Operation)
    ensures
        op@ == spec_show_main_operation(),
{
    Operation::ShowAndFocus { label: String::from_str(MAIN) }
}

fn copy_text(text: &Option<String>) -> (copy: Option<String>)
    ensures
        copy is Some == text is Some,
        copy matches Some(c) ==> text matches Some(t) && c@ == t@,
{
    match text {
        Some(t) => Some(t.clone()),
        None => None,
    }
}

/// The commands that the windowing system has to carry out before
/// [`open_editor`] is called with the same request.
pub fn open_editor_effects(registry: &Registry, request: &EditorRequest) -> (effects: Vec<Effect>)
    requires
        registry.wf(),
    ensures
        effect_views(effects@) == spec_open_editor_effects(registry@, request@),
{
    let copy = EditorRequest { kind: copy_text(&request.kind), title: copy_text(&request.title) };
    assert(copy@ == request@);
    match validate(copy) {
        Ok(params) => registry.effects(&editor_operation(params)),
        Err(_) => {
            let none: Vec<Effect> = Vec::new();
            assert(effect_views(none@) =~= Seq::empty());
            none
        },
    }
}

/// Opens the editor on what `request` names.
///
/// A request that does not pass the check is turned down and no window is
/// created. Otherwise the editor window is created or focused; while an
/// editor is open on another target it is replaced, never joined by a
/// second one. `outcome` is what the windowing system answered to the
/// `Build` among [`open_editor_effects`].
pub fn open_editor(registry: &mut Registry, request: EditorRequest, outcome: SurfaceOutcome) -> (reply:
    Result<(), String>)
    requires
        old(registry).wf(),
    ensures
        final(registry).wf(),
        final(registry)@ == spec_open_editor(old(registry)@, request@, outcome@),
        match reply {
            Ok(_) => spec_open_editor_reply(old(registry)@, request@, outcome@) is Ok,
            Err(text) => spec_open_editor_reply(old(registry)@, request@, outcome@) == Err::<
                (),
                Seq<char>,
            >(text@),
        },
{
    match validate(request) {
        Ok(params) => reply(registry.apply(editor_operation(params), outcome)),
        Err(e) => Err(validation_message(e)),
    }
}

/// Brings the primary window back, for content that wants to leave a popup.
/// It cannot fail.
pub fn request_show_main(registry: &mut Registry) -> (reply: Result<(), String>)
    requires
        old(registry).wf(),
    ensures
        final(registry).wf(),
        final(registry)@ == old(registry)@.show_and_focus(MAIN@),
        reply is Ok,
{
    registry.show_and_focus(MAIN);
    Ok(())
}

} // verus!
