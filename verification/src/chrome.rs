//! The look and placement a window is built with, decided by its role and
//! its label.

use vstd::prelude::*;
use vstd::string::*;
use crate::text::{join, same_text};
use crate::window::{Role, EDITOR};

verus! {

/// The document every window loads; a selector appended to it picks the
/// variant of the content.
pub const ENTRY_DOCUMENT: &'static str = "index.html";

/// Selector prefix when the variant travels as a query parameter.
pub const QUERY_SELECTOR: &'static str = "?window=";

/// Selector prefix when the variant travels as a route fragment.
pub const FRAGMENT_SELECTOR: &'static str = "#/";

/// Title of the primary window.
pub const APP_TITLE: &'static str = "DevNote";

/// How the content learns which window it is rendering. The two forms are
/// equivalent; one is fixed for the whole deployment.
#[derive(Clone, Copy, PartialEq, Eq, Debug, Structural)]
pub enum Addressing {
    Query,
    Fragment,
}

/// Everything the windowing system needs to know to build a surface.
#[derive(PartialEq, Eq, Debug)]
pub struct Chrome {
    pub title: String,
    pub route: String,
    pub decorations: bool,
    pub resizable: bool,
    pub always_on_top: bool,
    pub skip_taskbar: bool,
    pub centered: bool,
    pub focused: bool,
    /// Fixed inner size in logical pixels, width first; `None` leaves the
    /// size to the user.
    pub size: Option<(u32, u32)>,
}

/// Mathematical value of a [`Chrome`].
pub struct ChromeView {
    pub title: Seq<char>,
    pub route: Seq<char>,
    pub decorations: bool,
    pub resizable: bool,
    pub always_on_top: bool,
    pub skip_taskbar: bool,
    pub centered: bool,
    pub focused: bool,
    pub size: Option<(u32, u32)>,
}

impl View for Chrome {
    type V = ChromeView;

    open spec fn view(&self) -> ChromeView {
        ChromeView {
            title: self.title@,
            route: self.route@,
            decorations: self.decorations,
            resizable: self.resizable,
            always_on_top: self.always_on_top,
            skip_taskbar: self.skip_taskbar,
            centered: self.centered,
            focused: self.focused,
            size: self.size,
        }
    }
}

/// Address of the content of the window `label`.
pub open spec fn spec_route(label: Seq<char>, addressing: Addressing) -> Seq<char> {
    match addressing {
        Addressing::Query => ENTRY_DOCUMENT@ + QUERY_SELECTOR@ + label,
        Addressing::Fragment => ENTRY_DOCUMENT@ + FRAGMENT_SELECTOR@ + label,
    }
}

/// The size a transient window is pinned to: the editor is 500 by 300, every
/// other popup has the 400 by 50 of the command bar.
pub open spec fn spec_declared_size(label: Seq<char>) -> (u32, u32) {
    if label == EDITOR@ {
        (500u32, 300u32)
    } else {
        (400u32, 50u32)
    }
}

/// The chrome of a window, by role.
///
/// The primary window is an ordinary application window: decorated,
/// resizable, listed in the task switcher. A transient window is a popup:
/// untitled, of fixed size, centred, above every other window and absent from
/// the task switcher; only the editor keeps a frame.
pub open spec fn spec_chrome(label: Seq<char>, role: Role, addressing: Addressing) -> ChromeView {
    match role {
        Role::Primary => ChromeView {
            title: APP_TITLE@,
            route: spec_route(label, addressing),
            decorations: true,
            resizable: true,
            always_on_top: false,
            skip_taskbar: false,
            centered: false,
            focused: true,
            size: None,
        },
        Role::Transient => ChromeView {
            title: Seq::empty(),
            route: spec_route(label, addressing),
            decorations: label == EDITOR@,
            resizable: false,
            always_on_top: true,
            skip_taskbar: true,
            centered: true,
            focused: true,
            size: Some(spec_declared_size(label)),
        },
    }
}

/// Address of the content of the window `label`.
pub fn route(label: &str, addressing: Addressing) -> (r: String)
    ensures
        r@ == spec_route(label@, addressing),
{
    let selector = match addressing {
        Addressing::Query => QUERY_SELECTOR,
        Addressing::Fragment => FRAGMENT_SELECTOR,
    };
    join(ENTRY_DOCUMENT, selector).concat(label)
}

/// The size a transient window labelled `label` is pinned to.
pub fn declared_size(label: &str) -> (size: (u32, u32))
    ensures
        size == spec_declared_size(label@),
{
    if same_text(label, EDITOR) {
        (500, 300)
    } else {
        (400, 50)
    }
}

/// The chrome to build the window `label` with.
pub fn chrome_for(label: &str, role: Role, addressing: Addressing) -> (chrome: Chrome)
    ensures
        chrome@ == spec_chrome(label@, role, addressing),
{
    match role {
        Role::Primary => Chrome {
            title: String::from_str(APP_TITLE),
            route: route(label, addressing),
            decorations: true,
            resizable: true,
            always_on_top: false,
            skip_taskbar: false,
            centered: false,
            focused: true,
            size: None,
        },
        Role::Transient => Chrome {
            title: String::new(),
            route: route(label, addressing),
            decorations: same_text(label, EDITOR),
            resizable: false,
            always_on_top: true,
            skip_taskbar: true,
            centered: true,
            focused: true,
            size: Some(declared_size(label)),
        },
    }
}

} // verus!
