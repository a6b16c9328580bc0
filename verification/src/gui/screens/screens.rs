//! Directions to move the selection in, and the keys and outcomes of the
//! consent screens.
use crate::terms::consent_state::UserChoice;
use crate::terms::terms_getter::Type;
use vstd::prelude::*;

verus! {

/// A direction to move the selection in.
#[derive(Debug, Clone, Copy, PartialEq, Eq, Structural)]
pub enum NavDirection {
    Up,
    Down,
    Left,
    Right,
    Next,
    Prev,
}

/// A key press on a consent screen.
#[derive(Debug, Clone, Copy, PartialEq, Eq, Structural)]
pub enum ScreenKey {
    Esc,
    Up,
    Down,
    Left,
    Right,
    Tab,
    Enter,
    Char(char),
    Other,
}

/// What a key press on a consent screen leads to.
#[derive(Debug, Clone, Copy, PartialEq, Eq, Structural)]
pub enum ScreenAction {
    /// Hand the choice to whoever waits for it, then close the screen.
    Close(UserChoice),
    /// Show the text of a document on a screen of its own.
    OpenDocument(Type),
    /// Open the web page of a document; the key counts as handled.
    OpenLink(Type),
    /// The key changed the screen, or needed nothing more.
    Handled,
    /// The screen does not use the key.
    Unhandled,
}

/// The document a focus stands on, if any.
pub open spec fn focused_document(f: crate::terms::focus::Focus) -> Option<Type> {
    match f {
        crate::terms::focus::Focus::Eula => Some(Type::EULA),
        crate::terms::focus::Focus::Tos => Some(Type::TOS),
        crate::terms::focus::Focus::Pp => Some(Type::PP),
        _ => None,
    }
}

/// The document a focus stands on, if any.
pub fn document_of(f: crate::terms::focus::Focus) -> (r: Option<Type>)
    ensures
        r == focused_document(f),
{
    match f {
        crate::terms::focus::Focus::Eula => Some(Type::EULA),
        crate::terms::focus::Focus::Tos => Some(Type::TOS),
        crate::terms::focus::Focus::Pp => Some(Type::PP),
        _ => None,
    }
}

} // verus!
