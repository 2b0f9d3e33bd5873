//! Binds and actions: what a remote code is configured to do.

use crate::emulator::keyboard::Key;
use vstd::prelude::*;

verus! {

/// A remote bind's action.  Exactly one variant is populated per value;
/// in the configuration's JSON form the variants are distinguished by
/// which single recognized field the object carries.
#[derive(Debug, Clone, PartialEq)]
pub enum Action {
    Handler { handler: String },
    Shortcut { shortcut: Vec<Key> },
    Press { press: Vec<Key> },
    Open { open: String },
}

/// Mathematical form of an [`Action`], over sequences.
pub enum SpecAction {
    Handler { handler: Seq<char> },
    Shortcut { shortcut: Seq<Key> },
    Press { press: Seq<Key> },
    Open { open: Seq<char> },
}

impl View for Action {
    type V = SpecAction;

    open spec fn view(&self) -> SpecAction {
        match self {
            Action::Handler { handler } => SpecAction::Handler { handler: handler@ },
            Action::Shortcut { shortcut } => SpecAction::Shortcut { shortcut: shortcut@ },
            Action::Press { press } => SpecAction::Press { press: press@ },
            Action::Open { open } => SpecAction::Open { open: open@ },
        }
    }
}

/// A remote bind: a display name, the action to perform, and whether the
/// bind's code is remembered as "last code" eligible for sentinel replay.
#[derive(Debug, Clone, PartialEq)]
pub struct Bind {
    pub name: String,
    pub action: Action,
    pub repeat: bool,
}

/// Mathematical form of a [`Bind`].
pub struct SpecBind {
    pub name: Seq<char>,
    pub action: SpecAction,
    pub repeat: bool,
}

impl View for Bind {
    type V = SpecBind;

    open spec fn view(&self) -> SpecBind {
        SpecBind { name: self.name@, action: self.action@, repeat: self.repeat }
    }
}

/// Chooses an action variant from the recognized fields found in a
/// bind's configuration object.
///
/// The configuration schema is untagged: field presence distinguishes
/// the variants.  An object must populate exactly one recognized field;
/// an object with zero or with several populated fields is rejected
/// with `None`.
pub fn action_from_fields(
    handler: Option<String>,
    shortcut: Option<Vec<Key>>,
    press: Option<Vec<Key>>,
    open: Option<String>,
) -> (r: Option<Action>)
    ensures
        match (handler, shortcut, press, open) {
            (Some(h), None, None, None) => r == Some(Action::Handler { handler: h }),
            (None, Some(s), None, None) => r == Some(Action::Shortcut { shortcut: s }),
            (None, None, Some(p), None) => r == Some(Action::Press { press: p }),
            (None, None, None, Some(o)) => r == Some(Action::Open { open: o }),
            _ => r is None,
        },
{
    match (handler, shortcut, press, open) {
        (Some(h), None, None, None) => Some(Action::Handler { handler: h }),
        (None, Some(s), None, None) => Some(Action::Shortcut { shortcut: s }),
        (None, None, Some(p), None) => Some(Action::Press { press: p }),
        (None, None, None, Some(o)) => Some(Action::Open { open: o }),
        _ => None,
    }
}

} // verus!
