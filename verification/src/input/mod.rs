//! The input listener: what a key press asks for.

pub mod keybinds;

use vstd::prelude::*;
use keybinds::{bound_to, KeyCode, KeyPress, Keybinds};
use crate::utils::requests::{AppRequests, UIRequests};

verus! {

/// What the listener does with one key press.
#[derive(Debug, Clone, Copy, PartialEq, Eq, Structural)]
pub struct KeyOutcome {
    /// The command to send to the dispatcher, if the key asks for one.
    pub request: Option<AppRequests>,
    /// Whether the listener ends after sending.
    pub quit: bool,
}

/// The outcome of pressing `key`. While the search box is open a
/// character goes into it, whatever it is bound to and whatever modifier
/// is held. Any other key asks for what it is bound to, and the key bound
/// to `Quit` also ends the listener.
pub open spec fn key_outcome(
    bindings: Map<KeyPress, AppRequests>,
    searching: bool,
    key: KeyPress,
) -> KeyOutcome {
    if searching && key.code is Char {
        KeyOutcome {
            request: Some(AppRequests::UIRequests(UIRequests::SearchInput(key.code->Char_0))),
            quit: false,
        }
    } else {
        KeyOutcome {
            request: bound_to(bindings, key),
            quit: bound_to(bindings, key) == Some(AppRequests::Quit),
        }
    }
}

/// Decides what one key press asks for. `searching` says whether the
/// search box is open.
pub fn listen(binds: &Keybinds, searching: bool, key: KeyPress) -> (outcome: KeyOutcome)
    ensures
        outcome == key_outcome(binds@, searching, key),
{
    if searching {
        if let KeyCode::Char(ch) = key.code {
            return KeyOutcome {
                request: Some(AppRequests::UIRequests(UIRequests::SearchInput(ch))),
                quit: false,
            };
        }
    }
    match binds.get(key) {
        Some(request) => {
            let quit = match request {
                AppRequests::Quit => true,
                _ => false,
            };
            KeyOutcome { request: Some(request), quit }
        },
        None => KeyOutcome { request: None, quit: false },
    }
}

} // verus!
