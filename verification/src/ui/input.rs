//! The table of keys of the renderer's own listener.

use vstd::prelude::*;
use crate::input::keybinds::{ctrl, plain, KeyCode, KeyPress, Keybinds, CONTROL, NONE};
use crate::utils::requests::{AppRequests, UIRequests};

verus! {

/// The bindings of the renderer's own listener: it moves the cursor and
/// opens and closes the search box, and leaves the player alone.
pub open spec fn key_lookup() -> Map<KeyPress, AppRequests> {
    Map::<KeyPress, AppRequests>::empty().insert(plain(KeyCode::Char('q')), AppRequests::Quit)
        .insert(ctrl(KeyCode::Char('c')), AppRequests::Quit).insert(
        plain(KeyCode::Char('j')),
        AppRequests::UIRequests(UIRequests::Down),
    ).insert(plain(KeyCode::Char('k')), AppRequests::UIRequests(UIRequests::Up)).insert(
        plain(KeyCode::Enter),
        AppRequests::UIRequests(UIRequests::Enter),
    ).insert(plain(KeyCode::Down), AppRequests::UIRequests(UIRequests::Down)).insert(
        plain(KeyCode::Up),
        AppRequests::UIRequests(UIRequests::Up),
    ).insert(ctrl(KeyCode::Char('f')), AppRequests::UIRequests(UIRequests::ShowSearch)).insert(
        plain(KeyCode::Esc),
        AppRequests::UIRequests(UIRequests::GoBack),
    )
}

/// Builds the table of the renderer's own listener.
pub fn get_key_lookup() -> (binds: Keybinds)
    ensures
        binds@ == key_lookup(),
{
    let mut key_lookup = Keybinds::new();
    key_lookup.insert(
        KeyPress { code: KeyCode::Char('q'), modifiers: NONE },
        AppRequests::Quit,
    );
    key_lookup.insert(
        KeyPress { code: KeyCode::Char('c'), modifiers: CONTROL },
        AppRequests::Quit,
    );
    key_lookup.insert(
        KeyPress { code: KeyCode::Char('j'), modifiers: NONE },
        AppRequests::UIRequests(UIRequests::Down),
    );
    key_lookup.insert(
        KeyPress { code: KeyCode::Char('k'), modifiers: NONE },
        AppRequests::UIRequests(UIRequests::Up),
    );
    key_lookup.insert(
        KeyPress { code: KeyCode::Enter, modifiers: NONE },
        AppRequests::UIRequests(UIRequests::Enter),
    );
    key_lookup.insert(
        KeyPress { code: KeyCode::Down, modifiers: NONE },
        AppRequests::UIRequests(UIRequests::Down),
    );
    key_lookup.insert(
        KeyPress { code: KeyCode::Up, modifiers: NONE },
        AppRequests::UIRequests(UIRequests::Up),
    );
    key_lookup.insert(
        KeyPress { code: KeyCode::Char('f'), modifiers: CONTROL },
        AppRequests::UIRequests(UIRequests::ShowSearch),
    );
    key_lookup.insert(
        KeyPress { code: KeyCode::Esc, modifiers: NONE },
        AppRequests::UIRequests(UIRequests::GoBack),
    );
    return key_lookup;
}

} // verus!
