//! Which key asks for what.

use vstd::prelude::*;
use crate::utils::requests::{AppRequests, PlayerRequests, UIRequests};

verus! {

/// The keys that a binding can name. Every other key is `Other`.
#[derive(Debug, Clone, Copy, PartialEq, Eq, Structural)]
pub enum KeyCode {
    Char(char),
    Enter,
    Esc,
    Up,
    Down,
    Other,
}

/// No modifier key is held.
pub const NONE: u8 = 0;

/// The control key is held, and no other modifier.
pub const CONTROL: u8 = 2;

/// One press of a key: the key and the modifiers held with it, one bit
/// for each.
#[derive(Debug, Clone, Copy, PartialEq, Eq, Structural)]
pub struct KeyPress {
    pub code: KeyCode,
    pub modifiers: u8,
}

/// One row of the table.
#[derive(Debug, Clone, Copy, PartialEq, Eq, Structural)]
pub struct Binding {
    pub key: KeyPress,
    pub request: AppRequests,
}

/// The table of bindings. A later row for a key replaces an earlier one.
pub struct Keybinds {
    pub lookup: Vec<Binding>,
}

/// The bindings that a row of rows makes.
pub open spec fn bound(rows: Seq<Binding>) -> Map<KeyPress, AppRequests>
    decreases rows.len(),
{
    if rows.len() == 0 {
        Map::empty()
    } else {
        bound(rows.drop_last()).insert(rows.last().key, rows.last().request)
    }
}

/// The request bound to `key`, if there is one.
pub open spec fn bound_to(bindings: Map<KeyPress, AppRequests>, key: KeyPress) -> Option<
    AppRequests,
> {
    if bindings.contains_key(key) {
        Some(bindings[key])
    } else {
        None
    }
}

/// A plain key.
pub open spec fn plain(code: KeyCode) -> KeyPress {
    KeyPress { code, modifiers: NONE }
}

/// A key with the control key held.
pub open spec fn ctrl(code: KeyCode) -> KeyPress {
    KeyPress { code, modifiers: CONTROL }
}

/// The bindings that the player starts with.
pub open spec fn default_bindings() -> Map<KeyPress, AppRequests> {
    Map::<KeyPress, AppRequests>::empty().insert(plain(KeyCode::Char('q')), AppRequests::Quit)
        .insert(ctrl(KeyCode::Char('c')), AppRequests::Quit).insert(
        plain(KeyCode::Char('j')),
        AppRequests::UIRequests(UIRequests::Down),
    ).insert(plain(KeyCode::Char('k')), AppRequests::UIRequests(UIRequests::Up)).insert(
        plain(KeyCode::Down),
        AppRequests::UIRequests(UIRequests::Down),
    ).insert(plain(KeyCode::Up), AppRequests::UIRequests(UIRequests::Up)).insert(
        plain(KeyCode::Enter),
        AppRequests::PlayerRequests(PlayerRequests::Start),
    ).insert(ctrl(KeyCode::Char('f')), AppRequests::UIRequests(UIRequests::ShowSearch)).insert(
        plain(KeyCode::Esc),
        AppRequests::UIRequests(UIRequests::GoBack),
    ).insert(plain(KeyCode::Char('p')), AppRequests::PlayerRequests(PlayerRequests::Pause))
        .insert(plain(KeyCode::Char(' ')), AppRequests::PlayerRequests(PlayerRequests::Resume))
        .insert(plain(KeyCode::Char('x')), AppRequests::PlayerRequests(PlayerRequests::Stop))
}

impl View for Keybinds {
    type V = Map<KeyPress, AppRequests>;

    open spec fn view(&self) -> Map<KeyPress, AppRequests> {
        bound(self.lookup@)
    }
}

impl Keybinds {
    /// A table without bindings.
    pub fn new() -> (binds: Keybinds)
        ensures
            binds@ == Map::<KeyPress, AppRequests>::empty(),
    {
        Keybinds { lookup: Vec::new() }
    }

    /// Binds `key` to `request`, in place of what it was bound to.
    pub fn insert(&mut self, key: KeyPress, request: AppRequests)
        ensures
            final(self)@ == old(self)@.insert(key, request),
    {
        self.lookup.push(Binding { key, request });
        assert(self.lookup@.drop_last() =~= old(self).lookup@);
    }

    /// The request that `key` is bound to.
    pub fn get(&self, key: KeyPress) -> (request: Option<AppRequests>)
        ensures
            request == bound_to(self@, key),
    {
        let mut found: Option<AppRequests> = None;
        let mut i: usize = 0;
        while i < self.lookup.len()
            invariant
                i <= self.lookup.len(),
                found == bound_to(bound(self.lookup@.take(i as int)), key),
            decreases self.lookup.len() - i,
        {
            let row = self.lookup[i];
            assert(self.lookup@.take(i + 1).drop_last() =~= self.lookup@.take(i as int));
            if row.key == key {
                found = Some(row.request);
            }
            i = i + 1;
        }
        assert(self.lookup@.take(i as int) =~= self.lookup@);
        found
    }
}

impl Default for Keybinds {
    /// The table that the player starts with.
    fn default() -> (binds: Self)
        ensures
            binds@ == default_bindings(),
    {
        let mut binds = Keybinds::new();
        binds.insert(
            KeyPress { code: KeyCode::Char('q'), modifiers: NONE },
            AppRequests::Quit,
        );
        binds.insert(
            KeyPress { code: KeyCode::Char('c'), modifiers: CONTROL },
            AppRequests::Quit,
        );
        binds.insert(
            KeyPress { code: KeyCode::Char('j'), modifiers: NONE },
            AppRequests::UIRequests(UIRequests::Down),
        );
        binds.insert(
            KeyPress { code: KeyCode::Char('k'), modifiers: NONE },
            AppRequests::UIRequests(UIRequests::Up),
        );
        binds.insert(
            KeyPress { code: KeyCode::Down, modifiers: NONE },
            AppRequests::UIRequests(UIRequests::Down),
        );
        binds.insert(
            KeyPress { code: KeyCode::Up, modifiers: NONE },
            AppRequests::UIRequests(UIRequests::Up),
        );
        binds.insert(
            KeyPress { code: KeyCode::Enter, modifiers: NONE },
            AppRequests::PlayerRequests(PlayerRequests::Start),
        );
        binds.insert(
            KeyPress { code: KeyCode::Char('f'), modifiers: CONTROL },
            AppRequests::UIRequests(UIRequests::ShowSearch),
        );
        binds.insert(
            KeyPress { code: KeyCode::Esc, modifiers: NONE },
            AppRequests::UIRequests(UIRequests::GoBack),
        );
        binds.insert(
            KeyPress { code: KeyCode::Char('p'), modifiers: NONE },
            AppRequests::PlayerRequests(PlayerRequests::Pause),
        );
        binds.insert(
            KeyPress { code: KeyCode::Char(' '), modifiers: NONE },
            AppRequests::PlayerRequests(PlayerRequests::Resume),
        );
        binds.insert(
            KeyPress { code: KeyCode::Char('x'), modifiers: NONE },
            AppRequests::PlayerRequests(PlayerRequests::Stop),
        );
        binds
    }
}

} // verus!
