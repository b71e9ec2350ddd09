//! The state that all workers share. It is one consistency domain: a
//! worker takes exclusive access, reads or writes a few fields through one
//! of the step functions of this crate, and lets go again. No step
//! function blocks, sleeps or touches a device, so nothing slow ever
//! happens while the state is held.

use vstd::prelude::*;
use crate::library::Library;
use crate::library::song::Song;
use crate::utils::constants::PlayerStates;

verus! {

/// Everything the workers share.
#[derive(Debug, PartialEq, Eq)]
pub struct AppState {
    pub library: Library,
    pub ui: UIState,
    pub player: PlayerState,
    pub search: SearchState,
}

impl Default for AppState {
    fn default() -> (state: AppState)
        ensures
            state.library.songs@ == Seq::<Song>::empty(),
            state.ui == UIState::initial(),
            state.player == PlayerState::initial(),
            state.search.searching == false,
            state.search.term@ == Seq::<char>::empty(),
    {
        AppState {
            library: Library::default(),
            ui: UIState::default(),
            player: PlayerState::default(),
            search: SearchState::default(),
        }
    }
}

/// Where the cursor of the renderer stands.
#[derive(Debug, PartialEq, Eq)]
pub struct UIState {
    pub curr_tab: u8,
    pub selected_pane: u8,
    pub selected_row: u8,
    /// The track under the cursor: the one that `Start` plays.
    pub selected_song: Option<Song>,
}

impl UIState {
    /// The cursor before anything was selected.
    pub open spec fn initial() -> UIState {
        UIState { curr_tab: 0, selected_pane: 0, selected_row: 0, selected_song: None }
    }
}

impl Default for UIState {
    fn default() -> (ui: Self)
        ensures
            ui == UIState::initial(),
    {
        Self { curr_tab: 0, selected_pane: 0, selected_row: 0, selected_song: None }
    }
}

/// What is playing, and how far it has come.
#[derive(Debug, PartialEq, Eq)]
pub struct PlayerState {
    pub curr_state: PlayerStates,
    /// Time played of the current track, in nanoseconds.
    pub progress: u64,
    pub curr_song: Option<Song>,
}

impl PlayerState {
    /// The player at the start of the process: stopped, with no track.
    pub open spec fn initial() -> PlayerState {
        PlayerState { curr_state: PlayerStates::STOPPED, progress: 0, curr_song: None }
    }
}

impl Default for PlayerState {
    fn default() -> (player: Self)
        ensures
            player == PlayerState::initial(),
    {
        Self { curr_state: PlayerStates::STOPPED, progress: 0, curr_song: None }
    }
}

/// The search box.
#[derive(Debug, PartialEq, Eq)]
pub struct SearchState {
    pub searching: bool,
    pub term: String,
}

impl Default for SearchState {
    fn default() -> (search: Self)
        ensures
            search.searching == false,
            search.term@ == Seq::<char>::empty(),
    {
        Self { searching: false, term: String::default() }
    }
}

} // verus!
