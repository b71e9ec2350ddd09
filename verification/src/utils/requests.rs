//! The commands that the workers exchange. They are plain values: sending
//! one hands over a copy and never a reference into the sender's state.

use vstd::prelude::*;

verus! {

/// A command for the renderer.
#[derive(Debug, Copy, Clone, PartialEq, Eq, Structural)]
pub enum UIRequests {
    Up,
    Down,
    Quit,
    Enter,
    GoBack,
    ShowSearch,
    /// One keystroke typed into the search box.
    SearchInput(char),
}

/// A command for the playback controller.
#[derive(Debug, Copy, Clone, PartialEq, Eq, Structural)]
pub enum PlayerRequests {
    Stop,
    Start,
    Resume,
    Pause,
    PlayPause,
    Quit,
}

/// A command as the dispatcher receives it.
#[derive(Debug, Copy, Clone, PartialEq, Eq, Structural)]
pub enum AppRequests {
    UIRequests(UIRequests),
    PlayerRequests(PlayerRequests),
    Quit,
}

} // verus!
