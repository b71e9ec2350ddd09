//! The playback controller: the one authority over the mode of the player
//! and over the session that produces the sound.
//!
//! The controller is a state machine. Its worker hands it one event at a
//! time, under exclusive access to the shared state, and performs the
//! action it answers with after letting the state go again. Joining a
//! session and opening a pipeline block, so they are actions: the
//! controller never waits while the state is held.

pub mod lifecycle;
pub mod rodio_player;
pub mod session;
pub mod symphonia_player;

use vstd::prelude::*;
use crate::library::song::Song;
use crate::state::{AppState, PlayerState};
use crate::utils::constants::PlayerStates;
use crate::utils::requests::PlayerRequests;

verus! {

/// What the worker reports to the controller.
#[derive(Debug, Clone, Copy, PartialEq, Eq, Structural)]
pub enum PlayerEvent {
    /// A command arrived on the controller's channel.
    Request(PlayerRequests),
    /// The channel has no sender left.
    Disconnected,
    /// The session thread was joined: it has exited.
    Joined,
    /// The pipeline for the track to start is open.
    Opened,
    /// The pipeline could not be opened.
    OpenFailed,
    /// The session thread was started on the open pipeline.
    Spawned,
}

/// What the worker is to do next. Each action but `Exit` ends in an event.
#[derive(Debug, PartialEq, Eq)]
pub enum PlayerAction {
    /// Wait for the next command: ends in `Request` or `Disconnected`.
    Receive,
    /// Join the session thread: ends in `Joined`.
    Join,
    /// Open a pipeline for the file at this path: ends in `Opened` or
    /// `OpenFailed`.
    Open(String),
    /// Start the session thread on the open pipeline: ends in `Spawned`.
    Spawn,
    /// Leave the loop: the controller is done.
    Exit,
}

/// Where the controller stands between two events.
#[derive(Debug, PartialEq, Eq)]
pub enum Phase {
    /// Between commands.
    Idle,
    /// `Stop`: the session is being joined.
    Stopping,
    /// `Start`: the session of the track before is being joined.
    Replacing(Song),
    /// `Start`: the pipeline for the track is being opened.
    Opening(Song),
    /// `Start`: the session thread is being started.
    Spawning,
    /// `Quit`: the session is being joined.
    Quitting,
    /// After `Quit`.
    Exited,
}

/// The controller's own state.
#[derive(Debug, PartialEq, Eq)]
pub struct Controller {
    pub phase: Phase,
    /// Whether the worker holds the handle of a session thread that was
    /// started and not joined since.
    pub session: bool,
}

/// The mode after a `PlayPause`.
pub open spec fn toggled(mode: PlayerStates) -> PlayerStates {
    match mode {
        PlayerStates::PLAYING => PlayerStates::PAUSED,
        PlayerStates::PAUSED => PlayerStates::PLAYING,
        PlayerStates::STOPPED => PlayerStates::STOPPED,
    }
}

/// What an idle controller makes of a command. `selected` is the track
/// under the cursor.
pub open spec fn request_next(
    controller: Controller,
    player: PlayerState,
    selected: Option<Song>,
    request: PlayerRequests,
) -> (Controller, PlayerState) {
    let stopped = PlayerState { curr_state: PlayerStates::STOPPED, ..player };
    match request {
        PlayerRequests::Pause => if player.curr_state == PlayerStates::PLAYING {
            (controller, PlayerState { curr_state: PlayerStates::PAUSED, ..player })
        } else {
            (controller, player)
        },
        PlayerRequests::Resume => if player.curr_state == PlayerStates::PAUSED {
            (controller, PlayerState { curr_state: PlayerStates::PLAYING, ..player })
        } else {
            (controller, player)
        },
        PlayerRequests::PlayPause => (
            controller,
            PlayerState { curr_state: toggled(player.curr_state), ..player },
        ),
        PlayerRequests::Stop => if controller.session {
            (Controller { phase: Phase::Stopping, ..controller }, stopped)
        } else {
            (controller, PlayerState { curr_song: None, ..stopped })
        },
        PlayerRequests::Start => match selected {
            None => (controller, player),
            Some(song) => if controller.session {
                (Controller { phase: Phase::Replacing(song), ..controller }, stopped)
            } else {
                (Controller { phase: Phase::Opening(song), ..controller }, stopped)
            },
        },
        PlayerRequests::Quit => if controller.session {
            (Controller { phase: Phase::Quitting, ..controller }, stopped)
        } else {
            (Controller { phase: Phase::Exited, ..controller }, stopped)
        },
    }
}

/// The controller and the player state after `event`. An event that does
/// not end the action the controller waits for changes nothing.
pub open spec fn controller_next(
    controller: Controller,
    player: PlayerState,
    selected: Option<Song>,
    event: PlayerEvent,
) -> (Controller, PlayerState) {
    match (controller.phase, event) {
        (Phase::Idle, PlayerEvent::Request(request)) => request_next(
            controller,
            player,
            selected,
            request,
        ),
        (Phase::Idle, PlayerEvent::Disconnected) => request_next(
            controller,
            player,
            selected,
            PlayerRequests::Quit,
        ),
        (Phase::Stopping, PlayerEvent::Joined) => (
            Controller { phase: Phase::Idle, session: false },
            PlayerState { curr_song: None, ..player },
        ),
        (Phase::Replacing(song), PlayerEvent::Joined) => (
            Controller { phase: Phase::Opening(song), session: false },
            player,
        ),
        (Phase::Opening(song), PlayerEvent::Opened) => (
            Controller { phase: Phase::Spawning, ..controller },
            PlayerState { curr_state: PlayerStates::PLAYING, progress: 0, curr_song: Some(song) },
        ),
        (Phase::Opening(_), PlayerEvent::OpenFailed) => (
            Controller { phase: Phase::Idle, ..controller },
            PlayerState { curr_state: PlayerStates::STOPPED, curr_song: None, ..player },
        ),
        (Phase::Spawning, PlayerEvent::Spawned) => (
            Controller { phase: Phase::Idle, session: true },
            player,
        ),
        (Phase::Quitting, PlayerEvent::Joined) => (
            Controller { phase: Phase::Exited, session: false },
            player,
        ),
        _ => (controller, player),
    }
}

impl Controller {
    /// The action that the controller waits for in its phase.
    pub open spec fn pending(self) -> PlayerAction {
        match self.phase {
            Phase::Idle => PlayerAction::Receive,
            Phase::Stopping => PlayerAction::Join,
            Phase::Replacing(_) => PlayerAction::Join,
            Phase::Opening(song) => PlayerAction::Open(song.path),
            Phase::Spawning => PlayerAction::Spawn,
            Phase::Quitting => PlayerAction::Join,
            Phase::Exited => PlayerAction::Exit,
        }
    }

    /// The phases in which a session is being joined hold its handle; the
    /// phases between the join and the start of the next session hold
    /// none, nor does a controller that has exited.
    pub open spec fn wf(self) -> bool {
        match self.phase {
            Phase::Idle => true,
            Phase::Stopping => self.session,
            Phase::Replacing(_) => self.session,
            Phase::Opening(_) => !self.session,
            Phase::Spawning => !self.session,
            Phase::Quitting => self.session,
            Phase::Exited => !self.session,
        }
    }

    /// A controller between commands that holds no session.
    pub fn new() -> (controller: Controller)
        ensures
            controller == (Controller { phase: Phase::Idle, session: false }),
            controller.wf(),
    {
        Controller { phase: Phase::Idle, session: false }
    }

    /// The action to perform in the current phase.
    pub fn action(&self) -> (action: PlayerAction)
        ensures
            action == self.pending(),
    {
        match &self.phase {
            Phase::Idle => PlayerAction::Receive,
            Phase::Stopping => PlayerAction::Join,
            Phase::Replacing(_) => PlayerAction::Join,
            Phase::Opening(song) => PlayerAction::Open(song.path.clone()),
            Phase::Spawning => PlayerAction::Spawn,
            Phase::Quitting => PlayerAction::Join,
            Phase::Exited => PlayerAction::Exit,
        }
    }

    /// Applies a command to an idle controller.
    fn request(&mut self, app_state: &mut AppState, request: PlayerRequests)
        requires
            old(self).phase is Idle,
        ensures
            (*final(self), final(app_state).player) == request_next(
                *old(self),
                old(app_state).player,
                old(app_state).ui.selected_song,
                request,
            ),
            final(app_state).library == old(app_state).library,
            final(app_state).ui == old(app_state).ui,
            final(app_state).search == old(app_state).search,
    {
        match request {
            PlayerRequests::Pause => {
                if app_state.player.curr_state == PlayerStates::PLAYING {
                    app_state.player.curr_state = PlayerStates::PAUSED;
                }
            },
            PlayerRequests::Resume => {
                if app_state.player.curr_state == PlayerStates::PAUSED {
                    app_state.player.curr_state = PlayerStates::PLAYING;
                }
            },
            PlayerRequests::PlayPause => {
                match app_state.player.curr_state {
                    PlayerStates::PLAYING => {
                        app_state.player.curr_state = PlayerStates::PAUSED;
                    },
                    PlayerStates::PAUSED => {
                        app_state.player.curr_state = PlayerStates::PLAYING;
                    },
                    PlayerStates::STOPPED => {},
                }
            },
            PlayerRequests::Stop => {
                app_state.player.curr_state = PlayerStates::STOPPED;
                if self.session {
                    self.phase = Phase::Stopping;
                } else {
                    app_state.player.curr_song = None;
                }
            },
            PlayerRequests::Start => {
                match &app_state.ui.selected_song {
                    None => {},
                    Some(selected) => {
                        let song = selected.clone();
                        app_state.player.curr_state = PlayerStates::STOPPED;
                        if self.session {
                            self.phase = Phase::Replacing(song);
                        } else {
                            self.phase = Phase::Opening(song);
                        }
                    },
                }
            },
            PlayerRequests::Quit => {
                app_state.player.curr_state = PlayerStates::STOPPED;
                if self.session {
                    self.phase = Phase::Quitting;
                } else {
                    self.phase = Phase::Exited;
                }
            },
        }
    }

    /// Takes one event and answers with the action to perform next.
    ///
    /// The caller holds the shared state for the length of this call and
    /// for no longer: the action is performed after the state is let go.
    /// Of the shared state only the player's part changes.
    pub fn step(&mut self, app_state: &mut AppState, event: PlayerEvent) -> (action: PlayerAction)
        ensures
            (*final(self), final(app_state).player) == controller_next(
                *old(self),
                old(app_state).player,
                old(app_state).ui.selected_song,
                event,
            ),
            action == final(self).pending(),
            old(self).wf() ==> final(self).wf(),
            final(app_state).library == old(app_state).library,
            final(app_state).ui == old(app_state).ui,
            final(app_state).search == old(app_state).search,
    {
        let mut phase = Phase::Idle;
        std::mem::swap(&mut self.phase, &mut phase);
        match (phase, event) {
            (Phase::Idle, PlayerEvent::Request(request)) => {
                self.request(app_state, request);
            },
            (Phase::Idle, PlayerEvent::Disconnected) => {
                self.request(app_state, PlayerRequests::Quit);
            },
            (Phase::Stopping, PlayerEvent::Joined) => {
                self.session = false;
                app_state.player.curr_song = None;
            },
            (Phase::Replacing(song), PlayerEvent::Joined) => {
                self.session = false;
                self.phase = Phase::Opening(song);
            },
            (Phase::Opening(song), PlayerEvent::Opened) => {
                app_state.player.curr_state = PlayerStates::PLAYING;
                app_state.player.progress = 0;
                app_state.player.curr_song = Some(song);
                self.phase = Phase::Spawning;
            },
            (Phase::Opening(_), PlayerEvent::OpenFailed) => {
                app_state.player.curr_state = PlayerStates::STOPPED;
                app_state.player.curr_song = None;
            },
            (Phase::Spawning, PlayerEvent::Spawned) => {
                self.session = true;
            },
            (Phase::Quitting, PlayerEvent::Joined) => {
                self.session = false;
                self.phase = Phase::Exited;
            },
            (phase, _) => {
                self.phase = phase;
            },
        }
        self.action()
    }
}

/// A playback backend: a controller that a worker drives event by event.
pub trait Player {
    /// The controller that this backend carries.
    spec fn controller(&self) -> Controller;

    /// Takes one event and answers with the action to perform next, as
    /// `Controller::step` does.
    fn listen(&mut self, app_state: &mut AppState, event: PlayerEvent) -> (action: PlayerAction)
        ensures
            (final(self).controller(), final(app_state).player) == controller_next(
                old(self).controller(),
                old(app_state).player,
                old(app_state).ui.selected_song,
                event,
            ),
            action == final(self).controller().pending(),
            old(self).controller().wf() ==> final(self).controller().wf(),
            final(app_state).library == old(app_state).library,
            final(app_state).ui == old(app_state).ui,
            final(app_state).search == old(app_state).search,
    ;
}

} // verus!
