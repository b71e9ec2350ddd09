//! The playback session: the thread that drives one pipeline for one
//! track, from its start to the end of the track or to its cancellation.
//!
//! A session is a loop around `player`. Each turn it takes the shared
//! state, reports what the last action came to, gets the next action,
//! lets the state go and performs the action. It looks at the mode once a
//! turn and never holds the state while it decodes, plays or sleeps.

use vstd::prelude::*;
use crate::state::{AppState, PlayerState};
use crate::utils::constants::{PlayerStates, TICK_MILLIS};

verus! {

/// What the session reports at the start of a turn.
#[derive(Debug, Clone, Copy, PartialEq, Eq, Structural)]
pub enum SessionEvent {
    /// The session has just begun: nothing was played yet.
    Started,
    /// One unit of audio was processed; it took `elapsed` nanoseconds.
    Played { elapsed: u64 },
    /// The pipeline handed out a unit that is not part of the track.
    Skipped,
    /// The session slept for one tick.
    Waited,
    /// The pipeline has no more audio.
    Exhausted,
    /// The pipeline failed for good.
    Failed,
}

/// What the session does for the rest of the turn.
#[derive(Debug, Clone, Copy, PartialEq, Eq, Structural)]
pub enum SessionAction {
    /// Request and process exactly one unit of audio. Ends in `Played`,
    /// `Skipped`, `Exhausted` or `Failed`.
    Play,
    /// Sleep for this many milliseconds. Ends in `Waited`.
    Wait { millis: u64 },
    /// Close the pipeline and end the thread.
    Finish,
}

/// What a session does on seeing `mode`: it ends when the player is
/// stopped, sleeps one tick when it is paused, and plays on otherwise.
pub open spec fn answer(mode: PlayerStates) -> SessionAction {
    match mode {
        PlayerStates::STOPPED => SessionAction::Finish,
        PlayerStates::PAUSED => SessionAction::Wait { millis: TICK_MILLIS },
        PlayerStates::PLAYING => SessionAction::Play,
    }
}

/// Progress after a unit that took `elapsed`: their sum, held at the
/// largest value that the counter takes.
pub open spec fn advanced(progress: u64, elapsed: u64) -> u64 {
    if progress + elapsed > u64::MAX {
        u64::MAX
    } else {
        (progress + elapsed) as u64
    }
}

/// The player state after one turn of the session, and the action of
/// that turn.
pub open spec fn session_next(player: PlayerState, event: SessionEvent) -> (
    PlayerState,
    SessionAction,
) {
    match event {
        SessionEvent::Played { elapsed } => (
            PlayerState { progress: advanced(player.progress, elapsed), ..player },
            answer(player.curr_state),
        ),
        SessionEvent::Exhausted => (player, SessionAction::Finish),
        SessionEvent::Failed => (
            PlayerState { curr_state: PlayerStates::STOPPED, ..player },
            SessionAction::Finish,
        ),
        _ => (player, answer(player.curr_state)),
    }
}

/// Whether `event` can be what `action` ended in.
pub open spec fn ends(action: SessionAction, event: SessionEvent) -> bool {
    match action {
        SessionAction::Play => event is Played || event is Skipped || event is Exhausted
            || event is Failed,
        SessionAction::Wait { .. } => event is Waited,
        SessionAction::Finish => false,
    }
}

/// One turn of the session.
///
/// A unit that was played adds its time to the progress. Then the mode
/// decides: a stopped player ends the session, a paused one makes it
/// sleep for a tick, a playing one makes it play the next unit. A
/// pipeline that is exhausted ends the session and leaves the mode as it
/// is; one that failed ends it and stops the player. Nothing else of the
/// shared state changes.
pub fn player(app_state: &mut AppState, event: SessionEvent) -> (action: SessionAction)
    ensures
        (final(app_state).player, action) == session_next(old(app_state).player, event),
        final(app_state).library == old(app_state).library,
        final(app_state).ui == old(app_state).ui,
        final(app_state).search == old(app_state).search,
{
    match event {
        SessionEvent::Played { elapsed } => {
            let progress = app_state.player.progress;
            if progress > u64::MAX - elapsed {
                app_state.player.progress = u64::MAX;
            } else {
                app_state.player.progress = progress + elapsed;
            }
        },
        SessionEvent::Exhausted => {
            return SessionAction::Finish;
        },
        SessionEvent::Failed => {
            app_state.player.curr_state = PlayerStates::STOPPED;
            return SessionAction::Finish;
        },
        _ => {},
    }
    match app_state.player.curr_state {
        PlayerStates::STOPPED => SessionAction::Finish,
        PlayerStates::PAUSED => SessionAction::Wait { millis: TICK_MILLIS },
        PlayerStates::PLAYING => SessionAction::Play,
    }
}

} // verus!
