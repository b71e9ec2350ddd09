//! The backend whose pipeline is a sink that plays on its own.

use vstd::prelude::*;
use super::session::SessionEvent;
use super::{Controller, Phase, Player, PlayerAction, PlayerEvent};
use crate::state::AppState;
use crate::utils::constants::TICK_NANOS;

verus! {

/// The controller of the sink backend.
#[derive(Debug, PartialEq, Eq)]
pub struct RodioPlayer {
    pub controller: Controller,
}

impl RodioPlayer {
    /// A backend between commands, with no session.
    pub fn new() -> (player: RodioPlayer)
        ensures
            player.controller == (Controller { phase: Phase::Idle, session: false }),
    {
        RodioPlayer { controller: Controller::new() }
    }
}

impl Player for RodioPlayer {
    open spec fn controller(&self) -> Controller {
        self.controller
    }

    fn listen(&mut self, app_state: &mut AppState, event: PlayerEvent) -> (action: PlayerAction) {
        self.controller.step(app_state, event)
    }
}

/// What a `Play` turn of a sink session comes to. The sink plays on its
/// own, so one unit is one tick of playing: a sink that still holds
/// audio is left to play for a tick, which counts as a tick of progress,
/// and a sink that has run empty has reached the end of the track.
pub fn sink_event(drained: bool) -> (event: SessionEvent)
    ensures
        event == if drained {
            SessionEvent::Exhausted
        } else {
            SessionEvent::Played { elapsed: TICK_NANOS }
        },
{
    if drained {
        SessionEvent::Exhausted
    } else {
        SessionEvent::Played { elapsed: TICK_NANOS }
    }
}

} // verus!
