//! The backend whose pipeline decodes a file packet by packet.

use vstd::prelude::*;
use super::session::SessionEvent;
use super::{Controller, Phase, Player, PlayerAction, PlayerEvent};
use crate::state::AppState;

verus! {

/// The controller of the packet backend.
#[derive(Debug, PartialEq, Eq)]
pub struct SymphoniaPlayer {
    pub controller: Controller,
}

impl SymphoniaPlayer {
    /// A backend between commands, with no session.
    pub fn new() -> (player: SymphoniaPlayer)
        ensures
            player.controller == (Controller { phase: Phase::Idle, session: false }),
    {
        SymphoniaPlayer { controller: Controller::new() }
    }
}

impl Player for SymphoniaPlayer {
    open spec fn controller(&self) -> Controller {
        self.controller
    }

    fn listen(&mut self, app_state: &mut AppState, event: PlayerEvent) -> (action: PlayerAction) {
        self.controller.step(app_state, event)
    }
}

/// What the decoder made of one packet.
#[derive(Debug, Clone, Copy, PartialEq, Eq, Structural)]
pub enum DecodeOutcome {
    /// The packet was decoded to samples.
    Decoded,
    /// The packet is damaged. The packets after it may be sound.
    DecodeError,
    /// The decoder failed in a way that the next packet will not mend.
    Failed,
}

/// What to do with a packet once the decoder is done with it.
#[derive(Debug, Clone, Copy, PartialEq, Eq, Structural)]
pub enum PacketStep {
    /// Open the audio output for the format of the samples, then write
    /// them to it.
    OpenAndWrite,
    /// Write the samples to the audio output.
    Write,
    /// Report the packet as damaged and go on with the next one.
    Skip,
    /// Give the session up.
    Abort,
}

/// The step that follows a decoder's outcome. `output_open` says whether
/// the audio output was opened by an earlier packet.
pub open spec fn packet_step(output_open: bool, outcome: DecodeOutcome) -> PacketStep {
    match outcome {
        DecodeOutcome::Decoded => if output_open {
            PacketStep::Write
        } else {
            PacketStep::OpenAndWrite
        },
        DecodeOutcome::DecodeError => PacketStep::Skip,
        DecodeOutcome::Failed => PacketStep::Abort,
    }
}

/// What a packet comes to. `delivered` says whether the step was carried
/// out without a failure of the output, `elapsed` how many nanoseconds
/// decoding and writing took. A damaged packet counts as a unit like any
/// other; a failure of the decoder or of the output ends the session.
pub open spec fn packet_report(step: PacketStep, delivered: bool, elapsed: u64) -> SessionEvent {
    if step is Abort || !delivered {
        SessionEvent::Failed
    } else {
        SessionEvent::Played { elapsed }
    }
}

/// Whether a packet of the stream `packet_track` belongs to the track
/// that the session plays. A file can carry several streams; the packets
/// of the others are skipped.
pub fn wants_packet(track_id: u32, packet_track: u32) -> (wanted: bool)
    ensures
        wanted == (track_id == packet_track),
{
    track_id == packet_track
}

/// Decides what to do with one packet after decoding. Samples are
/// written to the audio output, which the first of them opens. A damaged
/// packet is skipped. Any other failure of the decoder ends the session.
pub fn play_packet(output_open: bool, outcome: DecodeOutcome) -> (step: PacketStep)
    ensures
        step == packet_step(output_open, outcome),
{
    match outcome {
        DecodeOutcome::Decoded => {
            if output_open {
                PacketStep::Write
            } else {
                PacketStep::OpenAndWrite
            }
        },
        DecodeOutcome::DecodeError => PacketStep::Skip,
        DecodeOutcome::Failed => PacketStep::Abort,
    }
}

/// The report of a `Play` turn of a packet session, once the step that
/// `play_packet` chose was carried out.
pub fn packet_event(step: PacketStep, delivered: bool, elapsed: u64) -> (event: SessionEvent)
    ensures
        event == packet_report(step, delivered, elapsed),
{
    match step {
        PacketStep::Abort => SessionEvent::Failed,
        _ => {
            if delivered {
                SessionEvent::Played { elapsed }
            } else {
                SessionEvent::Failed
            }
        },
    }
}

} // verus!
