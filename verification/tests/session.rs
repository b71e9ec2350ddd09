use splay::library::song::Song;
use splay::player::rodio_player::sink_event;
use splay::player::session::{player, SessionAction, SessionEvent};
use splay::player::symphonia_player::{
    packet_event, play_packet, wants_packet, DecodeOutcome, PacketStep,
};
use splay::state::AppState;
use splay::utils::constants::{
    PlayerStates, NANOS_PER_MILLI, NANOS_PER_SEC, TICK_MILLIS, TICK_NANOS,
};

fn state_in(mode: PlayerStates, progress: u64) -> AppState {
    let mut state = AppState::default();
    state.player.curr_state = mode;
    state.player.progress = progress;
    state.player.curr_song = Some(Song::new("T".to_string(), "/t".to_string()));
    state
}

#[test]
fn the_tick_is_a_quarter_of_a_second() {
    assert_eq!(TICK_MILLIS, 250);
    assert_eq!(TICK_NANOS, TICK_MILLIS * NANOS_PER_MILLI);
    assert_eq!(NANOS_PER_SEC, 1000 * NANOS_PER_MILLI);
}

#[test]
fn a_session_that_sees_stopped_finishes() {
    for event in [
        SessionEvent::Started,
        SessionEvent::Skipped,
        SessionEvent::Waited,
        SessionEvent::Played { elapsed: 5 },
    ] {
        let mut state = state_in(PlayerStates::STOPPED, 10);
        assert_eq!(player(&mut state, event), SessionAction::Finish);
        assert_eq!(state.player.curr_state, PlayerStates::STOPPED);
    }
}

#[test]
fn a_session_that_sees_paused_sleeps_one_tick() {
    for event in [SessionEvent::Started, SessionEvent::Skipped, SessionEvent::Waited] {
        let mut state = state_in(PlayerStates::PAUSED, 10);
        assert_eq!(player(&mut state, event), SessionAction::Wait { millis: 250 });
        assert_eq!(state, state_in(PlayerStates::PAUSED, 10));
    }
}

#[test]
fn a_session_that_sees_playing_plays_one_unit() {
    for event in [SessionEvent::Started, SessionEvent::Skipped, SessionEvent::Waited] {
        let mut state = state_in(PlayerStates::PLAYING, 10);
        assert_eq!(player(&mut state, event), SessionAction::Play);
        assert_eq!(state, state_in(PlayerStates::PLAYING, 10));
    }
}

#[test]
fn a_played_unit_adds_its_time() {
    let mut state = state_in(PlayerStates::PLAYING, 1_000);
    assert_eq!(
        player(&mut state, SessionEvent::Played { elapsed: 234 }),
        SessionAction::Play
    );
    assert_eq!(state.player.progress, 1_234);
    assert_eq!(
        player(&mut state, SessionEvent::Played { elapsed: 0 }),
        SessionAction::Play
    );
    assert_eq!(state.player.progress, 1_234);
}

#[test]
fn a_unit_in_flight_is_counted_after_a_pause() {
    let mut state = state_in(PlayerStates::PAUSED, 100);
    assert_eq!(
        player(&mut state, SessionEvent::Played { elapsed: 20 }),
        SessionAction::Wait { millis: 250 }
    );
    assert_eq!(state.player.progress, 120);
    assert_eq!(state.player.curr_state, PlayerStates::PAUSED);
}

#[test]
fn progress_stops_at_the_largest_value() {
    let mut state = state_in(PlayerStates::PLAYING, u64::MAX - 5);
    player(&mut state, SessionEvent::Played { elapsed: 5 });
    assert_eq!(state.player.progress, u64::MAX);
    player(&mut state, SessionEvent::Played { elapsed: 1 });
    assert_eq!(state.player.progress, u64::MAX);
    let mut state = state_in(PlayerStates::PLAYING, 7);
    player(&mut state, SessionEvent::Played { elapsed: u64::MAX });
    assert_eq!(state.player.progress, u64::MAX);
}

#[test]
fn progress_never_runs_backwards_while_playing() {
    let mut state = state_in(PlayerStates::PLAYING, 0);
    let mut last = 0;
    for event in [
        SessionEvent::Started,
        SessionEvent::Played { elapsed: 3 },
        SessionEvent::Skipped,
        SessionEvent::Played { elapsed: 0 },
        SessionEvent::Played { elapsed: 9 },
        SessionEvent::Waited,
    ] {
        player(&mut state, event);
        assert!(state.player.progress >= last);
        last = state.player.progress;
    }
    assert_eq!(last, 12);
}

#[test]
fn an_exhausted_pipeline_ends_the_session_and_keeps_the_mode() {
    for mode in [PlayerStates::PLAYING, PlayerStates::PAUSED, PlayerStates::STOPPED] {
        let mut state = state_in(mode, 77);
        assert_eq!(player(&mut state, SessionEvent::Exhausted), SessionAction::Finish);
        assert_eq!(state, state_in(mode, 77));
    }
}

#[test]
fn a_failed_pipeline_ends_the_session_and_stops_the_player() {
    for mode in [PlayerStates::PLAYING, PlayerStates::PAUSED, PlayerStates::STOPPED] {
        let mut state = state_in(mode, 77);
        assert_eq!(player(&mut state, SessionEvent::Failed), SessionAction::Finish);
        assert_eq!(state, state_in(PlayerStates::STOPPED, 77));
    }
}

#[test]
fn the_session_touches_the_player_state_only() {
    let mut state = state_in(PlayerStates::PLAYING, 0);
    state.search.term = "x".to_string();
    state.ui.selected_song = Some(Song::new("S".to_string(), "/s".to_string()));
    state.library.songs.push(Song::new("L".to_string(), "/l".to_string()));
    let mut expected = state_in(PlayerStates::PLAYING, 4);
    expected.search.term = "x".to_string();
    expected.ui.selected_song = Some(Song::new("S".to_string(), "/s".to_string()));
    expected.library.songs.push(Song::new("L".to_string(), "/l".to_string()));
    player(&mut state, SessionEvent::Played { elapsed: 4 });
    assert_eq!(state, expected);
}

#[test]
fn a_sink_that_holds_audio_plays_for_a_tick() {
    assert_eq!(sink_event(false), SessionEvent::Played { elapsed: 250_000_000 });
}

#[test]
fn a_drained_sink_is_exhausted() {
    assert_eq!(sink_event(true), SessionEvent::Exhausted);
}

#[test]
fn packets_of_other_streams_are_not_wanted() {
    assert!(wants_packet(0, 0));
    assert!(wants_packet(7, 7));
    assert!(!wants_packet(0, 1));
    assert!(!wants_packet(u32::MAX, 0));
}

#[test]
fn the_first_samples_open_the_output() {
    assert_eq!(play_packet(false, DecodeOutcome::Decoded), PacketStep::OpenAndWrite);
    assert_eq!(play_packet(true, DecodeOutcome::Decoded), PacketStep::Write);
}

#[test]
fn a_damaged_packet_is_skipped() {
    assert_eq!(play_packet(false, DecodeOutcome::DecodeError), PacketStep::Skip);
    assert_eq!(play_packet(true, DecodeOutcome::DecodeError), PacketStep::Skip);
}

#[test]
fn a_failed_decoder_aborts() {
    assert_eq!(play_packet(false, DecodeOutcome::Failed), PacketStep::Abort);
    assert_eq!(play_packet(true, DecodeOutcome::Failed), PacketStep::Abort);
}

#[test]
fn a_packet_that_was_handled_counts_as_played() {
    for step in [PacketStep::OpenAndWrite, PacketStep::Write, PacketStep::Skip] {
        assert_eq!(packet_event(step, true, 26), SessionEvent::Played { elapsed: 26 });
    }
}

#[test]
fn a_packet_that_could_not_be_handled_fails_the_session() {
    for step in [PacketStep::OpenAndWrite, PacketStep::Write, PacketStep::Skip] {
        assert_eq!(packet_event(step, false, 26), SessionEvent::Failed);
    }
    assert_eq!(packet_event(PacketStep::Abort, true, 26), SessionEvent::Failed);
    assert_eq!(packet_event(PacketStep::Abort, false, 26), SessionEvent::Failed);
}
