use splay::library::song::Song;
use splay::player::rodio_player::RodioPlayer;
use splay::player::session::{player, SessionAction, SessionEvent};
use splay::player::symphonia_player::SymphoniaPlayer;
use splay::player::{Player, PlayerAction, PlayerEvent};
use splay::state::AppState;
use splay::utils::constants::PlayerStates;
use splay::utils::requests::PlayerRequests;

/// A session thread of the harness: a pipeline of so many units, and the
/// report that its next turn makes.
struct FakeSession {
    units_left: u32,
    report: SessionEvent,
}

/// The controller's worker without threads. Sessions take their turns when
/// the harness says so, so that every interleaving can be written down.
struct Harness<P: Player> {
    backend: P,
    state: AppState,
    /// The session whose handle the worker holds, and whether it still runs.
    session: Option<(FakeSession, bool)>,
    opened: Option<FakeSession>,
    units_per_track: u32,
    open_fails: bool,
    most_running: usize,
    exited: bool,
}

impl<P: Player> Harness<P> {
    fn new(backend: P, units_per_track: u32) -> Harness<P> {
        let mut state = AppState::default();
        state.ui.selected_song = Some(Song::new("T".to_string(), "/t.mp3".to_string()));
        Harness {
            backend,
            state,
            session: None,
            opened: None,
            units_per_track,
            open_fails: false,
            most_running: 0,
            exited: false,
        }
    }

    fn running(&self) -> usize {
        match &self.session {
            Some((_, true)) => 1,
            _ => 0,
        }
    }

    /// One turn of the session, if one runs.
    fn turn(&mut self) {
        if let Some((session, running)) = &mut self.session {
            if !*running {
                return;
            }
            match player(&mut self.state, session.report) {
                SessionAction::Play => {
                    if session.units_left == 0 {
                        session.report = SessionEvent::Exhausted;
                    } else {
                        session.units_left -= 1;
                        session.report = SessionEvent::Played { elapsed: 1_000 };
                    }
                }
                SessionAction::Wait { millis } => {
                    assert_eq!(millis, 250);
                    session.report = SessionEvent::Waited;
                }
                SessionAction::Finish => *running = false,
            }
        }
    }

    /// Delivers a command and performs what the controller asks for until
    /// it waits for the next command.
    fn send(&mut self, request: PlayerRequests) {
        let mut event = PlayerEvent::Request(request);
        loop {
            let action = self.backend.listen(&mut self.state, event);
            self.most_running = self.most_running.max(self.running());
            event = match action {
                PlayerAction::Receive => return,
                PlayerAction::Exit => {
                    self.exited = true;
                    return;
                }
                PlayerAction::Join => {
                    // Joining blocks until the thread has ended.
                    let mut turns = 0;
                    while self.running() == 1 {
                        self.turn();
                        turns += 1;
                        assert!(turns <= 2, "a stopped player ends its session at once");
                    }
                    self.session = None;
                    PlayerEvent::Joined
                }
                PlayerAction::Open(path) => {
                    assert_eq!(path, "/t.mp3");
                    assert_eq!(self.running(), 0);
                    if self.open_fails {
                        PlayerEvent::OpenFailed
                    } else {
                        self.opened = Some(FakeSession {
                            units_left: self.units_per_track,
                            report: SessionEvent::Started,
                        });
                        PlayerEvent::Opened
                    }
                }
                PlayerAction::Spawn => {
                    assert!(self.session.is_none());
                    self.session = Some((self.opened.take().unwrap(), true));
                    PlayerEvent::Spawned
                }
            };
        }
    }
}

#[test]
fn rapid_starts_never_run_two_sessions() {
    let mut harness = Harness::new(RodioPlayer::new(), 1_000);
    for round in 0..20 {
        harness.send(PlayerRequests::Start);
        assert_eq!(harness.running(), 1);
        assert_eq!(harness.state.player.curr_state, PlayerStates::PLAYING);
        assert_eq!(harness.state.player.progress, 0);
        for _ in 0..(round % 4) {
            harness.turn();
        }
    }
    assert_eq!(harness.most_running, 1);
}

#[test]
fn no_session_runs_after_stop() {
    let mut harness = Harness::new(SymphoniaPlayer::new(), 1_000);
    harness.send(PlayerRequests::Start);
    for _ in 0..10 {
        harness.turn();
    }
    harness.send(PlayerRequests::Stop);
    assert_eq!(harness.running(), 0);
    assert!(harness.session.is_none());
    assert_eq!(harness.state.player.curr_state, PlayerStates::STOPPED);
    assert_eq!(harness.state.player.curr_song, None);
    // A turn too many changes nothing: there is nobody to take it.
    let before = harness.state.player.progress;
    harness.turn();
    assert_eq!(harness.state.player.progress, before);
}

#[test]
fn no_session_runs_after_stop_while_paused() {
    let mut harness = Harness::new(RodioPlayer::new(), 1_000);
    harness.send(PlayerRequests::Start);
    harness.turn();
    harness.send(PlayerRequests::Pause);
    harness.turn();
    harness.turn();
    harness.send(PlayerRequests::Stop);
    assert_eq!(harness.running(), 0);
    assert_eq!(harness.state.player.curr_state, PlayerStates::STOPPED);
}

#[test]
fn quit_while_playing_leaves_no_session_behind() {
    let mut harness = Harness::new(RodioPlayer::new(), 1_000);
    harness.send(PlayerRequests::Start);
    harness.turn();
    harness.turn();
    harness.send(PlayerRequests::Quit);
    assert!(harness.exited);
    assert_eq!(harness.running(), 0);
    assert!(harness.session.is_none());
    assert_eq!(harness.state.player.curr_state, PlayerStates::STOPPED);
}

#[test]
fn a_track_that_ends_is_joined_by_the_next_command() {
    let mut harness = Harness::new(SymphoniaPlayer::new(), 3);
    harness.send(PlayerRequests::Start);
    for _ in 0..10 {
        harness.turn();
    }
    // The pipeline ran dry: the thread has ended, its handle is still held.
    assert_eq!(harness.running(), 0);
    assert!(harness.session.is_some());
    assert_eq!(harness.state.player.progress, 3_000);
    assert_eq!(harness.state.player.curr_state, PlayerStates::PLAYING);
    harness.send(PlayerRequests::Start);
    assert_eq!(harness.running(), 1);
    assert_eq!(harness.state.player.progress, 0);
    assert_eq!(harness.most_running, 1);
}

#[test]
fn a_failed_start_leaves_nothing_running() {
    let mut harness = Harness::new(RodioPlayer::new(), 1_000);
    harness.send(PlayerRequests::Start);
    harness.turn();
    harness.turn();
    harness.open_fails = true;
    harness.send(PlayerRequests::Start);
    assert_eq!(harness.running(), 0);
    assert!(harness.session.is_none());
    assert_eq!(harness.state.player.curr_state, PlayerStates::STOPPED);
    // One unit was counted while playing, and the unit in flight when the
    // session was stopped; the failed start adds nothing and resets nothing.
    assert_eq!(harness.state.player.progress, 2_000);
    harness.open_fails = false;
    harness.send(PlayerRequests::Start);
    assert_eq!(harness.running(), 1);
    assert_eq!(harness.state.player.curr_state, PlayerStates::PLAYING);
}

#[test]
fn progress_stands_still_while_paused_and_goes_on_after() {
    let mut harness = Harness::new(RodioPlayer::new(), 1_000);
    harness.send(PlayerRequests::Start);
    for _ in 0..6 {
        harness.turn();
    }
    harness.send(PlayerRequests::Pause);
    // The unit that was in flight is still counted.
    harness.turn();
    let frozen = harness.state.player.progress;
    assert_eq!(frozen, 6_000);
    for _ in 0..10 {
        harness.turn();
        assert_eq!(harness.state.player.progress, frozen);
    }
    harness.send(PlayerRequests::Resume);
    harness.turn();
    harness.turn();
    assert_eq!(harness.state.player.progress, frozen + 1_000);
}

#[test]
fn pause_and_resume_out_of_place_change_nothing() {
    let mut harness = Harness::new(RodioPlayer::new(), 1_000);
    harness.send(PlayerRequests::Pause);
    harness.send(PlayerRequests::Resume);
    assert_eq!(harness.state.player.curr_state, PlayerStates::STOPPED);
    harness.send(PlayerRequests::Start);
    harness.send(PlayerRequests::Resume);
    assert_eq!(harness.state.player.curr_state, PlayerStates::PLAYING);
    harness.send(PlayerRequests::Pause);
    harness.send(PlayerRequests::Pause);
    assert_eq!(harness.state.player.curr_state, PlayerStates::PAUSED);
    assert_eq!(harness.running(), 1);
}
