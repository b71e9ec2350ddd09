//! The controller and its sessions as one system, and what holds of every
//! course that the system can take.
//!
//! The model follows the workers of the program. The controller's worker
//! delivers the event that ends the action the controller waits for; a
//! `Spawned` event means that a new session thread runs, a `Joined` event
//! that the thread whose handle the worker held has ended. A session that
//! runs takes its turns at any time; the first one reports `Started`,
//! every later one what the action of the turn before ended in. The
//! renderer moves the cursor at any time.

use vstd::prelude::*;
use super::session::{ends, session_next, SessionAction, SessionEvent};
use super::{controller_next, Controller, Phase, PlayerAction, PlayerEvent};
use crate::library::song::Song;
use crate::state::PlayerState;
use crate::utils::constants::{PlayerStates, TICK_MILLIS};
use crate::utils::requests::PlayerRequests;

verus! {

/// The controller, the state it shares with its sessions, and the session
/// threads that run.
pub struct World {
    pub controller: Controller,
    pub player: PlayerState,
    /// The track under the cursor.
    pub selected: Option<Song>,
    /// The sessions that were started and have not ended, by number.
    pub alive: Set<nat>,
    /// What each session that runs is doing: the action of its last
    /// turn, or `None` before its first turn.
    pub awaiting: Map<nat, Option<SessionAction>>,
    /// The number of the session whose handle the worker holds.
    pub handle: Option<nat>,
    /// How many sessions were started so far.
    pub started: nat,
}

/// One thing that happens in the system.
pub enum Occurrence {
    /// The controller's worker delivers an event.
    Deliver(PlayerEvent),
    /// The session with this number takes a turn and reports `event`.
    Turn { id: nat, event: SessionEvent },
    /// The renderer puts the cursor on another track, or on none.
    Select(Option<Song>),
}

/// Whether `event` ends `action`.
pub open spec fn answers(action: PlayerAction, event: PlayerEvent) -> bool {
    match action {
        PlayerAction::Receive => event is Request || event is Disconnected,
        PlayerAction::Join => event is Joined,
        PlayerAction::Open(_) => event is Opened || event is OpenFailed,
        PlayerAction::Spawn => event is Spawned,
        PlayerAction::Exit => false,
    }
}

/// Whether `occurrence` can happen in `world`. The worker delivers only
/// what ends the pending action, and `Joined` only once the session whose
/// handle it holds has ended. Only a session that runs takes a turn, and
/// it reports what its last action ended in.
pub open spec fn possible(world: World, occurrence: Occurrence) -> bool {
    match occurrence {
        Occurrence::Deliver(event) => {
            &&& answers(world.controller.pending(), event)
            &&& event is Joined ==> (world.handle matches Some(id) ==> !world.alive.contains(id))
        },
        Occurrence::Turn { id, event } => {
            &&& world.alive.contains(id)
            &&& world.awaiting.contains_key(id)
            &&& match world.awaiting[id] {
                Some(action) => ends(action, event),
                None => event is Started,
            }
        },
        Occurrence::Select(_) => true,
    }
}

/// The world after `occurrence`.
pub open spec fn world_next(world: World, occurrence: Occurrence) -> World {
    match occurrence {
        Occurrence::Deliver(event) => {
            let (controller, player) = controller_next(
                world.controller,
                world.player,
                world.selected,
                event,
            );
            let after = World { controller, player, ..world };
            match event {
                PlayerEvent::Spawned => World {
                    alive: world.alive.insert(world.started),
                    awaiting: world.awaiting.insert(world.started, None),
                    handle: Some(world.started),
                    started: world.started + 1,
                    ..after
                },
                PlayerEvent::Joined => World { handle: None, ..after },
                _ => after,
            }
        },
        Occurrence::Turn { id, event } => {
            let (player, action) = session_next(world.player, event);
            if action is Finish {
                World {
                    player,
                    alive: world.alive.remove(id),
                    awaiting: world.awaiting.remove(id),
                    ..world
                }
            } else {
                World { player, awaiting: world.awaiting.insert(id, Some(action)), ..world }
            }
        },
        Occurrence::Select(selected) => World { selected, ..world },
    }
}

/// The world at the start of the process.
pub open spec fn initial_world() -> World {
    World {
        controller: Controller { phase: Phase::Idle, session: false },
        player: PlayerState::initial(),
        selected: None,
        alive: Set::empty(),
        awaiting: Map::empty(),
        handle: None,
        started: 0,
    }
}

/// What holds of every world that the system reaches: the worker holds a
/// handle exactly when the controller counts a session, every session
/// that runs is the one whose handle is held, the player is stopped
/// while the controller joins a session or opens a pipeline and after it
/// has exited, and it plays while the controller starts a session.
pub open spec fn consistent(world: World) -> bool {
    &&& world.controller.wf()
    &&& world.handle.is_some() == world.controller.session
    &&& forall|id: nat| world.alive.contains(id) ==> world.handle == Some(id)
    &&& !(world.controller.phase is Idle) && !(world.controller.phase is Spawning)
        ==> world.player.curr_state == PlayerStates::STOPPED
    &&& world.controller.phase is Spawning ==> world.player.curr_state
        == PlayerStates::PLAYING
}

/// The world after the occurrences of `course`, one after the other.
pub open spec fn run(world: World, course: Seq<Occurrence>) -> World
    decreases course.len(),
{
    if course.len() == 0 {
        world
    } else {
        world_next(run(world, course.drop_last()), course.last())
    }
}

/// Whether each occurrence of `course` can happen where it stands.
pub open spec fn feasible(world: World, course: Seq<Occurrence>) -> bool
    decreases course.len(),
{
    course.len() == 0 || {
        &&& feasible(world, course.drop_last())
        &&& possible(run(world, course.drop_last()), course.last())
    }
}

/// Whether the controller's worker delivers nothing in `course`.
pub open spec fn undisturbed(course: Seq<Occurrence>) -> bool {
    forall|i: int| 0 <= i < course.len() ==> !(#[trigger] course[i] is Deliver)
}

/// The world in which `request`, delivered to an idle controller in
/// `world`, has been processed in full: the request is delivered; where
/// the controller then joins its session, the sessions and the renderer
/// go on as `meanwhile` says, and `Joined` is delivered after that.
pub open spec fn processed(world: World, request: PlayerRequests, meanwhile: Seq<Occurrence>) -> World {
    let received = world_next(world, Occurrence::Deliver(PlayerEvent::Request(request)));
    if received.controller.pending() is Join {
        world_next(run(received, meanwhile), Occurrence::Deliver(PlayerEvent::Joined))
    } else {
        received
    }
}

/// Whether `processed` describes a course that can happen.
pub open spec fn can_process(world: World, request: PlayerRequests, meanwhile: Seq<Occurrence>) -> bool {
    let received = world_next(world, Occurrence::Deliver(PlayerEvent::Request(request)));
    &&& world.controller.phase is Idle
    &&& received.controller.pending() is Join ==> {
        &&& undisturbed(meanwhile)
        &&& feasible(received, meanwhile)
        &&& possible(run(received, meanwhile), Occurrence::Deliver(PlayerEvent::Joined))
    }
}

/// The world at the start of the process is consistent.
pub proof fn lemma_initial_world_consistent()
    ensures
        consistent(initial_world()),
        initial_world().alive.len() == 0,
{
}

/// Whatever happens in a consistent world leaves it consistent.
pub proof fn lemma_step_consistent(world: World, occurrence: Occurrence)
    requires
        consistent(world),
        possible(world, occurrence),
    ensures
        consistent(world_next(world, occurrence)),
{
    let after = world_next(world, occurrence);
    match occurrence {
        Occurrence::Deliver(event) => {
            assert forall|id: nat| after.alive.contains(id) implies after.handle == Some(id) by {
                if world.alive.contains(id) {
                    assert(world.handle == Some(id));
                }
            }
        },
        Occurrence::Turn { id, event } => {},
        Occurrence::Select(_) => {},
    }
}

/// In a consistent world at most one session runs.
pub proof fn lemma_consistent_one_session(world: World)
    requires
        consistent(world),
    ensures
        world.alive.finite(),
        world.alive.len() <= 1,
        !world.controller.session ==> world.alive == Set::<nat>::empty(),
{
    match world.handle {
        Some(id) => {
            if world.alive.contains(id) {
                assert(world.alive =~= set![id]);
            } else {
                assert(world.alive =~= Set::<nat>::empty());
            }
        },
        None => {
            assert(world.alive =~= Set::<nat>::empty());
        },
    }
}

/// At most one session at any time: whatever commands arrive, however
/// fast, and whatever the sessions do, no course that starts in a
/// consistent world reaches one in which two sessions run.
pub proof fn lemma_at_most_one_session(world: World, course: Seq<Occurrence>)
    requires
        consistent(world),
        feasible(world, course),
    ensures
        consistent(run(world, course)),
        run(world, course).alive.finite(),
        run(world, course).alive.len() <= 1,
    decreases course.len(),
{
    if course.len() > 0 {
        lemma_at_most_one_session(world, course.drop_last());
        lemma_step_consistent(run(world, course.drop_last()), course.last());
    }
    lemma_consistent_one_session(run(world, course));
}

/// While the worker delivers nothing, the controller stays as it is, and
/// a player that is stopped stays stopped with the track it has.
pub proof fn lemma_undisturbed(world: World, course: Seq<Occurrence>)
    requires
        undisturbed(course),
    ensures
        run(world, course).controller == world.controller,
        run(world, course).handle == world.handle,
        run(world, course).player.curr_song == world.player.curr_song,
        world.player.curr_state == PlayerStates::STOPPED ==> run(world, course).player.curr_state
            == PlayerStates::STOPPED,
    decreases course.len(),
{
    if course.len() > 0 {
        assert(!(course[course.len() - 1] is Deliver));
        assert forall|i: int| 0 <= i < course.drop_last().len() implies !(
        #[trigger] course.drop_last()[i] is Deliver) by {
            assert(course.drop_last()[i] == course[i]);
        }
        lemma_undisturbed(world, course.drop_last());
    }
}

/// Stop, then join: once a `Stop` has been processed in full, no session
/// runs. The controller is idle again and holds no session, the player is
/// stopped and has no current track.
pub proof fn lemma_stop_then_join(world: World, meanwhile: Seq<Occurrence>)
    requires
        consistent(world),
        can_process(world, PlayerRequests::Stop, meanwhile),
    ensures
        processed(world, PlayerRequests::Stop, meanwhile).alive == Set::<nat>::empty(),
        processed(world, PlayerRequests::Stop, meanwhile).controller == (Controller {
            phase: Phase::Idle,
            session: false,
        }),
        processed(world, PlayerRequests::Stop, meanwhile).player.curr_state
            == PlayerStates::STOPPED,
        processed(world, PlayerRequests::Stop, meanwhile).player.curr_song is None,
        consistent(processed(world, PlayerRequests::Stop, meanwhile)),
{
    let request = Occurrence::Deliver(PlayerEvent::Request(PlayerRequests::Stop));
    let received = world_next(world, request);
    lemma_step_consistent(world, request);
    if received.controller.pending() is Join {
        lemma_at_most_one_session(received, meanwhile);
        lemma_undisturbed(received, meanwhile);
        let joined = Occurrence::Deliver(PlayerEvent::Joined);
        lemma_step_consistent(run(received, meanwhile), joined);
    }
    lemma_consistent_one_session(processed(world, PlayerRequests::Stop, meanwhile));
}

/// Shutdown of the controller: once a `Quit` has been processed in full,
/// whatever the player was doing, no session runs, the player is stopped,
/// and the controller has exited: the one action left to its worker is to
/// leave the loop.
pub proof fn lemma_quit_joins_session(world: World, meanwhile: Seq<Occurrence>)
    requires
        consistent(world),
        can_process(world, PlayerRequests::Quit, meanwhile),
    ensures
        processed(world, PlayerRequests::Quit, meanwhile).alive == Set::<nat>::empty(),
        processed(world, PlayerRequests::Quit, meanwhile).controller == (Controller {
            phase: Phase::Exited,
            session: false,
        }),
        processed(world, PlayerRequests::Quit, meanwhile).controller.pending() is Exit,
        processed(world, PlayerRequests::Quit, meanwhile).player.curr_state
            == PlayerStates::STOPPED,
        consistent(processed(world, PlayerRequests::Quit, meanwhile)),
{
    let request = Occurrence::Deliver(PlayerEvent::Request(PlayerRequests::Quit));
    let received = world_next(world, request);
    lemma_step_consistent(world, request);
    if received.controller.pending() is Join {
        lemma_at_most_one_session(received, meanwhile);
        lemma_undisturbed(received, meanwhile);
        let joined = Occurrence::Deliver(PlayerEvent::Joined);
        lemma_step_consistent(run(received, meanwhile), joined);
    }
    lemma_consistent_one_session(processed(world, PlayerRequests::Quit, meanwhile));
}

/// A replacing `Start`: when the controller opens the pipeline for the
/// new track, the session of the track before has been joined. No session
/// runs from then until the new one is started.
pub proof fn lemma_start_joins_first(world: World, meanwhile: Seq<Occurrence>)
    requires
        consistent(world),
        world.selected is Some,
        can_process(world, PlayerRequests::Start, meanwhile),
    ensures
        processed(world, PlayerRequests::Start, meanwhile).alive == Set::<nat>::empty(),
        processed(world, PlayerRequests::Start, meanwhile).controller == (Controller {
            phase: Phase::Opening(world.selected->0),
            session: false,
        }),
        processed(world, PlayerRequests::Start, meanwhile).player.curr_state
            == PlayerStates::STOPPED,
        consistent(processed(world, PlayerRequests::Start, meanwhile)),
{
    let request = Occurrence::Deliver(PlayerEvent::Request(PlayerRequests::Start));
    let received = world_next(world, request);
    lemma_step_consistent(world, request);
    if received.controller.pending() is Join {
        lemma_at_most_one_session(received, meanwhile);
        lemma_undisturbed(received, meanwhile);
        let joined = Occurrence::Deliver(PlayerEvent::Joined);
        lemma_step_consistent(run(received, meanwhile), joined);
    }
    lemma_consistent_one_session(processed(world, PlayerRequests::Start, meanwhile));
}

/// A `Start` that succeeds: once the pipeline is open and the session
/// thread is started, exactly one session runs, the newest, and the
/// player plays the track that was selected when the command arrived,
/// from the beginning.
pub proof fn lemma_start_plays_from_zero(world: World, meanwhile: Seq<Occurrence>)
    requires
        consistent(world),
        world.selected is Some,
        can_process(world, PlayerRequests::Start, meanwhile),
    ensures
        ({
            let opening = processed(world, PlayerRequests::Start, meanwhile);
            let opened = world_next(opening, Occurrence::Deliver(PlayerEvent::Opened));
            let spawned = world_next(opened, Occurrence::Deliver(PlayerEvent::Spawned));
            &&& possible(opening, Occurrence::Deliver(PlayerEvent::Opened))
            &&& possible(opened, Occurrence::Deliver(PlayerEvent::Spawned))
            &&& opened.alive == Set::<nat>::empty()
            &&& spawned.alive == set![opening.started]
            &&& spawned.controller == (Controller { phase: Phase::Idle, session: true })
            &&& spawned.player == (PlayerState {
                curr_state: PlayerStates::PLAYING,
                progress: 0,
                curr_song: world.selected,
            })
            &&& consistent(spawned)
        }),
{
    lemma_start_joins_first(world, meanwhile);
    let opening = processed(world, PlayerRequests::Start, meanwhile);
    let opened = world_next(opening, Occurrence::Deliver(PlayerEvent::Opened));
    let spawned = world_next(opened, Occurrence::Deliver(PlayerEvent::Spawned));
    lemma_step_consistent(opening, Occurrence::Deliver(PlayerEvent::Opened));
    lemma_step_consistent(opened, Occurrence::Deliver(PlayerEvent::Spawned));
    assert(spawned.alive =~= set![opening.started]);
}

/// A `Start` that fails: when the pipeline cannot be opened, no session
/// runs, the controller is idle and holds none, and the player is
/// stopped, with no current track and with the progress it had.
pub proof fn lemma_failed_start_stays_stopped(world: World, meanwhile: Seq<Occurrence>)
    requires
        consistent(world),
        world.selected is Some,
        can_process(world, PlayerRequests::Start, meanwhile),
    ensures
        ({
            let opening = processed(world, PlayerRequests::Start, meanwhile);
            let failed = world_next(opening, Occurrence::Deliver(PlayerEvent::OpenFailed));
            &&& possible(opening, Occurrence::Deliver(PlayerEvent::OpenFailed))
            &&& failed.alive == Set::<nat>::empty()
            &&& failed.controller == (Controller { phase: Phase::Idle, session: false })
            &&& failed.player == (PlayerState {
                curr_state: PlayerStates::STOPPED,
                progress: opening.player.progress,
                curr_song: None,
            })
            &&& consistent(failed)
        }),
{
    lemma_start_joins_first(world, meanwhile);
    let opening = processed(world, PlayerRequests::Start, meanwhile);
    lemma_step_consistent(opening, Occurrence::Deliver(PlayerEvent::OpenFailed));
}

/// Legal transitions only: `Pause` changes nothing unless the player is
/// playing, `Resume` changes nothing unless it is paused, and `PlayPause`
/// changes nothing when it is stopped. This holds in every phase of the
/// controller.
pub proof fn lemma_pause_resume_legality(
    controller: Controller,
    player: PlayerState,
    selected: Option<Song>,
)
    ensures
        player.curr_state != PlayerStates::PLAYING ==> controller_next(
            controller,
            player,
            selected,
            PlayerEvent::Request(PlayerRequests::Pause),
        ) == (controller, player),
        player.curr_state != PlayerStates::PAUSED ==> controller_next(
            controller,
            player,
            selected,
            PlayerEvent::Request(PlayerRequests::Resume),
        ) == (controller, player),
        player.curr_state == PlayerStates::STOPPED ==> controller_next(
            controller,
            player,
            selected,
            PlayerEvent::Request(PlayerRequests::PlayPause),
        ) == (controller, player),
{
}

/// Whether `occurrence` is a session's report of a unit that it played
/// and whose time moves the progress on.
pub open spec fn reports_unit(world: World, occurrence: Occurrence) -> bool {
    &&& occurrence matches Occurrence::Turn { event: SessionEvent::Played { elapsed }, .. }
    &&& elapsed > 0
    &&& world.player.progress < u64::MAX
}

/// Progress never runs backwards while the player plays, and stands
/// still while it does not: no occurrence between two worlds in which the
/// player plays lowers the progress, and an occurrence after which the
/// player is paused or stopped leaves the progress as it was. The one
/// exception is a session's report of a unit that it played: its time is
/// added whatever the mode has become since the unit was begun.
pub proof fn lemma_progress(world: World, occurrence: Occurrence)
    requires
        consistent(world),
        possible(world, occurrence),
    ensures
        world.player.curr_state == PlayerStates::PLAYING && world_next(
            world,
            occurrence,
        ).player.curr_state == PlayerStates::PLAYING ==> world_next(
            world,
            occurrence,
        ).player.progress >= world.player.progress,
        world_next(world, occurrence).player.curr_state != PlayerStates::PLAYING
            && !reports_unit(world, occurrence) ==> world_next(
            world,
            occurrence,
        ).player.progress == world.player.progress,
        world_next(world, occurrence).player.curr_state != PlayerStates::PLAYING
            && reports_unit(world, occurrence) ==> world_next(
            world,
            occurrence,
        ).player.progress > world.player.progress,
{
}

/// Whether every session that runs has seen that the player does not
/// play: it sleeps through a tick.
pub open spec fn sessions_wait(world: World) -> bool {
    forall|id: nat|
        world.alive.contains(id) ==> world.awaiting.contains_key(id) && (
        #[trigger] world.awaiting[id] matches Some(SessionAction::Wait { .. }))
}

/// Progress stands still while the player is paused or stopped: once
/// every session that runs has seen that the player does not play,
/// nothing that can happen changes the progress, until the player plays
/// again. Until then a session can only come back from its sleep, which
/// changes nothing of the player, and go to sleep for another tick or,
/// if the player was stopped, end.
pub proof fn lemma_progress_frozen(world: World, occurrence: Occurrence)
    requires
        consistent(world),
        possible(world, occurrence),
        world.player.curr_state != PlayerStates::PLAYING,
        sessions_wait(world),
    ensures
        world_next(world, occurrence).player.curr_state != PlayerStates::PLAYING ==> {
            &&& world_next(world, occurrence).player.progress == world.player.progress
            &&& sessions_wait(world_next(world, occurrence))
        },
        occurrence matches Occurrence::Turn { id, event } ==> {
            &&& event is Waited
            &&& world_next(world, occurrence).player == world.player
            &&& world.player.curr_state == PlayerStates::PAUSED ==> world_next(
                world,
                occurrence,
            ).awaiting[id] == Some(SessionAction::Wait { millis: TICK_MILLIS })
        },
{
    let next = world_next(world, occurrence);
    if next.player.curr_state != PlayerStates::PLAYING {
        assert forall|id: nat| next.alive.contains(id) implies next.awaiting.contains_key(id) && (
        #[trigger] next.awaiting[id] matches Some(SessionAction::Wait { .. })) by {
            if world.alive.contains(id) {
                assert(world.awaiting[id] matches Some(SessionAction::Wait { .. }));
            }
        }
    }
}

/// A session that finds the player paused sleeps for one tick: it neither
/// plays nor ends, the tick is longer than nothing, and a session that
/// comes back from its sleep changes nothing of the player.
pub proof fn lemma_paused_session_waits(player: PlayerState, event: SessionEvent)
    requires
        player.curr_state == PlayerStates::PAUSED,
        !(event is Exhausted) && !(event is Failed),
    ensures
        session_next(player, event).1 == (SessionAction::Wait { millis: TICK_MILLIS }),
        TICK_MILLIS > 0,
        event is Waited ==> session_next(player, event).0 == player,
{
}

/// Whether the turns of a session, taken at the times `times`, lie at
/// least `tick` apart: what holds of a session that sleeps `tick` between
/// one turn and the next.
pub open spec fn spaced(times: Seq<int>, tick: int) -> bool {
    forall|i: int| 0 <= i < times.len() - 1 ==> #[trigger] times[i + 1] - times[i] >= tick
}

/// A paused session does not spin: of turns that lie a tick apart, those
/// from the `first` to the `last` take at least as many ticks as there
/// are turns after the first. So a window of time holds at most one turn
/// per tick, and one more.
pub proof fn lemma_paused_turns_bounded(times: Seq<int>, tick: int, first: int, last: int)
    requires
        spaced(times, tick),
        0 <= first <= last < times.len(),
    ensures
        (last - first) * tick <= times[last] - times[first],
    decreases last - first,
{
    if first < last {
        lemma_paused_turns_bounded(times, tick, first, last - 1);
        assert(times[(last - 1) + 1] - times[last - 1] >= tick);
        assert((last - first) * tick == (last - 1 - first) * tick + tick) by (nonlinear_arith);
    } else {
        assert((last - first) * tick == 0) by (nonlinear_arith)
            requires
                last == first,
        ;
    }
}

} // verus!
