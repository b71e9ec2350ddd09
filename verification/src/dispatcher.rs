//! The dispatcher: the one reader of the commands that come in. It hands
//! each command on to the worker it is for, and on `Quit` it winds the
//! process down.

use vstd::prelude::*;
use crate::utils::requests::{AppRequests, PlayerRequests, UIRequests};

verus! {

/// The status with which the process ends after `Quit`.
pub const EXIT_CODE: i32 = 0;

/// What the dispatcher does with one command.
#[derive(Debug, Clone, Copy, PartialEq, Eq, Structural)]
pub struct Routing {
    /// The command to send to the renderer.
    pub ui: Option<UIRequests>,
    /// The command to send to the playback controller.
    pub player: Option<PlayerRequests>,
    /// Whether to shut down: after sending, join every worker, and end
    /// the process with `EXIT_CODE` once they have all ended.
    pub shutdown: bool,
}

/// The routing of a command. A command for a worker goes to that worker
/// as it is. `Quit` goes to every worker, as the worker's own `Quit`, and
/// starts the shutdown.
pub open spec fn routing(request: AppRequests) -> Routing {
    match request {
        AppRequests::Quit => Routing {
            ui: Some(UIRequests::Quit),
            player: Some(PlayerRequests::Quit),
            shutdown: true,
        },
        AppRequests::UIRequests(request) => Routing {
            ui: Some(request),
            player: None,
            shutdown: false,
        },
        AppRequests::PlayerRequests(request) => Routing {
            ui: None,
            player: Some(request),
            shutdown: false,
        },
    }
}

/// Routes one command.
pub fn route(request: AppRequests) -> (plan: Routing)
    ensures
        plan == routing(request),
{
    match request {
        AppRequests::Quit => Routing {
            ui: Some(UIRequests::Quit),
            player: Some(PlayerRequests::Quit),
            shutdown: true,
        },
        AppRequests::UIRequests(request) => Routing {
            ui: Some(request),
            player: None,
            shutdown: false,
        },
        AppRequests::PlayerRequests(request) => Routing {
            ui: None,
            player: Some(request),
            shutdown: false,
        },
    }
}

/// Shutdown reaches every worker: the dispatcher shuts down on `Quit`
/// and on nothing else, and when it does, the renderer and the playback
/// controller each get their own `Quit`.
pub proof fn lemma_quit_reaches_every_worker(request: AppRequests)
    ensures
        routing(request).shutdown <==> request is Quit,
        routing(request).shutdown ==> routing(request).ui == Some(UIRequests::Quit)
            && routing(request).player == Some(PlayerRequests::Quit),
{
}

} // verus!
