//! The order in which the two listeners are bound, run and given up.
//!
//! Binding, serving and waiting are done by the caller. After each such
//! step the caller reports what happened, and is told here what to do
//! next.

use vstd::prelude::*;
use crate::server::ServerManager;

verus! {

/// One of the two listeners.
#[derive(Debug, Clone, Copy, PartialEq, Eq, Structural)]
pub enum Listener {
    Main,
    App,
}

/// Where one listener stands. A listener goes from `Unbound` to `Bound`
/// to `Running`, and from there to `Stopped` or to `Failed`.
#[derive(Debug, Clone, Copy, PartialEq, Eq, Structural)]
pub enum ServerState {
    /// No socket yet.
    Unbound,
    /// The port is bound; no connection is accepted yet.
    Bound,
    /// Connections are accepted.
    Running,
    /// Shut down cleanly.
    Stopped,
    /// Failed while serving.
    Failed,
}

/// Where both listeners stand, and whether the start is over.
#[derive(Debug, Clone, Copy, PartialEq, Eq, Structural)]
pub struct Lifecycle {
    pub main: ServerState,
    pub app: ServerState,
    /// Set once the caller was told to finish; nothing happens after.
    pub finished: bool,
}

/// What the caller reports.
#[derive(Debug, Clone, Copy, PartialEq, Eq, Structural)]
pub enum Event {
    /// The listener's port was bound.
    Bound(Listener),
    /// The listener's port could not be bound.
    BindFailed(Listener),
    /// Both listeners have shut down cleanly.
    BothStopped,
    /// The listener failed while serving.
    RunFailed(Listener),
}

/// What the caller is to do next.
#[derive(Debug, Clone, Copy, PartialEq, Eq, Structural)]
pub enum Action {
    /// Bind the listener's port and report the outcome.
    Bind(Listener),
    /// Serve on both listeners at once and report how that ended.
    RunBoth,
    /// Report the joint shutdown and return success.
    FinishGracefully,
    /// Stop whatever still runs and hand on the error just reported.
    FinishWithError,
    /// The event does not belong to this state: do nothing.
    Ignore,
}

/// Both listeners unbound, nothing finished.
pub open spec fn initial() -> Lifecycle {
    Lifecycle { main: ServerState::Unbound, app: ServerState::Unbound, finished: false }
}

/// How far a listener has come: unbound, bound, running, or at an end.
pub open spec fn stage(state: ServerState) -> nat {
    match state {
        ServerState::Unbound => 0,
        ServerState::Bound => 1,
        ServerState::Running => 2,
        ServerState::Stopped => 3,
        ServerState::Failed => 3,
    }
}

/// Whether a listener may go from `before` to `after`: it stays where
/// it is, or it comes further, and to an end only from running.
pub open spec fn moves_on(before: ServerState, after: ServerState) -> bool {
    before == after || (stage(before) < stage(after) && (stage(after) == 3 ==> before
        is Running))
}

/// The states that can be reached from the initial one. The application
/// listener is touched only once the main listener is bound, the two
/// run together, and they leave the running stage together.
pub open spec fn is_coherent(state: Lifecycle) -> bool {
    match (state.main, state.app) {
        (ServerState::Unbound, ServerState::Unbound) => true,
        (ServerState::Bound, ServerState::Unbound) => true,
        (ServerState::Running, ServerState::Running) => !state.finished,
        (ServerState::Stopped, ServerState::Stopped) => state.finished,
        (ServerState::Failed, ServerState::Stopped) => state.finished,
        (ServerState::Stopped, ServerState::Failed) => state.finished,
        _ => false,
    }
}

/// The state in which the start is over, with the listeners at the
/// given stages.
pub open spec fn over(main: ServerState, app: ServerState) -> Lifecycle {
    Lifecycle { main, app, finished: true }
}

/// The state after `event` in `state`, and what to do then.
///
/// The main listener is bound first. A failed bind ends the start at
/// once, with the listener in question still unbound and before the
/// other one is tried. Once both are bound they run together. When one
/// fails while serving, the other is stopped and the error is handed
/// on. Once the start is over, and on an event out of turn, nothing
/// changes.
pub open spec fn next(state: Lifecycle, event: Event) -> (Lifecycle, Action) {
    if state.finished {
        (state, Action::Ignore)
    } else {
        match (state.main, state.app, event) {
            (ServerState::Unbound, ServerState::Unbound, Event::Bound(Listener::Main)) => (
                Lifecycle { main: ServerState::Bound, ..state },
                Action::Bind(Listener::App),
            ),
            (ServerState::Unbound, ServerState::Unbound, Event::BindFailed(Listener::Main)) => (
                over(ServerState::Unbound, ServerState::Unbound),
                Action::FinishWithError,
            ),
            (ServerState::Bound, ServerState::Unbound, Event::Bound(Listener::App)) => (
                Lifecycle { main: ServerState::Running, app: ServerState::Running, ..state },
                Action::RunBoth,
            ),
            (ServerState::Bound, ServerState::Unbound, Event::BindFailed(Listener::App)) => (
                over(ServerState::Bound, ServerState::Unbound),
                Action::FinishWithError,
            ),
            (ServerState::Running, ServerState::Running, Event::BothStopped) => (
                over(ServerState::Stopped, ServerState::Stopped),
                Action::FinishGracefully,
            ),
            (ServerState::Running, ServerState::Running, Event::RunFailed(Listener::Main)) => (
                over(ServerState::Failed, ServerState::Stopped),
                Action::FinishWithError,
            ),
            (ServerState::Running, ServerState::Running, Event::RunFailed(Listener::App)) => (
                over(ServerState::Stopped, ServerState::Failed),
                Action::FinishWithError,
            ),
            _ => (state, Action::Ignore),
        }
    }
}

/// The finished state with the listeners at the given stages.
fn finish(main: ServerState, app: ServerState) -> (state: Lifecycle)
    ensures
        state == over(main, app),
{
    Lifecycle { main, app, finished: true }
}

impl ServerManager {
    /// The state before anything is bound, and the first thing to do:
    /// bind the main listener.
    pub fn begin() -> (r: (Lifecycle, Action))
        ensures
            r.0 == initial(),
            r.1 == Action::Bind(Listener::Main),
    {
        (
            Lifecycle { main: ServerState::Unbound, app: ServerState::Unbound, finished: false },
            Action::Bind(Listener::Main),
        )
    }

    /// Takes in what the caller reports and says what to do next.
    pub fn advance(state: Lifecycle, event: Event) -> (r: (Lifecycle, Action))
        ensures
            r == next(state, event),
    {
        let unchanged = (state, Action::Ignore);
        if state.finished {
            return unchanged;
        }
        match (state.main, state.app) {
            (ServerState::Unbound, ServerState::Unbound) => match event {
                Event::Bound(Listener::Main) => (
                    Lifecycle {
                        main: ServerState::Bound,
                        app: ServerState::Unbound,
                        finished: false,
                    },
                    Action::Bind(Listener::App),
                ),
                Event::BindFailed(Listener::Main) => (
                    finish(ServerState::Unbound, ServerState::Unbound),
                    Action::FinishWithError,
                ),
                _ => unchanged,
            },
            (ServerState::Bound, ServerState::Unbound) => match event {
                Event::Bound(Listener::App) => (
                    Lifecycle {
                        main: ServerState::Running,
                        app: ServerState::Running,
                        finished: false,
                    },
                    Action::RunBoth,
                ),
                Event::BindFailed(Listener::App) => (
                    finish(ServerState::Bound, ServerState::Unbound),
                    Action::FinishWithError,
                ),
                _ => unchanged,
            },
            (ServerState::Running, ServerState::Running) => match event {
                Event::BothStopped => (
                    finish(ServerState::Stopped, ServerState::Stopped),
                    Action::FinishGracefully,
                ),
                Event::RunFailed(Listener::Main) => (
                    finish(ServerState::Failed, ServerState::Stopped),
                    Action::FinishWithError,
                ),
                Event::RunFailed(Listener::App) => (
                    finish(ServerState::Stopped, ServerState::Failed),
                    Action::FinishWithError,
                ),
                _ => unchanged,
            },
            _ => unchanged,
        }
    }
}

/// The initial state is coherent, and no event leads out of the
/// coherent states.
pub proof fn lemma_coherence_is_kept(state: Lifecycle, event: Event)
    requires
        is_coherent(state),
    ensures
        is_coherent(initial()),
        is_coherent(next(state, event).0),
{
}

/// Whatever is reported, no listener goes back: each stays where it is
/// or comes further, and stops or fails only from running.
pub proof fn lemma_listeners_never_go_back(state: Lifecycle, event: Event)
    ensures
        moves_on(state.main, next(state, event).0.main),
        moves_on(state.app, next(state, event).0.app),
{
}

/// The application listener is bound only after the main listener was:
/// a failed bind of the main listener ends the start with both
/// listeners unbound.
pub proof fn lemma_bind_fails_fast(state: Lifecycle, event: Event)
    ensures
        next(state, event).1 == Action::Bind(Listener::App) ==> state == initial() && event
            == Event::Bound(Listener::Main),
        next(state, event).1 != Action::Bind(Listener::Main),
        next(initial(), Event::BindFailed(Listener::Main)) == (
            over(ServerState::Unbound, ServerState::Unbound),
            Action::FinishWithError,
        ),
{
}

/// Both listeners are run only once both are bound, and the start ends
/// in success exactly when both were running and have stopped cleanly.
pub proof fn lemma_joint_run_and_shutdown(state: Lifecycle, event: Event)
    ensures
        next(state, event).1 == Action::RunBoth ==> state.main is Bound && event == Event::Bound(
            Listener::App,
        ),
        next(state, event).1 == Action::FinishGracefully <==> !state.finished && state.main
            is Running && state.app is Running && event is BothStopped,
{
}

/// The start is over exactly after the caller was told to finish, and
/// from then on every event is ignored and the state stays as it is.
pub proof fn lemma_finished_states_stay(state: Lifecycle, event: Event)
    ensures
        !state.finished ==> (next(state, event).0.finished <==> (next(state, event).1
            is FinishGracefully || next(state, event).1 is FinishWithError)),
        state.finished ==> next(state, event) == (state, Action::Ignore),
{
}

} // verus!
