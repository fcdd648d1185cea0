//! The serving loop, as far as it decides anything.
//!
//! The loop waits for one of two things: the shutdown signal, or the end of
//! the server it drives. Either ends the loop, and a loop that has ended
//! takes up no work again.

use vstd::prelude::*;

verus! {

/// Whether a long-running loop is still at work.
#[derive(Clone, Copy, Debug, PartialEq, Eq, Structural)]
pub enum LoopState {
    /// The loop accepts work.
    Running,
    /// The loop has returned.
    Stopped,
}

/// What the serving loop can wake up to.
#[derive(Clone, Copy, Debug, PartialEq, Eq, Structural)]
pub enum ServeEvent {
    /// The shutdown signal fired.
    Shutdown,
    /// The server ended of its own accord.
    ServerFinished,
    /// The server ended with an error.
    ServerFailed,
}

/// What the serving loop does next.
#[derive(Clone, Copy, Debug, PartialEq, Eq, Structural)]
pub enum ServeAction {
    /// Stop accepting connections and return.
    Stop,
    /// Report the server's error, then return.
    ReportFailure,
    /// Nothing: the loop has already returned.
    Nothing,
}

/// The port reserved for HTTP, which only a privileged process may bind.
pub const PRIVILEGED_PORT: u16 = 80;

/// The port that any process may bind.
pub const UNPRIVILEGED_PORT: u16 = 8000;

/// The port to listen on. `may_bind_privileged` is what the system said of
/// the process's capability to bind ports below 1024, `None` where it could
/// not be asked; only a plain yes opens the privileged port.
pub fn listen_port(may_bind_privileged: Option<bool>) -> (port: u16)
    ensures
        port == if may_bind_privileged == Some(true) {
            PRIVILEGED_PORT
        } else {
            UNPRIVILEGED_PORT
        },
{
    match may_bind_privileged {
        Some(true) => PRIVILEGED_PORT,
        _ => UNPRIVILEGED_PORT,
    }
}

/// The serving loop's transition: any event ends a running loop, and an
/// ended loop stays ended.
pub open spec fn serve_transition(state: LoopState, event: ServeEvent) -> (LoopState, ServeAction) {
    match state {
        LoopState::Stopped => (LoopState::Stopped, ServeAction::Nothing),
        LoopState::Running => match event {
            ServeEvent::Shutdown => (LoopState::Stopped, ServeAction::Stop),
            ServeEvent::ServerFinished => (LoopState::Stopped, ServeAction::Stop),
            ServeEvent::ServerFailed => (LoopState::Stopped, ServeAction::ReportFailure),
        },
    }
}

/// One step of the serving loop.
pub fn serve_step(state: LoopState, event: ServeEvent) -> (next: (LoopState, ServeAction))
    ensures
        next == serve_transition(state, event),
{
    match state {
        LoopState::Stopped => (LoopState::Stopped, ServeAction::Nothing),
        LoopState::Running => match event {
            ServeEvent::Shutdown => (LoopState::Stopped, ServeAction::Stop),
            ServeEvent::ServerFinished => (LoopState::Stopped, ServeAction::Stop),
            ServeEvent::ServerFailed => (LoopState::Stopped, ServeAction::ReportFailure),
        },
    }
}

/// The state of the serving loop after a run of events.
pub open spec fn serve_run(state: LoopState, events: Seq<ServeEvent>) -> LoopState
    decreases events.len(),
{
    if events.len() == 0 {
        state
    } else {
        serve_transition(serve_run(state, events.drop_last()), events.last()).0
    }
}

/// Once the shutdown signal has reached the serving loop, the loop is stopped
/// for good: whatever arrives later finds it stopped and asks nothing of it.
pub proof fn lemma_serve_shutdown_is_final(state: LoopState, events: Seq<ServeEvent>, at: int)
    requires
        0 <= at < events.len(),
        events[at] == ServeEvent::Shutdown,
    ensures
        serve_run(state, events) == LoopState::Stopped,
        forall|later: int|
            at < later < events.len() ==> serve_transition(
                serve_run(state, #[trigger] events.take(later)),
                events[later],
            ) == (LoopState::Stopped, ServeAction::Nothing),
    decreases events.len(),
{
    let before = events.drop_last();
    if at < before.len() {
        lemma_serve_shutdown_is_final(state, before, at);
        assert forall|later: int| at < later < events.len() implies serve_transition(
            serve_run(state, #[trigger] events.take(later)),
            events[later],
        ) == (LoopState::Stopped, ServeAction::Nothing) by {
            if later < before.len() {
                assert(events.take(later) == before.take(later));
            } else {
                assert(events.take(later) == before);
            }
        }
    }
}

} // verus!
