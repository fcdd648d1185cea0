//! The configuration watcher, as a state machine.
//!
//! The watcher sleeps until the notification source or the shutdown signal
//! wakes it. A change to the file's content starts a reload, after which the
//! watcher watches again; every other notification is logged and dropped; the
//! shutdown signal stops it.

use vstd::prelude::*;

verus! {

/// The kinds of modification that the notification source tells apart.
#[derive(Clone, Copy, Debug, PartialEq, Eq, Structural)]
pub enum ModifyKind {
    /// A modification of a kind that is not known.
    Any,
    /// The content changed.
    Data,
    /// Only metadata changed: permissions, times, ownership.
    Metadata,
    /// The file was renamed.
    Name,
    /// A modification that fits no other kind.
    Other,
}

/// The kinds of file event that the notification source tells apart.
#[derive(Clone, Copy, Debug, PartialEq, Eq, Structural)]
pub enum FileEventKind {
    /// An event of a kind that is not known.
    Any,
    /// The file was opened, read or closed.
    Access,
    /// A file was created.
    Create,
    /// The file was modified.
    Modify(ModifyKind),
    /// A file was removed.
    Remove,
    /// An event that fits no other kind.
    Other,
}

/// Where the watcher stands.
#[derive(Clone, Copy, Debug, PartialEq, Eq, Structural)]
pub enum WatcherState {
    /// Waiting for a notification.
    Watching,
    /// A reload is under way.
    Reloading,
    /// The watcher has returned.
    Stopped,
}

/// What the watcher can wake up to.
#[derive(Clone, Copy, Debug, PartialEq, Eq, Structural)]
pub enum WatcherEvent {
    /// The notification source reported a file event.
    File(FileEventKind),
    /// The notification source reported an error.
    SourceError,
    /// The notification source is gone; nothing more will come from it.
    SourceClosed,
    /// The reload that was under way has ended, well or badly.
    ReloadFinished,
    /// The shutdown signal fired.
    Shutdown,
}

/// What the watcher does next.
#[derive(Clone, Copy, Debug, PartialEq, Eq, Structural)]
pub enum WatcherAction {
    /// Load the configuration and end the reload on the table slot.
    Reload,
    /// Log the notification and drop it.
    LogIgnored,
    /// Go back to waiting.
    Resume,
    /// Return.
    Stop,
    /// Nothing: the watcher has already returned.
    Nothing,
}

/// Whether a file event calls for a reload: it does when the file was
/// modified in any way but in its metadata alone.
pub open spec fn triggers_reload(kind: FileEventKind) -> bool {
    kind matches FileEventKind::Modify(how) && how != ModifyKind::Metadata
}

/// The watcher's transition.
pub open spec fn watcher_transition(state: WatcherState, event: WatcherEvent) -> (
    WatcherState,
    WatcherAction,
) {
    match state {
        WatcherState::Stopped => (WatcherState::Stopped, WatcherAction::Nothing),
        WatcherState::Watching => match event {
            WatcherEvent::Shutdown => (WatcherState::Stopped, WatcherAction::Stop),
            WatcherEvent::SourceClosed => (WatcherState::Stopped, WatcherAction::Stop),
            WatcherEvent::File(kind) => if triggers_reload(kind) {
                (WatcherState::Reloading, WatcherAction::Reload)
            } else {
                (WatcherState::Watching, WatcherAction::LogIgnored)
            },
            WatcherEvent::SourceError => (WatcherState::Watching, WatcherAction::LogIgnored),
            WatcherEvent::ReloadFinished => (WatcherState::Watching, WatcherAction::LogIgnored),
        },
        WatcherState::Reloading => match event {
            WatcherEvent::Shutdown => (WatcherState::Stopped, WatcherAction::Stop),
            WatcherEvent::SourceClosed => (WatcherState::Stopped, WatcherAction::Stop),
            WatcherEvent::ReloadFinished => (WatcherState::Watching, WatcherAction::Resume),
            WatcherEvent::File(_) => (WatcherState::Reloading, WatcherAction::LogIgnored),
            WatcherEvent::SourceError => (WatcherState::Reloading, WatcherAction::LogIgnored),
        },
    }
}

/// Tells whether a file event calls for a reload.
pub fn is_reload_trigger(kind: FileEventKind) -> (reload: bool)
    ensures
        reload == triggers_reload(kind),
{
    match kind {
        FileEventKind::Modify(how) => match how {
            ModifyKind::Metadata => false,
            _ => true,
        },
        _ => false,
    }
}

/// One step of the watcher.
pub fn watchdog_step(state: WatcherState, event: WatcherEvent) -> (next: (
    WatcherState,
    WatcherAction,
))
    ensures
        next == watcher_transition(state, event),
{
    match state {
        WatcherState::Stopped => (WatcherState::Stopped, WatcherAction::Nothing),
        WatcherState::Watching => match event {
            WatcherEvent::Shutdown => (WatcherState::Stopped, WatcherAction::Stop),
            WatcherEvent::SourceClosed => (WatcherState::Stopped, WatcherAction::Stop),
            WatcherEvent::File(kind) => if is_reload_trigger(kind) {
                (WatcherState::Reloading, WatcherAction::Reload)
            } else {
                (WatcherState::Watching, WatcherAction::LogIgnored)
            },
            WatcherEvent::SourceError => (WatcherState::Watching, WatcherAction::LogIgnored),
            WatcherEvent::ReloadFinished => (WatcherState::Watching, WatcherAction::LogIgnored),
        },
        WatcherState::Reloading => match event {
            WatcherEvent::Shutdown => (WatcherState::Stopped, WatcherAction::Stop),
            WatcherEvent::SourceClosed => (WatcherState::Stopped, WatcherAction::Stop),
            WatcherEvent::ReloadFinished => (WatcherState::Watching, WatcherAction::Resume),
            WatcherEvent::File(_) => (WatcherState::Reloading, WatcherAction::LogIgnored),
            WatcherEvent::SourceError => (WatcherState::Reloading, WatcherAction::LogIgnored),
        },
    }
}

/// The state of the watcher after a run of events.
pub open spec fn watcher_run(state: WatcherState, events: Seq<WatcherEvent>) -> WatcherState
    decreases events.len(),
{
    if events.len() == 0 {
        state
    } else {
        watcher_transition(watcher_run(state, events.drop_last()), events.last()).0
    }
}

/// A reload starts only from a watcher that is watching, and only on a
/// modification that is more than a change of metadata.
pub proof fn lemma_reload_needs_modification(state: WatcherState, event: WatcherEvent)
    ensures
        watcher_transition(state, event).1 == WatcherAction::Reload <==> (state
            == WatcherState::Watching && (event matches WatcherEvent::File(kind)
            && triggers_reload(kind))),
        watcher_transition(state, event).0 == WatcherState::Reloading ==> state
            == WatcherState::Reloading || watcher_transition(state, event).1
            == WatcherAction::Reload,
{
}

/// Once the shutdown signal has reached the watcher, the watcher is stopped
/// for good: whatever arrives later finds it stopped and asks nothing of it,
/// no reload and no log line.
pub proof fn lemma_watcher_shutdown_is_final(
    state: WatcherState,
    events: Seq<WatcherEvent>,
    at: int,
)
    requires
        0 <= at < events.len(),
        events[at] == WatcherEvent::Shutdown,
    ensures
        watcher_run(state, events) == WatcherState::Stopped,
        forall|later: int|
            at < later < events.len() ==> watcher_transition(
                watcher_run(state, #[trigger] events.take(later)),
                events[later],
            ) == (WatcherState::Stopped, WatcherAction::Nothing),
    decreases events.len(),
{
    let before = events.drop_last();
    if at < before.len() {
        lemma_watcher_shutdown_is_final(state, before, at);
        assert forall|later: int| at < later < events.len() implies watcher_transition(
            watcher_run(state, #[trigger] events.take(later)),
            events[later],
        ) == (WatcherState::Stopped, WatcherAction::Nothing) by {
            if later < before.len() {
                assert(events.take(later) == before.take(later));
            } else {
                assert(events.take(later) == before);
            }
        }
    }
}

} // verus!
