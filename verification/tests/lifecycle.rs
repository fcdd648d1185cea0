use rprox::serve::listen_port;
use rprox::serve::serve_step;
use rprox::serve::LoopState;
use rprox::serve::ServeAction;
use rprox::serve::ServeEvent;
use rprox::watcher::is_reload_trigger;
use rprox::watcher::watchdog_step;
use rprox::watcher::FileEventKind;
use rprox::watcher::ModifyKind;
use rprox::watcher::WatcherAction;
use rprox::watcher::WatcherEvent;
use rprox::watcher::WatcherState;

const ALL_WATCHER_EVENTS: [WatcherEvent; 14] = [
    WatcherEvent::File(FileEventKind::Any),
    WatcherEvent::File(FileEventKind::Access),
    WatcherEvent::File(FileEventKind::Create),
    WatcherEvent::File(FileEventKind::Modify(ModifyKind::Any)),
    WatcherEvent::File(FileEventKind::Modify(ModifyKind::Data)),
    WatcherEvent::File(FileEventKind::Modify(ModifyKind::Metadata)),
    WatcherEvent::File(FileEventKind::Modify(ModifyKind::Name)),
    WatcherEvent::File(FileEventKind::Modify(ModifyKind::Other)),
    WatcherEvent::File(FileEventKind::Remove),
    WatcherEvent::File(FileEventKind::Other),
    WatcherEvent::SourceError,
    WatcherEvent::SourceClosed,
    WatcherEvent::ReloadFinished,
    WatcherEvent::Shutdown,
];

#[test]
fn content_modification_triggers_a_reload() {
    assert!(is_reload_trigger(FileEventKind::Modify(ModifyKind::Data)));
    assert!(is_reload_trigger(FileEventKind::Modify(ModifyKind::Any)));
    assert!(is_reload_trigger(FileEventKind::Modify(ModifyKind::Name)));
    assert!(is_reload_trigger(FileEventKind::Modify(ModifyKind::Other)));
}

#[test]
fn other_events_trigger_no_reload() {
    assert!(!is_reload_trigger(FileEventKind::Modify(ModifyKind::Metadata)));
    assert!(!is_reload_trigger(FileEventKind::Any));
    assert!(!is_reload_trigger(FileEventKind::Access));
    assert!(!is_reload_trigger(FileEventKind::Create));
    assert!(!is_reload_trigger(FileEventKind::Remove));
    assert!(!is_reload_trigger(FileEventKind::Other));
}

#[test]
fn watcher_reloads_and_watches_again() {
    let modified = WatcherEvent::File(FileEventKind::Modify(ModifyKind::Data));
    let (state, action) = watchdog_step(WatcherState::Watching, modified);
    assert_eq!((state, action), (WatcherState::Reloading, WatcherAction::Reload));
    let (state, action) = watchdog_step(state, WatcherEvent::ReloadFinished);
    assert_eq!((state, action), (WatcherState::Watching, WatcherAction::Resume));
}

#[test]
fn watcher_logs_and_ignores_irrelevant_events() {
    let ignored = [
        WatcherEvent::File(FileEventKind::Modify(ModifyKind::Metadata)),
        WatcherEvent::File(FileEventKind::Create),
        WatcherEvent::File(FileEventKind::Remove),
        WatcherEvent::File(FileEventKind::Access),
        WatcherEvent::SourceError,
    ];
    for event in ignored {
        assert_eq!(
            watchdog_step(WatcherState::Watching, event),
            (WatcherState::Watching, WatcherAction::LogIgnored)
        );
    }
}

#[test]
fn watcher_stops_on_shutdown_from_any_state() {
    assert_eq!(
        watchdog_step(WatcherState::Watching, WatcherEvent::Shutdown),
        (WatcherState::Stopped, WatcherAction::Stop)
    );
    assert_eq!(
        watchdog_step(WatcherState::Reloading, WatcherEvent::Shutdown),
        (WatcherState::Stopped, WatcherAction::Stop)
    );
    assert_eq!(
        watchdog_step(WatcherState::Stopped, WatcherEvent::Shutdown),
        (WatcherState::Stopped, WatcherAction::Nothing)
    );
}

#[test]
fn watcher_stops_when_its_source_is_gone() {
    assert_eq!(
        watchdog_step(WatcherState::Watching, WatcherEvent::SourceClosed),
        (WatcherState::Stopped, WatcherAction::Stop)
    );
    assert_eq!(
        watchdog_step(WatcherState::Reloading, WatcherEvent::SourceClosed),
        (WatcherState::Stopped, WatcherAction::Stop)
    );
}

#[test]
fn watcher_starts_no_second_reload_while_one_runs() {
    let modified = WatcherEvent::File(FileEventKind::Modify(ModifyKind::Data));
    assert_eq!(
        watchdog_step(WatcherState::Reloading, modified),
        (WatcherState::Reloading, WatcherAction::LogIgnored)
    );
    assert_eq!(
        watchdog_step(WatcherState::Watching, WatcherEvent::ReloadFinished),
        (WatcherState::Watching, WatcherAction::LogIgnored)
    );
}

#[test]
fn stopped_watcher_does_nothing_more() {
    for event in ALL_WATCHER_EVENTS {
        assert_eq!(
            watchdog_step(WatcherState::Stopped, event),
            (WatcherState::Stopped, WatcherAction::Nothing)
        );
    }
}

#[test]
fn shutdown_ends_a_watcher_run_for_good() {
    let events = [
        WatcherEvent::File(FileEventKind::Access),
        WatcherEvent::File(FileEventKind::Modify(ModifyKind::Data)),
        WatcherEvent::ReloadFinished,
        WatcherEvent::Shutdown,
        WatcherEvent::File(FileEventKind::Modify(ModifyKind::Data)),
        WatcherEvent::ReloadFinished,
        WatcherEvent::SourceError,
    ];
    let mut state = WatcherState::Watching;
    let mut actions = Vec::new();
    for event in events {
        let (next, action) = watchdog_step(state, event);
        state = next;
        actions.push(action);
    }
    assert_eq!(state, WatcherState::Stopped);
    assert_eq!(
        actions,
        vec![
            WatcherAction::LogIgnored,
            WatcherAction::Reload,
            WatcherAction::Resume,
            WatcherAction::Stop,
            WatcherAction::Nothing,
            WatcherAction::Nothing,
            WatcherAction::Nothing,
        ]
    );
}

#[test]
fn serving_loop_stops_on_shutdown() {
    assert_eq!(
        serve_step(LoopState::Running, ServeEvent::Shutdown),
        (LoopState::Stopped, ServeAction::Stop)
    );
}

#[test]
fn serving_loop_ends_with_its_server() {
    assert_eq!(
        serve_step(LoopState::Running, ServeEvent::ServerFinished),
        (LoopState::Stopped, ServeAction::Stop)
    );
    assert_eq!(
        serve_step(LoopState::Running, ServeEvent::ServerFailed),
        (LoopState::Stopped, ServeAction::ReportFailure)
    );
}

#[test]
fn stopped_serving_loop_does_nothing_more() {
    for event in [ServeEvent::Shutdown, ServeEvent::ServerFinished, ServeEvent::ServerFailed] {
        assert_eq!(
            serve_step(LoopState::Stopped, event),
            (LoopState::Stopped, ServeAction::Nothing)
        );
    }
}

#[test]
fn one_shutdown_stops_both_loops() {
    let (serving, _) = serve_step(LoopState::Running, ServeEvent::Shutdown);
    let (watching, _) = watchdog_step(WatcherState::Watching, WatcherEvent::Shutdown);
    assert_eq!(serving, LoopState::Stopped);
    assert_eq!(watching, WatcherState::Stopped);
    let (serving, action) = serve_step(serving, ServeEvent::ServerFailed);
    assert_eq!((serving, action), (LoopState::Stopped, ServeAction::Nothing));
    let modified = WatcherEvent::File(FileEventKind::Modify(ModifyKind::Data));
    let (watching, action) = watchdog_step(watching, modified);
    assert_eq!((watching, action), (WatcherState::Stopped, WatcherAction::Nothing));
}

#[test]
fn privileged_port_needs_a_plain_yes() {
    assert_eq!(listen_port(Some(true)), 80);
    assert_eq!(listen_port(Some(false)), 8000);
    assert_eq!(listen_port(None), 8000);
}
