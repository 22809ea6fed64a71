use tcui::dashboard::{is_quit_key, poll_event, Action, Dashboard, Event, Key, Phase};
use tcui::teamcity::{Build, BuildType, FetchError, SnapshotDependencies};

fn queued(name: &str) -> Build {
    Build::Queued {
        build_type: BuildType {
            name: name.to_string(),
        },
        web_url: format!("https://ci/{}", name),
        snapshot_dependencies: SnapshotDependencies { build: Vec::new() },
    }
}

fn shown(d: &Dashboard) -> String {
    format!("{:?}", d.snapshot())
}

#[test]
fn failed_poll_leaves_snapshot_unchanged() {
    let mut d = Dashboard::new(queued("Before"));
    let before = shown(&d);
    for error in [
        FetchError::TransportError,
        FetchError::AuthError,
        FetchError::DecodeError,
        FetchError::EmptyResult,
    ] {
        let event = poll_event(Err(error));
        assert!(event.is_none());
        if let Some(event) = event {
            d.step(event);
        }
        assert_eq!(shown(&d), before);
        assert!(d.is_running());
    }
}

#[test]
fn successful_poll_replaces_snapshot() {
    let mut d = Dashboard::new(queued("Before"));
    let event = poll_event(Ok(queued("After"))).unwrap();
    assert_eq!(d.step(event), Action::Redraw);
    assert_eq!(shown(&d), format!("{:?}", queued("After")));
    assert!(d.is_running());
}

#[test]
fn tick_quit_tick_stops_after_quit() {
    let mut d = Dashboard::new(queued("Root"));
    let events = vec![Event::Tick, Event::Input(Key::Char('q')), Event::Tick];
    let mut processed = Vec::new();
    for event in events {
        if !d.is_running() {
            break;
        }
        processed.push(d.step(event));
    }
    assert_eq!(processed, vec![Action::Redraw, Action::Shutdown]);
    assert_eq!(d.phase, Phase::ShuttingDown);
}

#[test]
fn events_after_shutdown_change_nothing() {
    let mut d = Dashboard::new(queued("Root"));
    assert_eq!(d.step(Event::Input(Key::Char('q'))), Action::Shutdown);
    let before = shown(&d);
    assert_eq!(d.step(Event::Tick), Action::Idle);
    assert_eq!(d.step(Event::NewBuild(queued("Later"))), Action::Idle);
    assert_eq!(shown(&d), before);
    assert_eq!(d.phase, Phase::ShuttingDown);
}

#[test]
fn other_keys_are_ignored() {
    let mut d = Dashboard::new(queued("Root"));
    let before = shown(&d);
    assert_eq!(d.step(Event::Input(Key::Char('x'))), Action::Idle);
    assert_eq!(d.step(Event::Input(Key::Other)), Action::Idle);
    assert_eq!(d.step(Event::Input(Key::Char('Q'))), Action::Idle);
    assert_eq!(shown(&d), before);
    assert!(d.is_running());
}

#[test]
fn tick_redraws_same_snapshot() {
    let mut d = Dashboard::new(queued("Root"));
    let before = shown(&d);
    assert_eq!(d.step(Event::Tick), Action::Redraw);
    assert_eq!(shown(&d), before);
}

#[test]
fn only_q_quits() {
    assert!(is_quit_key(Key::Char('q')));
    assert!(!is_quit_key(Key::Char('w')));
    assert!(!is_quit_key(Key::Other));
}
