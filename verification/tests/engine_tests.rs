use redbookmaster::engine::{
    Engine, EngineAction, EngineCommand, EngineInput, Pending, PlayerEvent, SinkState,
};

fn is_event(a: &EngineAction, f: impl Fn(&PlayerEvent) -> bool) -> bool {
    match a {
        EngineAction::Emit(e) => f(e),
        _ => false,
    }
}

fn loaded_engine(duration_ms: u64) -> Engine {
    let mut e = Engine::new();
    let a = e.step(EngineInput::Command(EngineCommand::Load("a.wav".to_string())), SinkState::Empty, 0);
    assert_eq!(a.len(), 2);
    assert!(matches!(a[0], EngineAction::ResetSink));
    assert!(matches!(&a[1], EngineAction::OpenFile(p) if p == "a.wav"));
    let a = e.step(EngineInput::Opened(duration_ms), SinkState::Empty, 0);
    assert!(is_event(&a[1], |ev| matches!(ev, PlayerEvent::Loaded { duration_ms: d } if *d == duration_ms)));
    e
}

#[test]
fn load_reports_duration_and_stays_stopped() {
    let e = loaded_engine(5000);
    assert_eq!(e.duration_ms, 5000);
    assert_eq!(e.current_path.as_deref(), Some("a.wav"));
    assert!(!e.is_playing);
    assert_eq!(e.poll_interval_ms(), 1000);
}

#[test]
fn play_pause_resume_keeps_position() {
    let mut e = loaded_engine(10_000);
    // Empty sink: the file is opened and played from the start.
    let a = e.step(EngineInput::Command(EngineCommand::Play), SinkState::Empty, 100);
    assert!(matches!(&a[0], EngineAction::OpenFile(p) if p == "a.wav"));
    let a = e.step(EngineInput::Opened(10_000), SinkState::Empty, 100);
    assert!(matches!(a[0], EngineAction::AppendAndPlay(None)));
    assert!(is_event(&a[1], |ev| matches!(ev, PlayerEvent::Playing)));
    assert_eq!(e.poll_interval_ms(), 50);

    let a = e.tick(1100);
    assert!(is_event(&a[0], |ev| matches!(ev, PlayerEvent::Position(1000))));

    let a = e.step(EngineInput::Command(EngineCommand::Pause), SinkState::Busy, 2100);
    assert!(matches!(a[0], EngineAction::PauseSink));
    assert!(is_event(&a[1], |ev| matches!(ev, PlayerEvent::Paused)));
    assert_eq!(e.pause_offset_ms, 2000);
    assert!(e.is_paused);
    assert!(e.tick(5000).is_empty());

    let a = e.step(EngineInput::Command(EngineCommand::Play), SinkState::Paused, 5000);
    assert!(matches!(a[0], EngineAction::ResumeSink));
    let a = e.tick(5500);
    assert!(is_event(&a[0], |ev| matches!(ev, PlayerEvent::Position(2500))));
}

#[test]
fn reaching_the_end_finishes_the_track() {
    let mut e = loaded_engine(1000);
    e.step(EngineInput::Command(EngineCommand::Play), SinkState::Empty, 0);
    e.step(EngineInput::Opened(1000), SinkState::Empty, 0);
    let a = e.tick(1000);
    assert!(matches!(a[0], EngineAction::ResetSink));
    assert!(is_event(&a[1], |ev| matches!(ev, PlayerEvent::TrackFinished)));
    assert!(!e.is_playing);
    assert_eq!(e.position_ms, 0);
}

#[test]
fn stop_and_seek() {
    let mut e = loaded_engine(60_000);
    e.step(EngineInput::Command(EngineCommand::Play), SinkState::Empty, 0);
    e.step(EngineInput::Opened(60_000), SinkState::Empty, 0);
    let a = e.step(EngineInput::Command(EngineCommand::Seek(30_000)), SinkState::Busy, 10);
    assert!(matches!(a[0], EngineAction::ResetSink));
    assert!(matches!(&a[1], EngineAction::OpenFile(p) if p == "a.wav"));
    assert!(matches!(e.pending, Pending::SeekRestart(30_000)));
    let a = e.step(EngineInput::Opened(60_000), SinkState::Empty, 20);
    assert!(matches!(a[0], EngineAction::AppendAndPlay(Some(30_000))));
    let a = e.tick(1020);
    assert!(is_event(&a[0], |ev| matches!(ev, PlayerEvent::Position(31_000))));

    let a = e.step(EngineInput::Command(EngineCommand::Stop), SinkState::Busy, 2000);
    assert!(is_event(&a[1], |ev| matches!(ev, PlayerEvent::Stopped)));
    assert_eq!(e.position_ms, 0);
    assert!(!e.is_playing);
}

#[test]
fn failures_are_reported() {
    let mut e = Engine::new();
    e.step(EngineInput::Command(EngineCommand::Load("x.wav".to_string())), SinkState::Empty, 0);
    let a = e.step(EngineInput::OpenFailed("No such file".to_string()), SinkState::Empty, 0);
    assert!(is_event(&a[0], |ev| matches!(ev, PlayerEvent::Error(m) if m == "Failed to open file: No such file")));
    e.step(EngineInput::Command(EngineCommand::LoadAndPlay("y.wav".to_string())), SinkState::Empty, 0);
    let a = e.step(EngineInput::DecodeFailed("bad header".to_string()), SinkState::Empty, 0);
    assert!(is_event(&a[0], |ev| matches!(ev, PlayerEvent::Error(m) if m == "Failed to decode: bad header")));
    assert!(e.current_path.is_none());
    // Play with nothing loaded does nothing.
    assert!(e.step(EngineInput::Command(EngineCommand::Play), SinkState::Empty, 0).is_empty());
}

#[test]
fn missing_sink_is_created_first() {
    let mut e = loaded_engine(3000);
    let a = e.step(EngineInput::Command(EngineCommand::Play), SinkState::Missing, 0);
    assert!(matches!(a[0], EngineAction::CreateSink));
    let a = e.step(EngineInput::SinkReady, SinkState::Empty, 0);
    assert!(matches!(&a[0], EngineAction::OpenFile(p) if p == "a.wav"));
}

#[test]
fn load_and_play_starts_at_once_and_shutdown_ends() {
    let mut e = Engine::new();
    e.step(EngineInput::Command(EngineCommand::LoadAndPlay("b.wav".to_string())), SinkState::Empty, 0);
    let a = e.step(EngineInput::Opened(4000), SinkState::Empty, 7);
    assert_eq!(a.len(), 3);
    assert!(matches!(a[1], EngineAction::AppendAndPlay(None)));
    assert_eq!(e.started_at_ms, Some(7));
    assert!(!e.is_done());
    let a = e.step(EngineInput::Command(EngineCommand::Shutdown), SinkState::Busy, 8);
    assert!(matches!(a[0], EngineAction::DropSink));
    assert!(matches!(a[1], EngineAction::Exit));
    assert!(e.is_done());
}

#[test]
fn positions_are_reported_after_moving_100_ms() {
    let mut e = loaded_engine(60_000);
    e.step(EngineInput::Command(EngineCommand::Play), SinkState::Empty, 0);
    e.step(EngineInput::Opened(60_000), SinkState::Empty, 0);
    let a = e.tick(10);
    assert!(is_event(&a[0], |ev| matches!(ev, PlayerEvent::Position(10))));
    // 50 ms later: the position moves, but nothing is reported.
    assert!(e.tick(60).is_empty());
    assert_eq!(e.position_ms, 60);
    let a = e.tick(110);
    assert!(is_event(&a[0], |ev| matches!(ev, PlayerEvent::Position(110))));
    assert_eq!(e.last_reported_ms, Some(110));
    // A seek resets the reports: the next tick reports at once.
    e.step(EngineInput::Command(EngineCommand::Seek(5_000)), SinkState::Busy, 120);
    assert_eq!(e.last_reported_ms, None);
    e.step(EngineInput::Opened(60_000), SinkState::Empty, 120);
    let a = e.tick(130);
    assert!(is_event(&a[0], |ev| matches!(ev, PlayerEvent::Position(5_010))));
}

#[test]
fn loading_discards_the_source_and_stays_idle() {
    let mut e = Engine::new();
    e.step(EngineInput::Command(EngineCommand::Load("a.wav".to_string())), SinkState::Empty, 0);
    let a = e.step(EngineInput::Opened(2000), SinkState::Empty, 5);
    assert_eq!(a.len(), 2);
    assert!(matches!(a[0], EngineAction::DiscardSource));
    assert!(matches!(e.pending, Pending::Idle));
    assert_eq!(e.started_at_ms, None);
    // Not running: a tick changes nothing.
    assert!(e.tick(100).is_empty());
    assert_eq!(e.position_ms, 0);
}
