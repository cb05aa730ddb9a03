use unstrem::actor::{drain, settle, step, ActorAction, ActorEvent, ActorState, Disposition};
use unstrem::engine::{EngineCall, EngineError, Flag, RecordingEngine, Reply, Track};
use unstrem::handle::{bootstrap_result, command_result, query_result};
use unstrem::protocol::PlayerCommand;

fn bits(x: f64) -> u64 {
    x.to_bits()
}

#[test]
fn load_sets_start_before_play() {
    let mut e = RecordingEngine::new(bits(100.0), bits(5400.0));
    let r = e.execute(PlayerCommand::Load { url: "file.mp4".to_string(), start_time: Some(bits(30.0)) });
    assert_eq!(r, Ok(Reply::Done));
    assert_eq!(e.calls.len(), 2);
    assert!(matches!(e.calls[0], EngineCall::SetStart(t) if f64::from_bits(t) == 30.0));
    assert!(matches!(&e.calls[1], EngineCall::LoadFile(u) if u == "file.mp4"));
    assert_eq!(e.media.as_deref(), Some("file.mp4"));
    assert_eq!(e.execute(PlayerCommand::Position), Ok(Reply::Value(bits(30.0))));
}

#[test]
fn load_without_start_only_plays() {
    let mut e = RecordingEngine::new(bits(100.0), bits(60.0));
    e.execute(PlayerCommand::Load { url: "a.mkv".to_string(), start_time: None }).unwrap();
    assert_eq!(e.calls.len(), 1);
    assert!(matches!(&e.calls[0], EngineCall::LoadFile(u) if u == "a.mkv"));
}

#[test]
fn volume_round_trip() {
    let mut e = RecordingEngine::new(bits(100.0), 0);
    e.execute(PlayerCommand::SetVolume { volume: bits(42.5) }).unwrap();
    assert_eq!(e.execute(PlayerCommand::GetVolume), Ok(Reply::Value(bits(42.5))));
}

#[test]
fn stop_then_toggle_pauses() {
    for start_paused in [false, true] {
        let mut e = RecordingEngine::new(0, 0);
        e.execute(PlayerCommand::Load { url: "x".to_string(), start_time: None }).unwrap();
        if start_paused {
            e.execute(PlayerCommand::PauseToggle).unwrap();
            assert!(e.paused);
        }
        e.execute(PlayerCommand::Stop).unwrap();
        assert!(!e.paused);
        assert!(e.media.is_none());
        assert_eq!(e.execute(PlayerCommand::PauseToggle), Ok(Reply::Done));
        assert!(e.paused);
    }
}

#[test]
fn stop_records_reset_after_stop() {
    let mut e = RecordingEngine::new(0, 0);
    e.execute(PlayerCommand::Stop).unwrap();
    assert!(matches!(e.calls[0], EngineCall::StopPlayback));
    assert!(matches!(e.calls[1], EngineCall::SetFlag(Flag::Pause, false)));
}

#[test]
fn queries_without_media_fail() {
    let mut e = RecordingEngine::new(0, 0);
    assert_eq!(e.execute(PlayerCommand::Position), Err(EngineError::NoMedia));
    assert_eq!(e.execute(PlayerCommand::Duration), Err(EngineError::NoMedia));
    assert_eq!(e.execute(PlayerCommand::SeekRelative { seconds: bits(5.0) }), Err(EngineError::NoMedia));
    assert_eq!(e.execute(PlayerCommand::SeekAbsolute { seconds: bits(5.0) }), Err(EngineError::NoMedia));
    assert_eq!(e.execute(PlayerCommand::CycleAudio), Err(EngineError::NoMedia));
    assert_eq!(e.execute(PlayerCommand::CycleSubtitle), Err(EngineError::NoMedia));
    assert_eq!(
        e.execute(PlayerCommand::Screenshot { file: "s.png".to_string(), include_subs: true }),
        Err(EngineError::NoMedia)
    );
    assert_eq!(e.calls.len(), 7);
}

#[test]
fn tracks_and_visibility() {
    let mut e = RecordingEngine::new(0, bits(90.0));
    e.execute(PlayerCommand::Load { url: "m".to_string(), start_time: None }).unwrap();
    e.execute(PlayerCommand::SetAudioTrack { track_id: 2 }).unwrap();
    e.execute(PlayerCommand::SetSubtitleTrack { track_id: 3 }).unwrap();
    e.execute(PlayerCommand::ToggleSubtitleVisibility).unwrap();
    e.execute(PlayerCommand::CycleAudio).unwrap();
    assert_eq!(e.audio_track, 2);
    assert_eq!(e.subtitle_track, 3);
    assert!(!e.sub_visible);
    assert!(matches!(e.calls.last(), Some(EngineCall::CycleTrack(Track::Audio))));
    assert_eq!(e.execute(PlayerCommand::Duration), Ok(Reply::Value(bits(90.0))));
    e.execute(PlayerCommand::SeekAbsolute { seconds: bits(12.0) }).unwrap();
    assert_eq!(e.execute(PlayerCommand::Position), Ok(Reply::Value(bits(12.0))));
}

#[test]
fn drain_applies_in_queue_order() {
    let mut e = RecordingEngine::new(bits(10.0), 0);
    // two callers interleaved: A sets 20 then 30, B reads in between and after
    let queue = vec![
        PlayerCommand::SetVolume { volume: bits(20.0) },
        PlayerCommand::GetVolume,
        PlayerCommand::SetVolume { volume: bits(30.0) },
        PlayerCommand::GetVolume,
    ];
    let out = drain(&mut e, queue);
    assert_eq!(out.len(), 4);
    assert_eq!(out[1], Ok(Reply::Value(bits(20.0))));
    assert_eq!(out[3], Ok(Reply::Value(bits(30.0))));
    assert_eq!(e.volume, bits(30.0));
}

#[test]
fn query_after_command_sees_it() {
    let mut e = RecordingEngine::new(0, 0);
    let queue = vec![
        PlayerCommand::Load { url: "v".to_string(), start_time: None },
        PlayerCommand::SeekAbsolute { seconds: bits(7.0) },
        PlayerCommand::Position,
    ];
    let out = drain(&mut e, queue);
    assert_eq!(out[2], Ok(Reply::Value(bits(7.0))));
}

#[test]
fn actor_lifecycle() {
    let (s, a) = step(ActorState::Initializing, ActorEvent::EngineReady);
    assert_eq!(s, ActorState::Running);
    assert!(matches!(a, ActorAction::ReportReady));
    let (s, a) = step(s, ActorEvent::Received(PlayerCommand::Stop));
    assert_eq!(s, ActorState::Running);
    assert!(matches!(a, ActorAction::Execute(PlayerCommand::Stop)));
    let (s, a) = step(s, ActorEvent::QueueClosed);
    assert_eq!(s, ActorState::Stopped);
    assert!(matches!(a, ActorAction::Exit));
    let (s, a) = step(s, ActorEvent::Received(PlayerCommand::GetVolume));
    assert_eq!(s, ActorState::Stopped);
    assert!(matches!(a, ActorAction::Ignore));
}

#[test]
fn failed_construction_yields_no_handle() {
    let (s, a) = step(ActorState::Initializing, ActorEvent::EngineFailed("no driver".to_string()));
    assert_eq!(s, ActorState::Stopped);
    match a {
        ActorAction::ReportFailure(m) => {
            assert_eq!(m, "no driver");
            assert_eq!(bootstrap_result(Some(Err(m))), Err("no driver".to_string()));
        }
        _ => panic!("expected a failure report"),
    }
    assert!(bootstrap_result(None).is_err());
    assert_eq!(bootstrap_result(Some(Ok(()))), Ok(()));
}

#[test]
fn calls_fail_once_actor_is_gone() {
    assert_eq!(command_result(true), Ok(()));
    assert_eq!(command_result(false), Err("player service unavailable".to_string()));
    assert_eq!(query_result(false, None), Err("player service unavailable".to_string()));
    assert_eq!(query_result(true, None), Err("player service unavailable".to_string()));
    assert_eq!(query_result(true, Some(Ok(bits(1.5)))), Ok(bits(1.5)));
    assert_eq!(query_result(true, Some(Err("no media".to_string()))), Err("no media".to_string()));
}

#[test]
fn settle_routes_outcomes() {
    match settle(&PlayerCommand::GetVolume, Ok(bits(3.0))) {
        Disposition::Reply(r) => assert_eq!(r, Ok(bits(3.0))),
        _ => panic!("a query is answered"),
    }
    assert!(matches!(settle(&PlayerCommand::Stop, Ok(0)), Disposition::Quiet));
    match settle(&PlayerCommand::SeekRelative { seconds: 0 }, Err("not seekable".to_string())) {
        Disposition::Log(l) => assert_eq!(l, "seek rel error: not seekable"),
        _ => panic!("a failed command is logged"),
    }
}

#[test]
fn command_queries_and_labels() {
    assert!(PlayerCommand::Position.is_query());
    assert!(PlayerCommand::Duration.is_query());
    assert!(!PlayerCommand::CycleSubtitle.is_query());
    assert_eq!(PlayerCommand::SetAudioTrack { track_id: 1 }.label(), "set aid");
    assert_eq!(PlayerCommand::ToggleSubtitleVisibility.label(), "toggle sub vis");
}

#[test]
fn position_after_absolute_seek() {
    let mut e = RecordingEngine::new(0, 0);
    let queue = vec![
        PlayerCommand::Load { url: "v".to_string(), start_time: None },
        PlayerCommand::SeekAbsolute { seconds: bits(42.0) },
        PlayerCommand::SetVolume { volume: bits(80.0) },
        PlayerCommand::ToggleSubtitleVisibility,
        PlayerCommand::Position,
    ];
    let out = drain(&mut e, queue);
    assert_eq!(out[4], Ok(Reply::Value(bits(42.0))));
    let mut bare = RecordingEngine::new(0, 0);
    let out = drain(&mut bare, vec![PlayerCommand::SeekAbsolute { seconds: bits(42.0) }, PlayerCommand::Position]);
    assert_eq!(out[0], Err(EngineError::NoMedia));
    assert_eq!(out[1], Err(EngineError::NoMedia));
}
