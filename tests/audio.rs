use randomizer_core::{
    AudioCommand, AudioCoordinator, AudioEvent, Completion, Config, PlaybackState, Randomizer,
    SoundPool, StopSignal, FADE_OUT_MS,
};

fn pool(default: &[&str], list: Option<(&str, &[&str])>) -> SoundPool {
    let mut p = SoundPool::new(default.iter().map(|s| s.to_string()).collect());
    if let Some((name, tracks)) = list {
        p.insert_list(name.to_string(), tracks.iter().map(|s| s.to_string()).collect());
    }
    p
}

#[test]
fn stop_sound_only_after_slide_done() {
    let mut a = AudioCoordinator::new();
    let c = a.handle(AudioEvent::RollStarted { music: true, track: Some("roll.mp3".to_string()) });
    let roll_stream = match c {
        AudioCommand::Play { stream, path, looped, notify } => {
            assert_eq!(path, "roll.mp3");
            assert!(looped);
            assert_eq!(notify, Completion::SlideDone);
            stream
        }
        other => panic!("unexpected {other:?}"),
    };
    assert_eq!(a.state, PlaybackState::PlayingRollMusic);
    // no stop sound before the fade-out
    let early = a.handle(AudioEvent::SlideDone { stream: roll_stream, track: Some("stop.mp3".to_string()) });
    assert!(matches!(early, AudioCommand::Nothing));
    let fade = a.handle(AudioEvent::RollFinished);
    assert!(matches!(fade, AudioCommand::FadeOut { stream, duration_ms } if stream == roll_stream && duration_ms == FADE_OUT_MS));
    assert_eq!(a.state, PlaybackState::PlayingRollMusic);
    // a notification of another stream is ignored
    let stale = a.handle(AudioEvent::SlideDone { stream: roll_stream + 7, track: Some("stop.mp3".to_string()) });
    assert!(matches!(stale, AudioCommand::Nothing));
    let stop = a.handle(AudioEvent::SlideDone { stream: roll_stream, track: Some("stop.mp3".to_string()) });
    let stop_stream = match stop {
        AudioCommand::Play { stream, path, looped, notify } => {
            assert_eq!(path, "stop.mp3");
            assert!(!looped);
            assert_eq!(notify, Completion::StreamEnded);
            stream
        }
        other => panic!("unexpected {other:?}"),
    };
    assert_ne!(stop_stream, roll_stream);
    assert_eq!(a.state, PlaybackState::PlayingStopSound);
    let end = a.handle(AudioEvent::StreamEnded { stream: stop_stream });
    assert!(matches!(end, AudioCommand::Release));
    assert_eq!(a.state, PlaybackState::Idle);
}

#[test]
fn no_stop_track_goes_idle() {
    let mut a = AudioCoordinator::new();
    a.handle(AudioEvent::RollStarted { music: true, track: Some("r".to_string()) });
    let s = a.stream;
    a.handle(AudioEvent::RollFinished);
    let c = a.handle(AudioEvent::SlideDone { stream: s, track: None });
    assert!(matches!(c, AudioCommand::Release));
    assert_eq!(a.state, PlaybackState::Idle);
    assert!(!a.fading);
}

#[test]
fn music_off_plays_nothing() {
    let mut a = AudioCoordinator::new();
    let c = a.handle(AudioEvent::RollStarted { music: false, track: Some("r".to_string()) });
    assert!(matches!(c, AudioCommand::Nothing));
    assert!(matches!(a.handle(AudioEvent::RollFinished), AudioCommand::Nothing));
    assert_eq!(a.state, PlaybackState::Idle);
}

#[test]
fn engine_failure_returns_to_idle() {
    let mut a = AudioCoordinator::new();
    a.handle(AudioEvent::RollStarted { music: true, track: Some("r".to_string()) });
    assert!(matches!(a.handle(AudioEvent::EngineFailed), AudioCommand::Release));
    assert_eq!(a.state, PlaybackState::Idle);
}

#[test]
fn stream_numbers_wrap() {
    let mut a = AudioCoordinator::new();
    a.stream = u64::MAX;
    a.handle(AudioEvent::RollStarted { music: true, track: Some("r".to_string()) });
    assert_eq!(a.stream, 0);
}

#[test]
fn randomizer_audio_sequence() {
    let roll = pool(&["roll_default.mp3"], Some(("names", &["roll_names.mp3"])));
    let stop = pool(&["stop_default.mp3"], None);
    let mut r = Randomizer::new(Config::default(), roll, stop);
    let (_, cmd) = r.roll("names".to_string(), vec!["a".to_string()]).unwrap();
    let stream = match cmd {
        AudioCommand::Play { stream, path, .. } => {
            assert_eq!(path, "roll_names.mp3");
            stream
        }
        other => panic!("unexpected {other:?}"),
    };
    assert!(matches!(r.finish_roll(), AudioCommand::FadeOut { .. }));
    match r.play_stop_sound(stream) {
        AudioCommand::Play { path, notify, stream: s2, .. } => {
            assert_eq!(path, "stop_default.mp3");
            assert_eq!(notify, Completion::StreamEnded);
            assert!(matches!(r.stop_audio(s2), AudioCommand::Release));
        }
        other => panic!("unexpected {other:?}"),
    }
    assert_eq!(r.audio.state, PlaybackState::Idle);
    assert!(matches!(r.engine_failed(), AudioCommand::Release));
}

#[test]
fn pool_prefers_list_tracks() {
    let p = pool(&["d1", "d2"], Some(("l", &["x1", "x2", "x3"])));
    let name = "l".to_string();
    for _ in 0..50 {
        let t = p.random_sound(Some(&name)).unwrap();
        assert!(t.starts_with('x'));
    }
}

#[test]
fn pool_falls_back_to_default() {
    let p = pool(&["d1", "d2"], Some(("l", &[])));
    let other = "other".to_string();
    let l = "l".to_string();
    for _ in 0..50 {
        assert!(p.random_sound(Some(&other)).unwrap().starts_with('d'));
        assert!(p.random_sound(Some(&l)).unwrap().starts_with('d'));
        assert!(p.random_sound(None).unwrap().starts_with('d'));
    }
}

#[test]
fn pool_empty_gives_none() {
    let p = pool(&[], Some(("l", &[])));
    assert!(p.random_sound(Some(&"l".to_string())).is_none());
    assert!(p.random_sound(None).is_none());
}

#[test]
fn pool_insert_replaces() {
    let mut p = pool(&[], Some(("l", &["old"])));
    p.insert_list("l".to_string(), vec!["new".to_string()]);
    let l = "l".to_string();
    assert_eq!(p.candidate_tracks(Some(&l)), &vec!["new".to_string()]);
    assert_eq!(p.random_sound(Some(&l)).unwrap(), "new");
}

#[test]
fn stop_signal_is_idempotent() {
    let mut s = StopSignal::new();
    assert!(!s.is_requested());
    s.request_stop();
    s.request_stop();
    assert!(s.is_requested());
    s.reset();
    assert!(!s.is_requested());
}
