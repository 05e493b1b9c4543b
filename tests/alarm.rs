use autoclicker_core::alarm::{
    play_ringtone, playback_opened, stop_ringtone, volume_applies, worker_should_continue,
    AudioError, AudioState, PlaybackPhase, StopPlan,
};

#[test]
fn play_then_stop_is_idle_and_second_stop_is_noop() {
    let mut a = AudioState::new();
    assert_eq!(play_ringtone(&mut a), Ok(()));
    assert_eq!(playback_opened(&mut a, true), Ok(()));
    assert!(worker_should_continue(&a));
    assert_eq!(stop_ringtone(&mut a), StopPlan { stop_sink: true, join_worker: true });
    assert_eq!(a.phase, PlaybackPhase::Idle);
    assert!(!worker_should_continue(&a));
    assert_eq!(stop_ringtone(&mut a), StopPlan { stop_sink: false, join_worker: false });
    assert_eq!(a.phase, PlaybackPhase::Idle);
}

#[test]
fn scenario_missing_file_fails_and_stays_idle() {
    let mut a = AudioState::new();
    assert_eq!(play_ringtone(&mut a), Ok(()));
    assert_eq!(playback_opened(&mut a, false), Err(AudioError::OpenFailed));
    assert_eq!(a.phase, PlaybackPhase::Idle);
    assert_eq!(play_ringtone(&mut a), Ok(()));
}

#[test]
fn second_play_while_playing_is_refused() {
    let mut a = AudioState::new();
    play_ringtone(&mut a).unwrap();
    assert_eq!(play_ringtone(&mut a), Err(AudioError::AlreadyPlaying));
    assert_eq!(a.phase, PlaybackPhase::Opening);
    playback_opened(&mut a, true).unwrap();
    assert_eq!(play_ringtone(&mut a), Err(AudioError::AlreadyPlaying));
    assert_eq!(a.phase, PlaybackPhase::Playing);
}

#[test]
fn stop_while_opening_joins_worker_and_cancels_it() {
    let mut a = AudioState::new();
    play_ringtone(&mut a).unwrap();
    assert_eq!(stop_ringtone(&mut a), StopPlan { stop_sink: false, join_worker: true });
    assert_eq!(playback_opened(&mut a, true), Err(AudioError::Cancelled));
    assert_eq!(a.phase, PlaybackPhase::Idle);
}

#[test]
fn volume_only_reaches_a_playing_session() {
    let mut a = AudioState::new();
    assert!(!volume_applies(&a));
    play_ringtone(&mut a).unwrap();
    assert!(!volume_applies(&a));
    playback_opened(&mut a, true).unwrap();
    assert!(volume_applies(&a));
    stop_ringtone(&mut a);
    assert!(!volume_applies(&a));
}

#[test]
fn error_messages() {
    assert_eq!(AudioError::AlreadyPlaying.message(), "an alarm is already playing");
    assert_eq!(AudioError::OpenFailed.message(), "the alarm could not be played");
    assert_eq!(AudioError::Cancelled.message(), "the alarm was stopped while starting");
}
