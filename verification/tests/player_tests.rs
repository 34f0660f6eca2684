use amberol::player_backend::{
    audio_sink_factory, bus_reply, clock_seconds, position_report, position_tick, BusMessage,
    BusReply, PipelineState, PlayerAction, PlayerBackend, PlayerState, SeekDirection, SeekPlan,
    MAX_CLOCK_SECONDS, NSEC_PER_SEC,
};

#[test]
fn player_state_defaults_to_stop() {
    assert_eq!(PlayerState::default(), PlayerState::Stop);
    let backend = PlayerBackend::new();
    assert_eq!(backend.state(), PlayerState::Stop);
    assert!(!backend.holds_position_timer());
}

#[test]
fn play_is_idempotent() {
    let mut backend = PlayerBackend::new();
    assert!(backend.play());
    assert_eq!(backend.state(), PlayerState::Play);
    assert!(!backend.play());
    assert_eq!(backend.state(), PlayerState::Play);
}

#[test]
fn play_stores_timer_only_on_success() {
    let mut backend = PlayerBackend::new();
    backend.play();
    assert_eq!(backend.playback_started(false), Some(PipelineState::Ready));
    assert!(!backend.holds_position_timer());
    assert_eq!(backend.playback_started(true), None);
    assert!(backend.holds_position_timer());
}

#[test]
fn pause_and_stop_drop_timer() {
    let mut backend = PlayerBackend::new();
    backend.play();
    backend.playback_started(true);
    assert!(backend.pause());
    assert_eq!(backend.state(), PlayerState::Pause);
    assert!(!backend.holds_position_timer());
    assert!(!backend.pause());
    assert!(backend.stop());
    assert_eq!(backend.state(), PlayerState::Stop);
    assert!(!backend.stop());
}

#[test]
fn pause_failure_resets_to_null() {
    let backend = PlayerBackend::new();
    assert_eq!(backend.pause_finished(false), Some(PipelineState::Null));
    assert_eq!(backend.pause_finished(true), None);
}

fn plan(seconds: u64) -> Option<SeekPlan> {
    Some(SeekPlan { target_ns: seconds * NSEC_PER_SEC, resume: true })
}

#[test]
fn seek_backwards() {
    let backend = PlayerBackend::new();
    assert_eq!(backend.seek(30, 100, 10, SeekDirection::Backwards), plan(20));
    assert_eq!(backend.seek(5, 100, 10, SeekDirection::Backwards), plan(0));
    assert_eq!(backend.seek(10, 0, 10, SeekDirection::Backwards), plan(0));
}

#[test]
fn seek_forward() {
    let backend = PlayerBackend::new();
    assert_eq!(backend.seek(30, 100, 10, SeekDirection::Forward), plan(40));
    assert_eq!(backend.seek(95, 100, 10, SeekDirection::Forward), plan(100));
    assert_eq!(backend.seek(90, 100, 10, SeekDirection::Forward), plan(100));
    assert_eq!(backend.seek(30, 0, 10, SeekDirection::Forward), None);
}

#[test]
fn seek_resumes_whatever_the_state() {
    let mut backend = PlayerBackend::new();
    assert_eq!(backend.seek(30, 100, 10, SeekDirection::Forward).unwrap().resume, true);
    backend.pause();
    assert_eq!(backend.seek(30, 100, 10, SeekDirection::Backwards).unwrap().resume, true);
}

#[test]
fn seek_back_and_forth_returns() {
    let backend = PlayerBackend::new();
    let back = backend.seek(50, 100, 15, SeekDirection::Backwards).unwrap();
    let back_seconds = back.target_ns / NSEC_PER_SEC;
    assert_eq!(backend.seek(back_seconds, 100, 15, SeekDirection::Forward), plan(50));
}

#[test]
fn seek_limits() {
    let backend = PlayerBackend::new();
    assert_eq!(
        backend.seek(MAX_CLOCK_SECONDS, MAX_CLOCK_SECONDS, MAX_CLOCK_SECONDS, SeekDirection::Backwards),
        plan(0)
    );
    assert_eq!(
        backend.seek(MAX_CLOCK_SECONDS, MAX_CLOCK_SECONDS, 0, SeekDirection::Forward),
        plan(MAX_CLOCK_SECONDS)
    );
    assert!(MAX_CLOCK_SECONDS.checked_mul(NSEC_PER_SEC).is_some());
    assert!((MAX_CLOCK_SECONDS + 1).checked_mul(NSEC_PER_SEC).is_none());
}

#[test]
fn seek_position_resumes_only_while_playing() {
    let mut backend = PlayerBackend::new();
    assert_eq!(backend.seek_position(3), SeekPlan { target_ns: 3_000_000_000, resume: false });
    backend.play();
    assert_eq!(backend.seek_position(3), SeekPlan { target_ns: 3_000_000_000, resume: true });
    assert_eq!(backend.seek_start(), SeekPlan { target_ns: 0, resume: true });
}

#[test]
fn position_reports_whole_seconds() {
    assert_eq!(clock_seconds(2_999_999_999), 2);
    assert_eq!(position_report(Some(61_500_000_000)), Some(PlayerAction::UpdatePosition(61)));
    assert_eq!(position_report(None), None);
}

#[test]
fn position_timer_stops_without_pipeline() {
    assert_eq!(
        position_tick(false, Some(1_000_000_000)),
        BusReply { action: None, keep_watching: false }
    );
    assert_eq!(
        position_tick(true, Some(4_000_000_000)),
        BusReply { action: Some(PlayerAction::UpdatePosition(4)), keep_watching: true }
    );
    assert_eq!(position_tick(true, None), BusReply { action: None, keep_watching: true });
}

#[test]
fn bus_messages() {
    assert_eq!(
        bus_reply(BusMessage::EndOfStream),
        BusReply { action: Some(PlayerAction::PlayNext), keep_watching: true }
    );
    assert_eq!(
        bus_reply(BusMessage::Error),
        BusReply { action: Some(PlayerAction::Stop), keep_watching: false }
    );
    assert_eq!(bus_reply(BusMessage::Other), BusReply { action: None, keep_watching: true });
}

#[test]
fn audio_sink_choice() {
    assert_eq!(audio_sink_factory(true), "pulsesink");
    assert_eq!(audio_sink_factory(false), "autoaudiosink");
}

#[test]
fn playbin_choice() {
    assert_eq!(amberol::player_backend::playbin_factory(false), "playbin3");
    assert_eq!(amberol::player_backend::playbin_factory(true), "playbin");
}
