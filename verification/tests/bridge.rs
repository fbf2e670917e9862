//! Tests of the event bridge, the queue, the reconnection policy, seeking
//! and position telemetry.

use playback_session::EventQueue;
use playback_session::PipelineCmd;
use playback_session::PipelineState;
use playback_session::PipelineVerdict;
use playback_session::PlaybackSession;
use playback_session::RawNotification;
use playback_session::ReconnectState;
use playback_session::RetryDecision;
use playback_session::SessionEvent;
use playback_session::VideoInfo;
use playback_session::events::translate;
use playback_session::session::Intent;
use playback_session::session::intent_command;

fn sample_video_info() -> VideoInfo {
    VideoInfo {
        width: 1920,
        height: 1080,
        fps_num: 30000,
        fps_den: 1001,
        codec: String::from("H.264"),
    }
}

fn session_with_duration(position: u64, duration: u64) -> PlaybackSession {
    let mut session = PlaybackSession::new(String::from("rtsp://127.0.0.1:8554/live.sdp"), 5, 2);
    session.play(PipelineVerdict::Accepted).unwrap();
    session.position_tick(Some(position), Some(duration));
    session
}

#[test]
fn test_translate_end_of_stream() {
    assert_eq!(
        translate(RawNotification::EndOfStream),
        Some(SessionEvent::EndOfStream)
    );
}

#[test]
fn test_translate_error_keeps_message() {
    let raw = RawNotification::Error {
        message: String::from("connection reset"),
        debug: String::from("rtspsrc0: timeout"),
    };
    assert_eq!(
        translate(raw),
        Some(SessionEvent::Error(String::from("connection reset")))
    );
}

#[test]
fn test_translate_stream_start() {
    assert_eq!(
        translate(RawNotification::StreamStart),
        Some(SessionEvent::StreamStarted)
    );
}

#[test]
fn test_translate_buffering_clamps_percent() {
    assert_eq!(
        translate(RawNotification::Buffering { percent: -5 }),
        Some(SessionEvent::Buffering(0))
    );
    assert_eq!(
        translate(RawNotification::Buffering { percent: 55 }),
        Some(SessionEvent::Buffering(55))
    );
    assert_eq!(
        translate(RawNotification::Buffering { percent: 150 }),
        Some(SessionEvent::Buffering(100))
    );
}

#[test]
fn test_translate_state_changed_filters_foreign_sources() {
    let own = RawNotification::StateChanged {
        previous: PipelineState::Paused,
        reported: PipelineState::Playing,
        from_session_pipeline: true,
    };
    assert_eq!(
        translate(own),
        Some(SessionEvent::StateChanged(PipelineState::Playing))
    );
    let foreign = RawNotification::StateChanged {
        previous: PipelineState::Paused,
        reported: PipelineState::Playing,
        from_session_pipeline: false,
    };
    assert_eq!(translate(foreign), None);
}

#[test]
fn test_translate_element_with_video_info() {
    let info = sample_video_info();
    assert_eq!(
        translate(RawNotification::Element { video: Some(info.clone()) }),
        Some(SessionEvent::VideoInfoReceived(info))
    );
    assert_eq!(translate(RawNotification::Element { video: None }), None);
}

#[test]
fn test_translate_other_is_dropped() {
    assert_eq!(translate(RawNotification::Other), None);
}

#[test]
fn test_queue_is_fifo_and_drops_nothing() {
    let mut queue = EventQueue::new();
    assert!(queue.is_empty());
    queue.push(SessionEvent::EndOfStream);
    queue.push(SessionEvent::Error(String::from("a")));
    queue.push(SessionEvent::ConnectionFailed);
    assert_eq!(queue.len(), 3);
    assert_eq!(queue.pop_front(), Some(SessionEvent::EndOfStream));
    assert_eq!(queue.pop_front(), Some(SessionEvent::Error(String::from("a"))));
    assert_eq!(queue.pop_front(), Some(SessionEvent::ConnectionFailed));
    assert_eq!(queue.pop_front(), None);
    assert!(queue.is_empty());
}

#[test]
fn test_reconnect_policy_increments_then_gives_up() {
    let mut policy = ReconnectState::new(2, 2);
    assert_eq!(policy.on_error(), RetryDecision::Retry(1));
    assert_eq!(policy.on_error(), RetryDecision::Retry(2));
    assert_eq!(policy.on_error(), RetryDecision::GiveUp);
    assert_eq!(policy.attempts, 3);
    policy.reset();
    assert_eq!(policy.attempts, 0);
    assert_eq!(policy.max_attempts, 2);
}

#[test]
fn test_intent_command_mapping() {
    assert_eq!(intent_command(Intent::Play), PipelineCmd::ToPlaying);
    assert_eq!(intent_command(Intent::Pause), PipelineCmd::ToPaused);
    assert_eq!(intent_command(Intent::Resume), PipelineCmd::ToPlaying);
    assert_eq!(intent_command(Intent::Stop), PipelineCmd::ToNull);
}

#[test]
fn test_seek_computes_fraction_of_duration() {
    let session = session_with_duration(10, 100);
    assert_eq!(session.seek(500), Some(PipelineCmd::SeekTo(50)));
    assert_eq!(session.seek(333), Some(PipelineCmd::SeekTo(33)));
    assert_eq!(session.seek(1000), Some(PipelineCmd::SeekTo(100)));
    assert_eq!(session.seek(0), Some(PipelineCmd::SeekTo(0)));
}

#[test]
fn test_seek_clamps_out_of_range() {
    let session = session_with_duration(10, 100);
    assert_eq!(
        session.seek(1500),
        Some(PipelineCmd::SeekTo(100)),
        "fractions above 1 are clamped to the full duration"
    );
    assert_eq!(
        session.seek(-44),
        Some(PipelineCmd::SeekTo(0)),
        "negative fractions are clamped to the start"
    );
    assert_eq!(session.seek(i64::MAX), Some(PipelineCmd::SeekTo(100)));
    assert_eq!(session.seek(i64::MIN), Some(PipelineCmd::SeekTo(0)));
}

#[test]
fn test_seek_without_duration_is_noop() {
    let session = session_with_duration(0, 0);
    assert_eq!(session.seek(500), None);
}

#[test]
fn test_position_tick_updates_and_clamps() {
    let mut session = session_with_duration(10, 100);
    assert_eq!(session.position.position_seconds, 10);
    assert_eq!(session.position.duration_seconds, 100);

    // A reported position past the duration is clamped, not propagated.
    session.position_tick(Some(130), Some(100));
    assert_eq!(session.position.position_seconds, 100);

    // A momentarily missing reading changes nothing.
    session.position_tick(None, Some(100));
    session.position_tick(Some(42), None);
    assert_eq!(session.position.position_seconds, 100);
    assert_eq!(session.position.duration_seconds, 100);
}

#[test]
fn test_position_tick_without_intent_is_ignored() {
    let mut session = PlaybackSession::new(String::from("rtsp://127.0.0.1:8554/live.sdp"), 5, 2);
    session.position_tick(Some(10), Some(100));
    assert_eq!(session.position.position_seconds, 0);
    assert_eq!(session.position.duration_seconds, 0);
}

#[test]
fn test_progress_permille() {
    assert_eq!(session_with_duration(0, 0).progress_permille(), None);
    assert_eq!(session_with_duration(10, 100).progress_permille(), Some(100));
    assert_eq!(session_with_duration(1, 3).progress_permille(), Some(333));
    assert_eq!(session_with_duration(100, 100).progress_permille(), Some(1000));
}

#[test]
fn test_video_info_stored_and_overwritten() {
    let mut session = session_with_duration(0, 0);
    let mut queue = EventQueue::new();
    let first = sample_video_info();
    queue.push(SessionEvent::VideoInfoReceived(first.clone()));
    session.drain_events(&mut queue);
    assert_eq!(session.video_info, Some(first));

    // The pipeline renegotiates: the newer metadata wins.
    let second = VideoInfo {
        width: 1280,
        height: 720,
        fps_num: 25,
        fps_den: 1,
        codec: String::from("H.265"),
    };
    queue.push(SessionEvent::VideoInfoReceived(second.clone()));
    session.drain_events(&mut queue);
    assert_eq!(session.video_info, Some(second));
}
