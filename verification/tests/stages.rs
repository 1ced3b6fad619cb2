use rustymode::capture::{capture_continue_after_send, capture_step, CaptureAction, GrabOutcome};
use rustymode::detection::{
    detection_step, process_batch, AnalysisOutcome, DetectionAction, WarnLimiter,
};
use rustymode::frame::Frame;
use rustymode::recording::{recording_after_write, recording_step, RecordingAction, WriteOutcome};

fn frame(tag: u8, ts: u64) -> Frame {
    Frame::new(vec![tag, tag, tag], ts)
}

#[test]
fn capture_stops_on_cancellation() {
    let a = capture_step(true, GrabOutcome::Grabbed(frame(1, 10)), true);
    assert!(matches!(a, CaptureAction::Stop));
    let a = capture_step(true, GrabOutcome::TransientError, false);
    assert!(matches!(a, CaptureAction::Stop));
}

#[test]
fn capture_retries_on_transient_error() {
    let a = capture_step(false, GrabOutcome::TransientError, true);
    assert!(matches!(a, CaptureAction::Retry));
}

#[test]
fn capture_duplicates_only_while_streaming() {
    match capture_step(false, GrabOutcome::Grabbed(frame(7, 42)), true) {
        CaptureAction::Forward { frame: f, duplicate } => {
            assert_eq!(f.data, vec![7, 7, 7]);
            assert_eq!(f.timestamp_ms, 42);
            let d = duplicate.expect("streaming active: a duplicate is owed");
            assert_eq!(d.data, f.data);
            assert_eq!(d.timestamp_ms, f.timestamp_ms);
        }
        _ => panic!("a grabbed frame must be forwarded"),
    }
    match capture_step(false, GrabOutcome::Grabbed(frame(8, 43)), false) {
        CaptureAction::Forward { frame: f, duplicate } => {
            assert_eq!(f.data, vec![8, 8, 8]);
            assert!(duplicate.is_none());
        }
        _ => panic!("a grabbed frame must be forwarded"),
    }
}

#[test]
fn capture_stops_only_when_detection_side_closes() {
    assert!(!capture_continue_after_send(true, false));
    assert!(!capture_continue_after_send(true, true));
    assert!(capture_continue_after_send(false, true));
    assert!(capture_continue_after_send(false, false));
}

#[test]
fn detection_maps_each_outcome() {
    assert!(matches!(
        detection_step(true, AnalysisOutcome::NoMotion),
        DetectionAction::Stop
    ));
    assert!(matches!(
        detection_step(false, AnalysisOutcome::NoMotion),
        DetectionAction::Discard
    ));
    assert!(matches!(
        detection_step(false, AnalysisOutcome::Terminal),
        DetectionAction::Stop
    ));
    match detection_step(false, AnalysisOutcome::Motion(frame(3, 5))) {
        DetectionAction::Forward(f) => {
            assert_eq!(f.data, vec![3, 3, 3]);
            assert_eq!(f.timestamp_ms, 5);
        }
        _ => panic!("motion must be forwarded"),
    }
}

#[test]
fn detection_forwards_motion_frames_in_order() {
    let outcomes = vec![
        AnalysisOutcome::Motion(frame(1, 100)),
        AnalysisOutcome::NoMotion,
        AnalysisOutcome::Motion(frame(2, 200)),
        AnalysisOutcome::NoMotion,
        AnalysisOutcome::Motion(frame(3, 300)),
    ];
    let forwarded = process_batch(outcomes);
    assert_eq!(forwarded.len(), 3);
    assert_eq!(forwarded[0].data, vec![1, 1, 1]);
    assert_eq!(forwarded[1].data, vec![2, 2, 2]);
    assert_eq!(forwarded[2].data, vec![3, 3, 3]);
}

#[test]
fn detection_stops_at_terminal() {
    let outcomes = vec![
        AnalysisOutcome::Motion(frame(1, 1)),
        AnalysisOutcome::Terminal,
        AnalysisOutcome::Motion(frame(2, 2)),
    ];
    let forwarded = process_batch(outcomes);
    assert_eq!(forwarded.len(), 1);
    assert_eq!(forwarded[0].data, vec![1, 1, 1]);
}

#[test]
fn warn_limiter_suppresses_within_window() {
    let mut limiter = WarnLimiter::new();
    assert!(limiter.note_send_failure(10_001));
    assert!(!limiter.note_send_failure(10_002));
    assert!(!limiter.note_send_failure(20_001));
    assert!(limiter.note_send_failure(20_002));
}

#[test]
fn recording_appends_until_channel_closes() {
    match recording_step(Some(frame(9, 900))) {
        RecordingAction::Append(f) => assert_eq!(f.data, vec![9, 9, 9]),
        _ => panic!("a received frame must be appended"),
    }
    assert!(matches!(recording_step(None), RecordingAction::Stop));
}

#[test]
fn recording_warns_but_continues_on_write_error() {
    assert!(!recording_after_write(WriteOutcome::Written));
    assert!(recording_after_write(WriteOutcome::WriteError));
}

#[test]
fn frame_duplicate_is_independent() {
    let f = frame(5, 77);
    let d = f.duplicate();
    assert_eq!(d.data, f.data);
    assert_eq!(d.timestamp_ms, 77);
}
