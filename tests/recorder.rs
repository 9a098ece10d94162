use honeybee::naming::recording_filename;
use honeybee::recorder::{
    keep_waiting, plan_save, saved_result, RecorderError, RecordingController, RecordingStatus,
    SavePlan, SessionState, Snapshot, StartOutcome,
};
use honeybee::wav::AudioFormat;

fn u16_at(b: &[u8], i: usize) -> u16 {
    u16::from_le_bytes([b[i], b[i + 1]])
}

fn u32_at(b: &[u8], i: usize) -> u32 {
    u32::from_le_bytes([b[i], b[i + 1], b[i + 2], b[i + 3]])
}

#[test]
fn end_to_end_one_second_mono() {
    let mut c = RecordingController::new();
    assert_eq!(c.start(), StartOutcome::Started);
    assert!(c.is_recording());
    c.set_format(AudioFormat::new(44100, 1));
    let chunk: Vec<i16> = vec![100; 441];
    for _ in 0..100 {
        c.append(&chunk);
    }
    assert!(c.request_stop().is_ok());
    assert!(c.stop_requested());
    c.finish_capture();
    assert!(!c.is_recording());
    let snap = c.snapshot();
    assert_eq!(snap.samples.len(), 44100);
    match plan_save(&snap) {
        SavePlan::Write { bytes, duration_ms } => {
            assert_eq!(duration_ms, 1000);
            assert_eq!(&bytes[0..4], b"RIFF");
            assert_eq!(&bytes[8..12], b"WAVE");
            assert_eq!(u16_at(&bytes, 22), 1);
            assert_eq!(u32_at(&bytes, 24), 44100);
            assert_eq!(u16_at(&bytes, 34), 16);
            assert_eq!(&bytes[36..40], b"data");
            assert_eq!(u32_at(&bytes, 40), 2 * 44100);
            assert_eq!(bytes.len(), 44 + 2 * 44100);
            let filename = recording_filename("20240101_120000");
            let path = format!("/music/honeybee-recordings/{}", filename);
            let r = saved_result(duration_ms, Ok((path.clone(), filename)));
            assert!(r.success);
            assert_eq!(r.duration_ms, 1000);
            assert!(r.error.is_none());
            assert!(!r.path.is_empty());
            assert!(r.path.ends_with(".wav"));
        }
        SavePlan::Report(_) => panic!("expected bytes to write"),
    }
}

#[test]
fn stop_with_no_samples_reports_failure() {
    let mut c = RecordingController::new();
    c.start();
    assert!(c.request_stop().is_ok());
    c.finish_capture();
    match plan_save(&c.snapshot()) {
        SavePlan::Report(r) => {
            assert!(!r.success);
            assert_eq!(r.error.as_deref(), Some("no audio data recorded"));
            assert_eq!(r.duration_ms, 0);
            assert!(r.path.is_empty());
            assert!(r.filename.is_empty());
        }
        SavePlan::Write { .. } => panic!("nothing was captured"),
    }
}

#[test]
fn stop_while_idle_fails_and_keeps_buffer() {
    let mut c = RecordingController::new();
    c.start();
    c.append(&[1, 2, 3]);
    c.request_stop().unwrap();
    c.finish_capture();
    assert_eq!(c.request_stop(), Err(RecorderError::NotRecording));
    assert_eq!(RecorderError::NotRecording.message(), "Not recording");
    assert_eq!(c.snapshot().samples, vec![1, 2, 3]);
    assert_eq!(c.state(), SessionState::Idle);
}

#[test]
fn start_while_recording_keeps_buffer() {
    let mut c = RecordingController::new();
    assert_eq!(c.start(), StartOutcome::Started);
    c.append(&[5, 6]);
    assert_eq!(c.start(), StartOutcome::AlreadyRecording);
    assert_eq!(c.snapshot().samples, vec![5, 6]);
    c.request_stop().unwrap();
    assert_eq!(c.start(), StartOutcome::AlreadyRecording);
    assert_eq!(c.state(), SessionState::Stopping);
    assert_eq!(StartOutcome::Started.message(), "Recording started");
    assert_eq!(StartOutcome::AlreadyRecording.message(), "Already recording");
}

#[test]
fn stop_while_stopping_fails() {
    let mut c = RecordingController::new();
    c.start();
    c.request_stop().unwrap();
    assert_eq!(c.request_stop(), Err(RecorderError::NotRecording));
}

#[test]
fn consecutive_sessions_do_not_share_samples() {
    let mut c = RecordingController::new();
    c.start();
    c.append(&[1, 2, 3, 4]);
    c.request_stop().unwrap();
    c.finish_capture();
    assert_eq!(c.start(), StartOutcome::Started);
    assert!(c.snapshot().samples.is_empty());
    c.append(&[9]);
    c.request_stop().unwrap();
    c.finish_capture();
    let snap = c.snapshot();
    assert_eq!(snap.samples, vec![9]);
    match plan_save(&snap) {
        SavePlan::Write { bytes, .. } => {
            assert_eq!(bytes.len(), 46);
            assert_eq!(&bytes[44..46], &[9, 0]);
        }
        SavePlan::Report(_) => panic!("expected bytes to write"),
    }
}

#[test]
fn samples_are_ignored_while_idle() {
    let mut c = RecordingController::new();
    c.append(&[1, 2]);
    c.set_format(AudioFormat::new(8000, 2));
    let snap = c.snapshot();
    assert!(snap.samples.is_empty());
    assert_eq!(snap.format, AudioFormat::new(44100, 1));
}

#[test]
fn setup_failure_returns_to_idle() {
    let mut c = RecordingController::new();
    c.start();
    c.finish_capture();
    assert!(!c.is_recording());
    assert_eq!(c.start(), StartOutcome::Started);
}

#[test]
fn unwritable_format_reports_failure() {
    let snap = Snapshot { samples: vec![1, 2], format: AudioFormat::new(44100, 0) };
    match plan_save(&snap) {
        SavePlan::Report(r) => {
            assert!(!r.success);
            assert_eq!(r.error.as_deref(), Some("unsupported audio format"));
            assert_eq!(r.duration_ms, 0);
        }
        SavePlan::Write { .. } => panic!("format has no channels"),
    }
}

#[test]
fn write_failure_keeps_duration() {
    let r = saved_result(1500, Err("Failed to write WAV file: denied".to_string()));
    assert!(!r.success);
    assert_eq!(r.duration_ms, 1500);
    assert_eq!(r.error.as_deref(), Some("Failed to write WAV file: denied"));
    assert!(r.path.is_empty());
    assert!(r.filename.is_empty());
}

#[test]
fn stop_wait_is_bounded() {
    assert!(keep_waiting(true, 0));
    assert!(keep_waiting(true, 99));
    assert!(!keep_waiting(true, 100));
    assert!(!keep_waiting(false, 0));
}

#[test]
fn progress_report() {
    let s = RecordingStatus::progress(1200);
    assert!(s.recording);
    assert_eq!(s.duration_ms, 1200);
}

#[test]
fn oversized_format_still_reports_duration() {
    let snap = Snapshot { samples: vec![0; 5_000_000], format: AudioFormat::new(2147483648, 2) };
    match plan_save(&snap) {
        SavePlan::Report(r) => {
            assert!(!r.success);
            assert_eq!(r.error.as_deref(), Some("unsupported audio format"));
            assert_eq!(r.duration_ms, 1);
            assert!(r.path.is_empty());
        }
        SavePlan::Write { .. } => panic!("byte rate does not fit the header"),
    }
}

// When the bounded wait runs out while the capture thread is still active,
// stop does not fail: it takes the snapshot anyway and saves what the buffer
// holds (the session stays Stopping until the capture thread ends). This
// keeps the bounded-wait-then-proceed behaviour rather than adding a
// distinct timeout error.
#[test]
fn stop_proceeds_when_wait_runs_out() {
    let mut c = RecordingController::new();
    c.start();
    c.append(&[7; 441]);
    c.request_stop().unwrap();
    let mut polls: u32 = 0;
    while keep_waiting(c.is_recording(), polls) {
        polls += 1;
    }
    assert_eq!(polls, 100);
    assert_eq!(c.state(), SessionState::Stopping);
    let snap = c.snapshot();
    assert_eq!(snap.samples.len(), 441);
    match plan_save(&snap) {
        SavePlan::Write { duration_ms, .. } => assert_eq!(duration_ms, 10),
        SavePlan::Report(_) => panic!("the captured samples are saved"),
    }
    assert!(c.start() == StartOutcome::AlreadyRecording);
    c.finish_capture();
    assert_eq!(c.state(), SessionState::Idle);
}
