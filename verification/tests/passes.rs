use mlab_movie_compressor::{
    check_taken_process, failure_error, first_pass_args, second_pass_args, with_reporting_options, BitratePlan,
    JobControl, PassEvent, PassMonitor, PassOutcome, ProcessKind, CANCELLED, DISK_FULL, ENCODE_FAILED, INVALID_PROCESS_STATE,
};

fn strs(v: &[String]) -> Vec<&str> {
    v.iter().map(|s| s.as_str()).collect()
}

#[test]
fn first_pass_analyses_video_only() {
    let plan = BitratePlan { video_bps: 1_234_000, audio_bps: 96_000 };
    let args = first_pass_args("in.mp4", &plan, "/tmp/mlab-pass-7", "/dev/null");
    assert_eq!(
        strs(&args),
        vec![
            "-y", "-i", "in.mp4", "-map", "0:v:0", "-c:v", "libx264", "-b:v", "1234000", "-pass", "1",
            "-passlogfile", "/tmp/mlab-pass-7", "-an", "-f", "null", "/dev/null",
        ]
    );
}

#[test]
fn second_pass_adds_audio_only_when_present() {
    let plan = BitratePlan { video_bps: 500_000, audio_bps: 96_000 };
    let with_audio = second_pass_args("in.mp4", &plan, "p", true, "out.mp4");
    assert_eq!(
        strs(&with_audio),
        vec![
            "-y", "-i", "in.mp4", "-map", "0:v:0", "-map", "0:a?", "-c:v", "libx264", "-b:v", "500000", "-pass",
            "2", "-passlogfile", "p", "-movflags", "+faststart", "-c:a", "aac", "-b:a", "96000", "out.mp4",
        ]
    );
    let silent = BitratePlan { video_bps: 10_000, audio_bps: 0 };
    let without_audio = second_pass_args("in.mp4", &silent, "p", false, "out.mp4");
    assert_eq!(
        strs(&without_audio),
        vec![
            "-y", "-i", "in.mp4", "-map", "0:v:0", "-map", "0:a?", "-c:v", "libx264", "-b:v", "10000", "-pass", "2",
            "-passlogfile", "p", "-movflags", "+faststart", "out.mp4",
        ]
    );
}

#[test]
fn reporting_options_come_first() {
    let full = with_reporting_options(vec!["-y".to_string(), "x".to_string()]);
    assert_eq!(strs(&full), vec!["-v", "error", "-progress", "pipe:1", "-nostats", "-y", "x"]);
}

#[test]
fn monitor_collects_errors_and_exit_status() {
    let mut monitor = PassMonitor::new();
    assert_eq!(monitor.on_event(PassEvent::Stdout(b"out_time_us=5".to_vec())), Some(b"out_time_us=5".to_vec()));
    assert_eq!(monitor.on_event(PassEvent::Stderr(b"bad frame".to_vec())), None);
    assert_eq!(monitor.on_event(PassEvent::Error(b"pipe closed".to_vec())), None);
    assert_eq!(monitor.on_event(PassEvent::Other), None);
    assert_eq!(monitor.stderr, b"bad frame\npipe closed\n".to_vec());
    assert!(!monitor.success);
    monitor.on_event(PassEvent::Terminated(Some(0)));
    assert!(monitor.success);
    assert!(matches!(monitor.finish(true, false), PassOutcome::Completed));
}

#[test]
fn monitor_reports_failure_with_log() {
    let mut monitor = PassMonitor::new();
    monitor.on_event(PassEvent::Stderr(b"No space left on device".to_vec()));
    monitor.on_event(PassEvent::Terminated(Some(1)));
    match monitor.finish(true, false) {
        PassOutcome::Failed(log) => assert_eq!(log, b"No space left on device\n".to_vec()),
        other => panic!("unexpected outcome {:?}", other),
    }
    let mut killed = PassMonitor::new();
    killed.on_event(PassEvent::Terminated(None));
    assert!(!killed.success);
}

#[test]
fn cancellation_wins_over_result() {
    let mut monitor = PassMonitor::new();
    monitor.on_event(PassEvent::Terminated(Some(0)));
    assert!(matches!(monitor.finish(false, false), PassOutcome::Cancelled));
    let failed = PassMonitor::new();
    assert!(matches!(failed.finish(false, false), PassOutcome::Cancelled));
}

#[test]
fn taken_process_decides_how_to_go_on() {
    assert!(check_taken_process(Some(ProcessKind::Development)).is_ok());
    assert_eq!(check_taken_process(None).unwrap_err().message(), CANCELLED);
    assert_eq!(check_taken_process(Some(ProcessKind::Sidecar)).unwrap_err().message(), INVALID_PROCESS_STATE);
}

#[test]
fn full_disk_is_recognised() {
    assert_eq!(failure_error(b"x264 error: No space left on device\n").message(), DISK_FULL);
    assert_eq!(failure_error(b"There is not enough space on the disk.").message(), DISK_FULL);
    assert_eq!(failure_error(b"\xff\xfeNo space left on device").message(), DISK_FULL);
    assert_eq!(failure_error(b"Invalid data found when processing input").message(), ENCODE_FAILED);
    assert_eq!(failure_error(b"No space left on devic").message(), ENCODE_FAILED);
    assert_eq!(failure_error(b"").message(), ENCODE_FAILED);
}

#[test]
fn cancel_between_passes_stops_the_next_pass() {
    let mut control = JobControl::new();
    assert!(control.before_pass().is_ok());
    control.request_cancel();
    assert_eq!(control.before_pass().unwrap_err().message(), CANCELLED);
    assert_eq!(control.before_pass().unwrap_err().message(), CANCELLED);
    control.start_job();
    assert!(control.before_pass().is_ok());
    assert!(!JobControl::default().cancel_requested);
}

#[test]
fn late_cancel_still_ends_the_pass_and_job() {
    let mut monitor = PassMonitor::new();
    monitor.on_event(PassEvent::Terminated(Some(0)));
    assert!(matches!(monitor.finish(true, true), PassOutcome::Cancelled));
    let mut control = JobControl::new();
    assert!(control.finish_job(Ok(())).is_ok());
    control.request_cancel();
    assert_eq!(control.finish_job(Ok(())).unwrap_err().message(), CANCELLED);
    let failed = mlab_movie_compressor::AppError::user("x");
    assert_eq!(control.finish_job(Err(failed)).unwrap_err().message(), CANCELLED);
    control.start_job();
    assert_eq!(control.finish_job(Err(mlab_movie_compressor::AppError::user("x"))).unwrap_err().message(), "x");
}
