use mlab_movie_compressor::{
    classify_progress_line, eq_ignore_ascii_case, is_mp4_path, require_mp4, summarize_probe, ProbeStream,
    ProgressLine, DURATION_UNAVAILABLE, NOT_MP4, NO_VIDEO_STREAM,
};

fn stream(kind: Option<&str>, width: Option<u32>, height: Option<u32>) -> ProbeStream {
    ProbeStream { codec_type: kind.map(|k| k.to_string()), width, height }
}

#[test]
fn mp4_extension_in_any_case() {
    assert!(is_mp4_path("/videos/a.mp4"));
    assert!(is_mp4_path("C.MP4"));
    assert!(is_mp4_path("d.Mp4"));
    assert!(!is_mp4_path("e.mov"));
    assert!(!is_mp4_path("mp4"));
    assert!(!is_mp4_path("f.mp4.bak"));
    assert!(require_mp4("x.mp4").is_ok());
    assert_eq!(require_mp4("x.mkv").unwrap_err().message(), NOT_MP4);
}

#[test]
fn ascii_case_only() {
    assert!(eq_ignore_ascii_case("MP4", "mp4"));
    assert!(!eq_ignore_ascii_case("mp", "mp4"));
    assert!(!eq_ignore_ascii_case("ÀB", "àb"));
}

#[test]
fn summary_takes_first_video_stream() {
    let streams = vec![
        stream(Some("audio"), None, None),
        stream(Some("video"), Some(1920), Some(1080)),
        stream(Some("video"), Some(640), Some(480)),
    ];
    let summary = summarize_probe(Some(12.5f64.to_bits()), &streams).unwrap();
    assert_eq!(f64::from_bits(summary.duration_seconds_bits), 12.5);
    assert_eq!((summary.width, summary.height), (1920, 1080));
    assert!(summary.has_audio);
}

#[test]
fn summary_defaults_unknown_size_and_no_audio() {
    let streams = vec![stream(None, Some(5), Some(5)), stream(Some("video"), None, None), stream(Some("data"), None, None)];
    let summary = summarize_probe(Some(3.0f64.to_bits()), &streams).unwrap();
    assert_eq!((summary.width, summary.height), (0, 0));
    assert!(!summary.has_audio);
}

#[test]
fn summary_needs_positive_duration_first() {
    let video = vec![stream(Some("video"), Some(1), Some(1))];
    for bad in [None, Some(0.0f64.to_bits()), Some((-2.0f64).to_bits()), Some(f64::NAN.to_bits())] {
        assert_eq!(summarize_probe(bad, &video).unwrap_err().message(), DURATION_UNAVAILABLE);
    }
    assert_eq!(summarize_probe(None, &Vec::new()).unwrap_err().message(), DURATION_UNAVAILABLE);
    assert!(summarize_probe(Some(f64::INFINITY.to_bits()), &video).is_ok());
}

#[test]
fn summary_needs_a_video_stream() {
    let streams = vec![stream(Some("audio"), None, None), stream(Some("Video"), Some(2), Some(2))];
    assert_eq!(summarize_probe(Some(1.0f64.to_bits()), &streams).unwrap_err().message(), NO_VIDEO_STREAM);
}

#[test]
fn progress_lines_are_classified() {
    match classify_progress_line("out_time_us=1500000") {
        ProgressLine::OutTime(v) => assert_eq!(v, "1500000"),
        other => panic!("unexpected {:?}", other),
    }
    match classify_progress_line("out_time_ms=42") {
        ProgressLine::OutTime(v) => assert_eq!(v, "42"),
        other => panic!("unexpected {:?}", other),
    }
    match classify_progress_line("out_time_us=") {
        ProgressLine::OutTime(v) => assert_eq!(v, ""),
        other => panic!("unexpected {:?}", other),
    }
    assert!(matches!(classify_progress_line("progress=continue"), ProgressLine::Update));
    assert!(matches!(classify_progress_line("progress=end"), ProgressLine::Update));
    assert!(matches!(classify_progress_line("progress=ended"), ProgressLine::Other));
    assert!(matches!(classify_progress_line("out_time=00:00:01.5"), ProgressLine::Other));
    assert!(matches!(classify_progress_line(""), ProgressLine::Other));
}
