use mlab_movie_compressor::{
    decimal_string, is_pass_log, is_positive, is_positive_finite, null_device, output_directory, pass_log_prefix,
    resolve_tool_path, AppError, CompressionResult,
};

#[test]
fn error_keeps_its_message() {
    let e = AppError::user("だめ");
    assert_eq!(e.message(), "だめ");
    assert_eq!(e.to_message_string(), "だめ".to_string());
}

#[test]
fn decimal_matches_to_string() {
    for n in [0u64, 7, 10, 96_000, 1_234_567, u64::MAX] {
        assert_eq!(decimal_string(n), n.to_string());
    }
}

#[test]
fn float_sign_and_finiteness() {
    assert!(is_positive(1.0f64.to_bits()));
    assert!(is_positive(f64::INFINITY.to_bits()));
    assert!(!is_positive(0.0f64.to_bits()));
    assert!(!is_positive((-0.0f64).to_bits()));
    assert!(!is_positive(f64::NAN.to_bits()));
    assert!(!is_positive((-f64::NAN).to_bits()));
    assert!(is_positive_finite(f64::MAX.to_bits()));
    assert!(!is_positive_finite(f64::INFINITY.to_bits()));
    assert!(!is_positive_finite((-1.0f64).to_bits()));
}

#[test]
fn null_device_per_platform() {
    assert_eq!(null_device(true), "NUL");
    assert_eq!(null_device(false), "/dev/null");
}

#[test]
fn tool_path_prefers_override() {
    assert_eq!(resolve_tool_path(Some("/opt/ffmpeg".to_string()), "ffmpeg", true), "/opt/ffmpeg");
    assert_eq!(resolve_tool_path(None, "ffmpeg", true), "ffmpeg.exe");
    assert_eq!(resolve_tool_path(None, "ffprobe", false), "ffprobe");
}

#[test]
fn output_directory_defaults_to_input_folder() {
    assert_eq!(output_directory("/videos/a.mp4", ""), "/videos");
    assert_eq!(output_directory("/videos/a.mp4", "/out"), "/out");
    assert_eq!(output_directory("a.mp4", ""), "");
    assert_eq!(output_directory("/", ""), ".");
}

#[test]
fn pass_logs_share_the_prefix() {
    let prefix = pass_log_prefix(4242);
    assert_eq!(prefix, "mlab-pass-4242");
    assert!(is_pass_log("mlab-pass-4242-0.log", &prefix));
    assert!(is_pass_log("mlab-pass-4242-0.log.mbtree", &prefix));
    assert!(!is_pass_log("mlab-pass-42-0.log", &prefix));
    assert!(!is_pass_log("other.log", &prefix));
}

#[test]
fn compression_result_carries_values() {
    let r = CompressionResult { output_path: "/o.mp4".to_string(), output_size_bytes: 9 };
    assert_eq!(r.output_path, "/o.mp4");
    assert_eq!(r.output_size_bytes, 9);
}
