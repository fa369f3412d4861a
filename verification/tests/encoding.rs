use mlab_movie_compressor::{
    next_candidate_step, CandidateStep, CANDIDATE_LIMIT,
    output_path, plan_bitrate, validate_budget_inputs, AppError, BitratePlan, AUDIO_BITRATE,
    BUDGET_TOO_SMALL, INVALID_BUDGET_INPUT, NO_FREE_OUTPUT_NAME, OUTPUT_DIR_UNAVAILABLE,
};

/// The whole budget computation as the application runs it: the inputs are
/// checked by the library, the floating-point division is done by the caller,
/// and the library splits the result.
fn calculate_bitrate(target_mb: f64, duration_seconds: f64, has_audio: bool) -> Result<BitratePlan, AppError> {
    validate_budget_inputs(target_mb.to_bits(), duration_seconds.to_bits())?;
    let total_bps = (target_mb * 1_000_000.0 * 8.0 * 0.94 / duration_seconds).floor() as u64;
    plan_bitrate(total_bps, has_audio)
}

fn file_name_of(path: &str) -> String {
    std::path::Path::new(path).file_name().unwrap().to_string_lossy().into_owned()
}

#[test]
fn budget_reserves_audio_overhead_and_margin() {
    let plan = calculate_bitrate(10.0, 60.0, true).unwrap();
    assert_eq!(plan.audio_bps, AUDIO_BITRATE);
    assert!(plan.video_bps > 1_000_000);
}

#[test]
fn rejects_unworkably_small_budgets() {
    assert!(calculate_bitrate(0.001, 60.0, true).is_err());
}

#[test]
fn creates_a_non_overwriting_name() {
    let directory = tempfile::tempdir().unwrap();
    let _input = tempfile::Builder::new().prefix("sample").suffix(".mp4").rand_bytes(0).tempfile_in(directory.path()).unwrap();
    let _taken = tempfile::Builder::new()
        .prefix("sample_compressed")
        .suffix(".mp4")
        .rand_bytes(0)
        .tempfile_in(directory.path())
        .unwrap();
    let input = directory.path().join("sample.mp4");
    let dir = directory.path().to_str().unwrap();
    let chosen = output_path(input.to_str().unwrap(), dir).result.unwrap();
    assert_eq!(file_name_of(&chosen), "sample_compressed_2.mp4");
}

#[test]
fn plan_splits_exact_budget() {
    let plan = plan_bitrate(1_000_000, true).unwrap();
    assert_eq!(plan.audio_bps, 96_000);
    assert_eq!(plan.video_bps, 1_000_000 - 96_000 - 12_000);
    let plan = plan_bitrate(1_000_000, false).unwrap();
    assert_eq!(plan.audio_bps, 0);
    assert_eq!(plan.video_bps, 1_000_000 - 12_000);
}

#[test]
fn plan_accepts_exact_minimum_and_rejects_one_below() {
    let plan = plan_bitrate(96_000 + 12_000 + 10_000, true).unwrap();
    assert_eq!(plan.video_bps, 10_000);
    let err = plan_bitrate(96_000 + 12_000 + 9_999, true).unwrap_err();
    assert_eq!(err.message(), BUDGET_TOO_SMALL);
    let err = plan_bitrate(0, false).unwrap_err();
    assert_eq!(err.message(), BUDGET_TOO_SMALL);
}

#[test]
fn plan_never_exceeds_budget() {
    for total in [118_000u64, 200_000, 1_234_567, u64::MAX] {
        for has_audio in [true, false] {
            if let Ok(plan) = plan_bitrate(total, has_audio) {
                assert_eq!(plan.video_bps + plan.audio_bps + 12_000, total);
            }
        }
    }
}

#[test]
fn larger_budget_is_never_refused() {
    assert!(plan_bitrate(118_000, true).is_ok());
    assert!(plan_bitrate(118_001, true).unwrap().video_bps >= plan_bitrate(118_000, true).unwrap().video_bps);
}

#[test]
fn budget_inputs_must_be_positive_and_finite() {
    assert!(validate_budget_inputs(10.0f64.to_bits(), 60.0f64.to_bits()).is_ok());
    assert!(validate_budget_inputs(f64::MIN_POSITIVE.to_bits(), 5e-324f64.to_bits()).is_ok());
    for bad in [0.0f64, -0.0, -1.0, f64::NAN, f64::INFINITY, f64::NEG_INFINITY] {
        let err = validate_budget_inputs(bad.to_bits(), 60.0f64.to_bits()).unwrap_err();
        assert_eq!(err.message(), INVALID_BUDGET_INPUT);
        let err = validate_budget_inputs(10.0f64.to_bits(), bad.to_bits()).unwrap_err();
        assert_eq!(err.message(), INVALID_BUDGET_INPUT);
    }
}

#[test]
fn output_path_uses_plain_name_when_free() {
    let directory = tempfile::tempdir().unwrap();
    let input = directory.path().join("clip.MP4");
    let dir = directory.path().to_str().unwrap();
    let chosen = output_path(input.to_str().unwrap(), dir).result.unwrap();
    assert_eq!(file_name_of(&chosen), "clip_compressed.mp4");
    assert_eq!(std::path::Path::new(&chosen).parent().unwrap(), directory.path());
}

#[test]
fn output_path_skips_taken_numbers() {
    let directory = tempfile::tempdir().unwrap();
    let mut held = Vec::new();
    for prefix in ["movie_compressed", "movie_compressed_2", "movie_compressed_3"] {
        held.push(
            tempfile::Builder::new().prefix(prefix).suffix(".mp4").rand_bytes(0).tempfile_in(directory.path()).unwrap(),
        );
    }
    let dir = directory.path().to_str().unwrap();
    let chosen = output_path("/elsewhere/movie.mp4", dir).result.unwrap();
    assert_eq!(file_name_of(&chosen), "movie_compressed_4.mp4");
}

#[test]
fn output_path_falls_back_to_video_stem() {
    let directory = tempfile::tempdir().unwrap();
    let dir = directory.path().to_str().unwrap();
    let chosen = output_path("", dir).result.unwrap();
    assert_eq!(file_name_of(&chosen), "video_compressed.mp4");
}

#[test]
fn output_path_requires_a_directory() {
    let directory = tempfile::tempdir().unwrap();
    let missing = directory.path().join("missing");
    let err = output_path("a.mp4", missing.to_str().unwrap()).result.unwrap_err();
    assert_eq!(err.message(), OUTPUT_DIR_UNAVAILABLE);
    let file = tempfile::Builder::new().suffix(".mp4").tempfile_in(directory.path()).unwrap();
    let err = output_path("a.mp4", file.path().to_str().unwrap()).result.unwrap_err();
    assert_eq!(err.message(), OUTPUT_DIR_UNAVAILABLE);
    assert_ne!(NO_FREE_OUTPUT_NAME, OUTPUT_DIR_UNAVAILABLE);
}

#[test]
fn candidate_steps_follow_existence() {
    assert_eq!(next_candidate_step(1, false), CandidateStep::Take);
    assert_eq!(next_candidate_step(1, true), CandidateStep::Try(2));
    assert_eq!(next_candidate_step(9_998, true), CandidateStep::Try(9_999));
    assert_eq!(next_candidate_step(CANDIDATE_LIMIT - 1, true), CandidateStep::GiveUp);
    assert_eq!(next_candidate_step(CANDIDATE_LIMIT - 1, false), CandidateStep::Take);
}

#[test]
fn search_records_what_it_asked() {
    let directory = tempfile::tempdir().unwrap();
    let mut held = Vec::new();
    for prefix in ["take_compressed", "take_compressed_2"] {
        held.push(
            tempfile::Builder::new().prefix(prefix).suffix(".mp4").rand_bytes(0).tempfile_in(directory.path()).unwrap(),
        );
    }
    let dir = directory.path().to_str().unwrap();
    let search = output_path("take.mp4", dir);
    assert!(search.directory.is_dir());
    assert_eq!(search.directory.path(), dir);
    let names: Vec<String> = search.asked.iter().map(|c| file_name_of(c.path())).collect();
    assert_eq!(names, vec!["take_compressed.mp4", "take_compressed_2.mp4", "take_compressed_3.mp4"]);
    let answers: Vec<bool> = search.asked.iter().map(|c| c.was_present()).collect();
    assert_eq!(answers, vec![true, true, false]);
    assert_eq!(search.result.unwrap(), search.asked[2].path());

    let missing = directory.path().join("nowhere");
    let refused = output_path("take.mp4", missing.to_str().unwrap());
    assert!(!refused.directory.is_dir());
    assert!(refused.asked.is_empty());
    assert_eq!(refused.result.unwrap_err().message(), OUTPUT_DIR_UNAVAILABLE);
}
