//! Core logic of a desktop tool that compresses an MP4 video to fit under a
//! target file size: bitrate budgeting, output naming, encoder arguments,
//! progress and failure interpretation, probe summaries and the
//! recently-used size history.

mod budget;
mod encoder;
mod error;
mod float_bits;
mod media;
mod output;
mod pass_monitor;
mod paths;
mod platform;
mod progress;
mod settings;
mod text;

pub use error::AppError;
pub use text::{
    decimal_digits, decimal_string, digit_char, lemma_decimal_digits_injective,
    lemma_decimal_digits_nonempty,
};
pub use float_bits::{
    encodes_finite, encodes_nan, encodes_positive, encodes_zero, exponent_field, fraction_field,
    is_positive, is_positive_finite, sign_bit, POSITIVE_INFINITY_BITS,
};
pub use budget::{
    audio_bitrate_for, budget_is_workable, lemma_more_budget_never_hurts, lemma_plan_fills_budget, lemma_refusal_threshold,
    plan_bitrate, validate_budget_inputs, video_budget, BitratePlan, AUDIO_BITRATE, BUDGET_TOO_SMALL,
    CONTAINER_OVERHEAD, INVALID_BUDGET_INPUT, MIN_VIDEO_BITRATE,
};
pub use paths::{
    option_view, path_extension, path_file_stem, path_join, path_parent, DirectoryCheck, ExistenceCheck,
};
pub use output::{
    all_taken, answers_of, candidate_name, is_first_free, is_pass_log, lemma_candidate_names_distinct, lemma_output_name_keeps_whole_stem, OutputSearch, next_candidate_step, output_directory,
    output_directory_spec, output_path, pass_log_prefix, pass_log_prefix_spec, stem_or_default, CandidateStep,
    CANDIDATE_LIMIT, NO_FREE_OUTPUT_NAME, OUTPUT_DIR_UNAVAILABLE,
};
pub use settings::{
    keep_recent, lemma_history_keeps_latest, lemma_trim_once, record_each, validate_target_size, Settings,
    INVALID_TARGET_SIZE, RECENT_LIMIT,
};
pub use encoder::{
    audio_options_spec, first_pass_args, lemma_paths_passed_verbatim, first_pass_spec, reporting_options_spec, second_pass_args,
    second_pass_spec, with_reporting_options,
};
pub use progress::{after_prefix, classify_progress_line, is_update_line, out_time_value, ProgressLine};
pub use pass_monitor::{
    ascii_bytes, check_taken_process, lemma_disk_full_phrase_anywhere, contains_bytes, failure_error, line_of, occurs_at, reports_disk_full,
    JobControl, PassEvent, PassMonitor, PassOutcome, ProcessKind, CANCELLED, DISK_FULL, ENCODE_FAILED,
    INVALID_PROCESS_STATE,
};
pub use media::{
    ascii_lower_code, eq_ignore_ascii_case, eq_ignore_ascii_case_spec, has_audio_stream, has_codec_type,
    has_video_stream, is_first_video, lemma_audio_found_anywhere, lemma_mp4_extension_cases, is_mp4_path, is_mp4_spec, require_mp4, summarize_probe, ProbeStream,
    ProbeSummary, DURATION_UNAVAILABLE, NOT_MP4, NO_VIDEO_STREAM,
};
pub use platform::{null_device, null_device_spec, resolve_tool_path, tool_path_spec, CompressionResult};
