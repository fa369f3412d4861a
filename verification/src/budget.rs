use vstd::prelude::*;

use crate::error::AppError;
use crate::float_bits::{encodes_finite, encodes_positive, is_positive_finite};

verus! {

/// Audio bitrate (bits per second) reserved when the video has an audio track.
pub const AUDIO_BITRATE: u64 = 96_000;

/// Bits per second kept back for the MP4 container's own data.
pub const CONTAINER_OVERHEAD: u64 = 12_000;

/// The lowest video bitrate (bits per second) that is still encoded.
pub const MIN_VIDEO_BITRATE: u64 = 10_000;

/// Error when the target size or the duration is not a positive finite number.
pub const INVALID_BUDGET_INPUT: &'static str = "目標サイズまたは動画の長さが正しくありません。";

/// Error when the budget leaves less than the minimum video bitrate.
pub const BUDGET_TOO_SMALL: &'static str = "目標サイズが小さすぎるため、圧縮設定を計算できません。目標サイズを大きくしてください。";

/// Bitrates for the two-pass encode.
#[derive(Debug, Clone, Copy)]
pub struct BitratePlan {
    pub video_bps: u64,
    pub audio_bps: u64,
}

/// The audio bitrate reserved for a video with or without an audio track.
pub open spec fn audio_bitrate_for(has_audio: bool) -> nat {
    if has_audio { AUDIO_BITRATE as nat } else { 0 }
}

/// What is left for video out of `total_bps` once audio and container
/// overhead are reserved (never below zero).
pub open spec fn video_budget(total_bps: nat, has_audio: bool) -> nat {
    let reserved = audio_bitrate_for(has_audio) + CONTAINER_OVERHEAD;
    if total_bps >= reserved { (total_bps - reserved) as nat } else { 0 }
}

/// Whether a total bitrate leaves enough for the video stream.
pub open spec fn budget_is_workable(total_bps: nat, has_audio: bool) -> bool {
    video_budget(total_bps, has_audio) >= MIN_VIDEO_BITRATE
}

/// Checks the target size (megabytes) and the duration (seconds), both given
/// as binary64 bit patterns: each must be finite and greater than zero.
pub fn validate_budget_inputs(target_mb_bits: u64, duration_seconds_bits: u64) -> (r: Result<(), AppError>)
    ensures
        r is Ok <==> (encodes_positive(target_mb_bits) && encodes_finite(target_mb_bits)
            && encodes_positive(duration_seconds_bits) && encodes_finite(duration_seconds_bits)),
        r matches Err(e) ==> e@ == INVALID_BUDGET_INPUT@,
{
    if !is_positive_finite(target_mb_bits) || !is_positive_finite(duration_seconds_bits) {
        return Err(AppError::user(INVALID_BUDGET_INPUT));
    }
    Ok(())
}

/// Splits a total bitrate (bits per second, already reduced by the safety
/// margin) between video and audio.
pub fn plan_bitrate(total_bps: u64, has_audio: bool) -> (r: Result<BitratePlan, AppError>)
    ensures
        r is Ok <==> budget_is_workable(total_bps as nat, has_audio),
        r matches Ok(plan) ==> {
            &&& plan.audio_bps == audio_bitrate_for(has_audio)
            &&& plan.video_bps == video_budget(total_bps as nat, has_audio)
            &&& plan.video_bps >= MIN_VIDEO_BITRATE
            &&& plan.video_bps + plan.audio_bps + CONTAINER_OVERHEAD == total_bps
        },
        r matches Err(e) ==> e@ == BUDGET_TOO_SMALL@,
        r is Ok <==> total_bps >= (if has_audio { 96_000int } else { 0int }) + 12_000 + 10_000,
        r matches Ok(plan) ==> {
            &&& plan.audio_bps == (if has_audio { 96_000u64 } else { 0u64 })
            &&& plan.video_bps + plan.audio_bps + 12_000 == total_bps
        },
{
    let audio_bps: u64 = if has_audio { AUDIO_BITRATE } else { 0 };
    let video_bps = total_bps.saturating_sub(audio_bps + CONTAINER_OVERHEAD);
    if video_bps < MIN_VIDEO_BITRATE {
        return Err(AppError::user(BUDGET_TOO_SMALL));
    }
    Ok(BitratePlan { video_bps, audio_bps })
}

/// A budget is refused exactly when, after reserving the audio actually
/// carried (none for a silent video) and the container overhead, less than
/// the minimum video bitrate would be left; an accepted budget gives video
/// everything else.
pub proof fn lemma_refusal_threshold(total_bps: nat, has_audio: bool)
    ensures
        budget_is_workable(total_bps, has_audio) <==> total_bps >= (if has_audio { 96_000int } else { 0int }) + 22_000,
        budget_is_workable(total_bps, has_audio) ==> video_budget(total_bps, has_audio) == total_bps - (if has_audio {
            96_000int
        } else {
            0int
        }) - 12_000,
        audio_bitrate_for(has_audio) == (if has_audio { 96_000nat } else { 0nat }),
{
}

/// A larger total budget is never refused where a smaller one was accepted,
/// and never leaves less for the video stream.
pub proof fn lemma_more_budget_never_hurts(smaller: nat, larger: nat, has_audio: bool)
    requires
        smaller <= larger,
        budget_is_workable(smaller, has_audio),
    ensures
        budget_is_workable(larger, has_audio),
        video_budget(smaller, has_audio) <= video_budget(larger, has_audio),
{
}

/// An accepted plan never spends more than the total budget, and reserves
/// exactly the container overhead besides audio and video.
pub proof fn lemma_plan_fills_budget(total_bps: nat, has_audio: bool)
    requires
        budget_is_workable(total_bps, has_audio),
    ensures
        video_budget(total_bps, has_audio) + audio_bitrate_for(has_audio) + CONTAINER_OVERHEAD == total_bps,
        video_budget(total_bps, has_audio) + audio_bitrate_for(has_audio) <= total_bps,
{
}

} // verus!
