use vstd::prelude::*;

use crate::budget::BitratePlan;
use crate::text::{decimal_digits, decimal_string, push_text};

verus! {

/// Arguments of the first (analysis) pass: video only, written to the null
/// device, with the pass log under `prefix`.
pub open spec fn first_pass_spec(input: Seq<char>, video_bps: nat, prefix: Seq<char>, null_device: Seq<char>) -> Seq<Seq<char>> {
    seq![
        "-y"@, "-i"@, input, "-map"@, "0:v:0"@, "-c:v"@, "libx264"@, "-b:v"@, decimal_digits(video_bps),
        "-pass"@, "1"@, "-passlogfile"@, prefix, "-an"@, "-f"@, "null"@, null_device,
    ]
}

/// The audio options of the second pass: AAC at the planned bitrate when the
/// input has audio, none otherwise.
pub open spec fn audio_options_spec(has_audio: bool, audio_bps: nat) -> Seq<Seq<char>> {
    if has_audio {
        seq!["-c:a"@, "aac"@, "-b:a"@, decimal_digits(audio_bps)]
    } else {
        Seq::empty()
    }
}

/// Arguments of the second (encoding) pass, ending with the output path.
pub open spec fn second_pass_spec(
    input: Seq<char>,
    video_bps: nat,
    audio_bps: nat,
    prefix: Seq<char>,
    has_audio: bool,
    output: Seq<char>,
) -> Seq<Seq<char>> {
    seq![
        "-y"@, "-i"@, input, "-map"@, "0:v:0"@, "-map"@, "0:a?"@, "-c:v"@, "libx264"@, "-b:v"@,
        decimal_digits(video_bps), "-pass"@, "2"@, "-passlogfile"@, prefix, "-movflags"@, "+faststart"@,
    ] + audio_options_spec(has_audio, audio_bps) + seq![output]
}

/// The options put before every pass so that the encoder reports errors only
/// and writes machine-readable progress to standard output.
pub open spec fn reporting_options_spec() -> Seq<Seq<char>> {
    seq!["-v"@, "error"@, "-progress"@, "pipe:1"@, "-nostats"@]
}

/// The paths handed to the encoder appear verbatim, each as one whole
/// argument: the input right after `-i`, the pass log prefix after
/// `-passlogfile`, and the output (or the null device) last.
pub proof fn lemma_paths_passed_verbatim(
    input: Seq<char>,
    video_bps: nat,
    audio_bps: nat,
    prefix: Seq<char>,
    null_device: Seq<char>,
    has_audio: bool,
    output: Seq<char>,
)
    ensures
        first_pass_spec(input, video_bps, prefix, null_device).len() == 17,
        first_pass_spec(input, video_bps, prefix, null_device)[2] == input,
        first_pass_spec(input, video_bps, prefix, null_device)[12] == prefix,
        first_pass_spec(input, video_bps, prefix, null_device)[16] == null_device,
        second_pass_spec(input, video_bps, audio_bps, prefix, has_audio, output)[2] == input,
        second_pass_spec(input, video_bps, audio_bps, prefix, has_audio, output)[14] == prefix,
        ({
            let s = second_pass_spec(input, video_bps, audio_bps, prefix, has_audio, output);
            s[s.len() - 1] == output
        }),
{
}

fn push_decimal(v: &mut Vec<String>, n: u64)
    ensures
        final(v).deep_view() == old(v).deep_view().push(decimal_digits(n as nat)),
{
    v.push(decimal_string(n));
    assert(v.deep_view() =~= old(v).deep_view().push(decimal_digits(n as nat)));
}

/// Encoder arguments of the first pass.
pub fn first_pass_args(input: &str, plan: &BitratePlan, prefix: &str, null_device: &str) -> (args: Vec<String>)
    ensures
        args.deep_view() == first_pass_spec(input@, plan.video_bps as nat, prefix@, null_device@),
        args.deep_view().len() == 17,
        args.deep_view()[1] == "-i"@,
        args.deep_view()[2] == input@,
        args.deep_view()[7] == "-b:v"@,
        args.deep_view()[8] == decimal_digits(plan.video_bps as nat),
        args.deep_view()[12] == prefix@,
        args.deep_view()[13] == "-an"@,
        args.deep_view()[16] == null_device@,
{
    let mut args: Vec<String> = Vec::new();
    push_text(&mut args, "-y");
    push_text(&mut args, "-i");
    push_text(&mut args, input);
    push_text(&mut args, "-map");
    push_text(&mut args, "0:v:0");
    push_text(&mut args, "-c:v");
    push_text(&mut args, "libx264");
    push_text(&mut args, "-b:v");
    push_decimal(&mut args, plan.video_bps);
    push_text(&mut args, "-pass");
    push_text(&mut args, "1");
    push_text(&mut args, "-passlogfile");
    push_text(&mut args, prefix);
    push_text(&mut args, "-an");
    push_text(&mut args, "-f");
    push_text(&mut args, "null");
    push_text(&mut args, null_device);
    assert(args.deep_view() =~= first_pass_spec(input@, plan.video_bps as nat, prefix@, null_device@));
    args
}

/// Encoder arguments of the second pass.
pub fn second_pass_args(input: &str, plan: &BitratePlan, prefix: &str, has_audio: bool, output: &str) -> (args: Vec<String>)
    ensures
        args.deep_view() == second_pass_spec(
            input@,
            plan.video_bps as nat,
            plan.audio_bps as nat,
            prefix@,
            has_audio,
            output@,
        ),
        args.deep_view().len() == (if has_audio { 22int } else { 18int }),
        args.deep_view()[1] == "-i"@,
        args.deep_view()[2] == input@,
        args.deep_view()[9] == "-b:v"@,
        args.deep_view()[10] == decimal_digits(plan.video_bps as nat),
        args.deep_view()[14] == prefix@,
        has_audio ==> args.deep_view()[19] == "-b:a"@ && args.deep_view()[20] == decimal_digits(plan.audio_bps as nat),
        args.deep_view()[args.deep_view().len() - 1] == output@,
{
    let mut args: Vec<String> = Vec::new();
    push_text(&mut args, "-y");
    push_text(&mut args, "-i");
    push_text(&mut args, input);
    push_text(&mut args, "-map");
    push_text(&mut args, "0:v:0");
    push_text(&mut args, "-map");
    push_text(&mut args, "0:a?");
    push_text(&mut args, "-c:v");
    push_text(&mut args, "libx264");
    push_text(&mut args, "-b:v");
    push_decimal(&mut args, plan.video_bps);
    push_text(&mut args, "-pass");
    push_text(&mut args, "2");
    push_text(&mut args, "-passlogfile");
    push_text(&mut args, prefix);
    push_text(&mut args, "-movflags");
    push_text(&mut args, "+faststart");
    let ghost base = args.deep_view();
    if has_audio {
        push_text(&mut args, "-c:a");
        push_text(&mut args, "aac");
        push_text(&mut args, "-b:a");
        push_decimal(&mut args, plan.audio_bps);
    }
    assert(args.deep_view() =~= base + audio_options_spec(has_audio, plan.audio_bps as nat));
    push_text(&mut args, output);
    assert(args.deep_view() =~= second_pass_spec(
        input@,
        plan.video_bps as nat,
        plan.audio_bps as nat,
        prefix@,
        has_audio,
        output@,
    ));
    args
}

/// Puts the reporting options in front of the arguments of a pass.
pub fn with_reporting_options(args: Vec<String>) -> (full: Vec<String>)
    ensures
        full.deep_view() == reporting_options_spec() + args.deep_view(),
        full.deep_view().len() == args.deep_view().len() + 5,
        full.deep_view().subrange(5, full.deep_view().len() as int) == args.deep_view(),
{
    let mut full: Vec<String> = Vec::new();
    push_text(&mut full, "-v");
    push_text(&mut full, "error");
    push_text(&mut full, "-progress");
    push_text(&mut full, "pipe:1");
    push_text(&mut full, "-nostats");
    let ghost head = full.deep_view();
    assert(head =~= reporting_options_spec());
    let ghost tail = args.deep_view();
    let mut rest = args;
    full.append(&mut rest);
    assert(full.deep_view() =~= head + tail);
    full
}

} // verus!
