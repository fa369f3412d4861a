use vstd::prelude::*;

use crate::error::AppError;
use crate::float_bits::{encodes_positive, is_positive};
use crate::paths::{extension_of, path_extension};
use crate::text::same_text;

verus! {

/// Error when the selected file is not an MP4 file.
pub const NOT_MP4: &'static str = "MP4ファイルのみ選択できます。";

/// Error when the probe gave no positive duration.
pub const DURATION_UNAVAILABLE: &'static str = "動画の長さを取得できませんでした。";

/// Error when the file holds no video stream.
pub const NO_VIDEO_STREAM: &'static str = "このファイルには動画が含まれていません。";

/// One stream as the media probe describes it.
pub struct ProbeStream {
    pub codec_type: Option<String>,
    pub width: Option<u32>,
    pub height: Option<u32>,
}

/// What the compressor keeps of a probe: the duration (seconds, as a
/// binary64 bit pattern), the size of the first video stream, and whether
/// any audio stream exists.
#[derive(Debug)]
pub struct ProbeSummary {
    pub duration_seconds_bits: u64,
    pub width: u32,
    pub height: u32,
    pub has_audio: bool,
}

/// The code of `c` with ASCII upper-case letters mapped to lower case.
pub open spec fn ascii_lower_code(c: char) -> u32 {
    let v = c as u32;
    if 65 <= v <= 90 { (v + 32) as u32 } else { v }
}

/// Whether two texts are equal ignoring ASCII case, as
/// `str::eq_ignore_ascii_case` decides it.
pub open spec fn eq_ignore_ascii_case_spec(a: Seq<char>, b: Seq<char>) -> bool {
    a.len() == b.len() && forall|i: int| 0 <= i < a.len() ==> ascii_lower_code(#[trigger] a[i]) == ascii_lower_code(b[i])
}

/// Whether a path names an MP4 file: its extension is `mp4` in any ASCII case.
pub open spec fn is_mp4_spec(path: Seq<char>) -> bool {
    match path_extension(path) {
        Some(ext) => eq_ignore_ascii_case_spec(ext, "mp4"@),
        None => false,
    }
}

/// Whether a probe stream is of the given codec type.
pub open spec fn has_codec_type(stream: ProbeStream, kind: Seq<char>) -> bool {
    match stream.codec_type {
        Some(t) => t@ == kind,
        None => false,
    }
}

/// `index` is the position of the first video stream.
pub open spec fn is_first_video(streams: Seq<ProbeStream>, index: int) -> bool {
    &&& 0 <= index < streams.len()
    &&& has_codec_type(streams[index], "video"@)
    &&& forall|j: int| 0 <= j < index ==> !has_codec_type(#[trigger] streams[j], "video"@)
}

/// Whether some stream is a video stream.
pub open spec fn has_video_stream(streams: Seq<ProbeStream>) -> bool {
    exists|i: int| 0 <= i < streams.len() && has_codec_type(#[trigger] streams[i], "video"@)
}

/// Whether some stream is an audio stream.
pub open spec fn has_audio_stream(streams: Seq<ProbeStream>) -> bool {
    exists|i: int| 0 <= i < streams.len() && has_codec_type(#[trigger] streams[i], "audio"@)
}

/// A text equals `mp4` ignoring ASCII case exactly when it is one of the
/// eight spellings `mp4`, `Mp4`, `mP4`, `MP4`, ... : three characters, each
/// position checked, the last included.
pub proof fn lemma_mp4_extension_cases(e: Seq<char>)
    ensures
        eq_ignore_ascii_case_spec(e, "mp4"@) <==> (e.len() == 3 && (e[0] == 'm' || e[0] == 'M') && (e[1] == 'p' || e[1]
            == 'P') && e[2] == '4'),
{
    reveal_strlit("mp4");
    let m = "mp4"@;
    assert(m.len() == 3 && m[0] == 'm' && m[1] == 'p' && m[2] == '4');
    assert(('m' as u32) == 109 && ('M' as u32) == 77 && ('p' as u32) == 112 && ('P' as u32) == 80 && ('4' as u32) == 52);
    if e.len() == 3 {
        let c0 = e[0] as u32;
        let c1 = e[1] as u32;
        let c2 = e[2] as u32;
        assert(ascii_lower_code(m[0]) == 109);
        assert(ascii_lower_code(m[1]) == 112);
        assert(ascii_lower_code(m[2]) == 52);
        assert((ascii_lower_code(e[0]) == 109) <==> (c0 == 109 || c0 == 77));
        assert((ascii_lower_code(e[1]) == 112) <==> (c1 == 112 || c1 == 80));
        assert((ascii_lower_code(e[2]) == 52) <==> c2 == 52);
        assert((c0 == 109) <==> e[0] == 'm') by {
            if c0 == 109 { vstd::utf8::char_u32_cast(e[0], c0); vstd::utf8::char_u32_cast('m', 109u32); assert(e[0] == 'm'); }
        }
        assert((c0 == 77) <==> e[0] == 'M') by {
            if c0 == 77 { vstd::utf8::char_u32_cast(e[0], c0); vstd::utf8::char_u32_cast('M', 77u32); assert(e[0] == 'M'); }
        }
        assert((c1 == 112) <==> e[1] == 'p') by {
            if c1 == 112 { vstd::utf8::char_u32_cast(e[1], c1); vstd::utf8::char_u32_cast('p', 112u32); assert(e[1] == 'p'); }
        }
        assert((c1 == 80) <==> e[1] == 'P') by {
            if c1 == 80 { vstd::utf8::char_u32_cast(e[1], c1); vstd::utf8::char_u32_cast('P', 80u32); assert(e[1] == 'P'); }
        }
        assert((c2 == 52) <==> e[2] == '4') by {
            if c2 == 52 { vstd::utf8::char_u32_cast(e[2], c2); vstd::utf8::char_u32_cast('4', 52u32); assert(e[2] == '4'); }
        }
        if eq_ignore_ascii_case_spec(e, m) {
            assert(ascii_lower_code(e[0]) == ascii_lower_code(m[0]));
            assert(ascii_lower_code(e[1]) == ascii_lower_code(m[1]));
            assert(ascii_lower_code(e[2]) == ascii_lower_code(m[2]));
        }
        if (e[0] == 'm' || e[0] == 'M') && (e[1] == 'p' || e[1] == 'P') && e[2] == '4' {
            assert forall|i: int| 0 <= i < e.len() implies ascii_lower_code(#[trigger] e[i]) == ascii_lower_code(m[i]) by {
                if i == 0 {} else if i == 1 {} else {}
            }
        }
    }
}

/// Whether a video has audio depends on every stream, the last included:
/// one audio stream anywhere is enough, and none means no audio.
pub proof fn lemma_audio_found_anywhere(streams: Seq<ProbeStream>)
    ensures
        has_audio_stream(streams) <==> exists|i: int|
            0 <= i < streams.len() && (#[trigger] streams[i]).codec_type is Some && streams[i].codec_type->0@ == "audio"@,
{
    if has_audio_stream(streams) {
        let i = choose|i: int| 0 <= i < streams.len() && has_codec_type(#[trigger] streams[i], "audio"@);
        assert(streams[i].codec_type matches Some(t) && t@ == "audio"@);
    }
    if exists|i: int| 0 <= i < streams.len() && (#[trigger] streams[i]).codec_type is Some && streams[i].codec_type->0@ == "audio"@ {
        let i = choose|i: int| 0 <= i < streams.len() && (#[trigger] streams[i]).codec_type is Some && streams[i].codec_type->0@ == "audio"@;
        assert(has_codec_type(streams[i], "audio"@));
    }
}

fn ascii_lower(c: char) -> (r: u32)
    ensures
        r == ascii_lower_code(c),
{
    let v = c as u32;
    if 65 <= v && v <= 90 { v + 32 } else { v }
}

/// Whether two texts are equal ignoring ASCII case.
pub fn eq_ignore_ascii_case(a: &str, b: &str) -> (r: bool)
    ensures
        r == eq_ignore_ascii_case_spec(a@, b@),
        r <==> (a@.len() == b@.len() && forall|i: int|
            0 <= i < a@.len() ==> {
                let x = #[trigger] a@[i] as u32;
                let y = b@[i] as u32;
                (if 65 <= x <= 90 { x + 32 } else { x as int }) == (if 65 <= y <= 90 { y + 32 } else { y as int })
            }),
{
    let n = a.unicode_len();
    if n != b.unicode_len() {
        return false;
    }
    let mut i: usize = 0;
    while i < n
        invariant
            n == a@.len(),
            n == b@.len(),
            i <= n,
            forall|k: int| 0 <= k < i ==> ascii_lower_code(#[trigger] a@[k]) == ascii_lower_code(b@[k]),
        decreases n - i,
    {
        if ascii_lower(a.get_char(i)) != ascii_lower(b.get_char(i)) {
            return false;
        }
        i = i + 1;
    }
    true
}

/// Whether `path` names an MP4 file (extension `mp4`, any ASCII case).
pub fn is_mp4_path(path: &str) -> (r: bool)
    ensures
        r == is_mp4_spec(path@),
        r <==> (path_extension(path@) matches Some(e) && e.len() == 3 && (e[0] == 'm' || e[0] == 'M') && (e[1] == 'p'
            || e[1] == 'P') && e[2] == '4'),
{
    proof {
        match path_extension(path@) {
            Some(e) => lemma_mp4_extension_cases(e),
            None => {},
        }
    }
    match extension_of(path) {
        Some(ext) => eq_ignore_ascii_case(ext.as_str(), "mp4"),
        None => false,
    }
}

/// Checks that `path` names an MP4 file.
pub fn require_mp4(path: &str) -> (r: Result<(), AppError>)
    ensures
        r is Ok <==> is_mp4_spec(path@),
        r is Ok <==> (path_extension(path@) matches Some(e) && e.len() == 3 && (e[0] == 'm' || e[0] == 'M') && (e[1]
            == 'p' || e[1] == 'P') && e[2] == '4'),
        r matches Err(e) ==> e@ == NOT_MP4@,
{
    if !is_mp4_path(path) {
        return Err(AppError::user(NOT_MP4));
    }
    Ok(())
}

fn is_codec(stream: &ProbeStream, kind: &str) -> (r: bool)
    ensures
        r == has_codec_type(*stream, kind@),
{
    match &stream.codec_type {
        Some(t) => same_text(t.as_str(), kind),
        None => false,
    }
}

/// Summarizes a probe. `duration_seconds_bits` is the probed duration as a
/// binary64 bit pattern, or `None` when it was missing or not a number. The
/// duration must be greater than zero and a video stream must exist; the
/// size comes from the first video stream (0 where unknown).
pub fn summarize_probe(duration_seconds_bits: Option<u64>, streams: &Vec<ProbeStream>) -> (r: Result<ProbeSummary, AppError>)
    ensures
        match r {
            Ok(summary) => {
                &&& duration_seconds_bits == Some(summary.duration_seconds_bits)
                &&& encodes_positive(summary.duration_seconds_bits)
                &&& exists|i: int| #[trigger] is_first_video(streams@, i)
                    && summary.width == (match streams@[i].width { Some(w) => w, None => 0u32 })
                    && summary.height == (match streams@[i].height { Some(h) => h, None => 0u32 })
                &&& summary.has_audio == has_audio_stream(streams@)
                &&& summary.has_audio <==> exists|i: int|
                    0 <= i < streams@.len() && (#[trigger] streams@[i]).codec_type is Some && streams@[i].codec_type->0@ == "audio"@
                &&& exists|i: int|
                    0 <= i < streams@.len() && (#[trigger] streams@[i]).codec_type is Some && streams@[i].codec_type->0@ == "video"@
                    && (forall|j: int| 0 <= j < i ==> !((#[trigger] streams@[j]).codec_type is Some && streams@[j].codec_type->0@ == "video"@))
                    && summary.width == (match streams@[i].width { Some(w) => w, None => 0u32 })
                    && summary.height == (match streams@[i].height { Some(h) => h, None => 0u32 })
            },
            Err(e) => {
                let duration_ok = duration_seconds_bits matches Some(b) && encodes_positive(b);
                &&& !duration_ok ==> e@ == DURATION_UNAVAILABLE@
                &&& duration_ok ==> (!has_video_stream(streams@) && e@ == NO_VIDEO_STREAM@)
                &&& duration_ok ==> forall|i: int|
                    0 <= i < streams@.len() ==> !((#[trigger] streams@[i]).codec_type is Some
                        && streams@[i].codec_type->0@ == "video"@)
            },
        },
{
    let duration = match duration_seconds_bits {
        Some(bits) => {
            if !is_positive(bits) {
                return Err(AppError::user(DURATION_UNAVAILABLE));
            }
            bits
        },
        None => {
            return Err(AppError::user(DURATION_UNAVAILABLE));
        },
    };
    let n = streams.len();
    let mut i: usize = 0;
    while i < n
        invariant
            n == streams@.len(),
            i <= n,
            forall|j: int| 0 <= j < i ==> !has_codec_type(#[trigger] streams@[j], "video"@),
        ensures
            i <= n,
            forall|j: int| 0 <= j < i ==> !has_codec_type(#[trigger] streams@[j], "video"@),
            i < n ==> has_codec_type(streams@[i as int], "video"@),
        decreases n - i,
    {
        if is_codec(&streams[i], "video") {
            break;
        }
        i = i + 1;
    }
    if i == n {
        return Err(AppError::user(NO_VIDEO_STREAM));
    }
    assert(is_first_video(streams@, i as int));
    let width = match streams[i].width {
        Some(w) => w,
        None => 0,
    };
    let height = match streams[i].height {
        Some(h) => h,
        None => 0,
    };
    let mut has_audio = false;
    let mut k: usize = 0;
    while k < n
        invariant
            n == streams@.len(),
            k <= n,
            has_audio == exists|j: int| 0 <= j < k && has_codec_type(#[trigger] streams@[j], "audio"@),
        decreases n - k,
    {
        if is_codec(&streams[k], "audio") {
            has_audio = true;
        }
        k = k + 1;
    }
    Ok(ProbeSummary { duration_seconds_bits: duration, width, height, has_audio })
}

} // verus!
