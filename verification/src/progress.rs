use vstd::prelude::*;

use crate::text::{same_text, starts_with};

verus! {

/// What a line of the encoder's progress output means to the compressor.
#[derive(Debug)]
pub enum ProgressLine {
    /// The encoded position so far: the text after `out_time_us=` or
    /// `out_time_ms=` (microseconds, still to be parsed).
    OutTime(String),
    /// The end of a progress block (`progress=continue` or `progress=end`):
    /// time to report progress.
    Update,
    /// Anything else.
    Other,
}

/// The text after `prefix` when `line` starts with it.
pub open spec fn after_prefix(line: Seq<char>, prefix: Seq<char>) -> Option<Seq<char>> {
    if prefix.is_prefix_of(line) {
        Some(line.subrange(prefix.len() as int, line.len() as int))
    } else {
        None
    }
}

/// The position text a progress line carries, if any.
pub open spec fn out_time_value(line: Seq<char>) -> Option<Seq<char>> {
    match after_prefix(line, "out_time_us="@) {
        Some(v) => Some(v),
        None => after_prefix(line, "out_time_ms="@),
    }
}

/// Whether a progress line closes a progress block.
pub open spec fn is_update_line(line: Seq<char>) -> bool {
    line == "progress=continue"@ || line == "progress=end"@
}

fn value_after(line: &str, prefix: &str) -> (r: Option<String>)
    ensures
        match r {
            Some(v) => after_prefix(line@, prefix@) == Some(v@),
            None => after_prefix(line@, prefix@) is None,
        },
{
    if starts_with(line, prefix) {
        let n = prefix.unicode_len();
        let m = line.unicode_len();
        let rest = line.substring_char(n, m);
        Some(String::from_str(rest))
    } else {
        None
    }
}

/// Reads one line of the encoder's progress output.
pub fn classify_progress_line(line: &str) -> (r: ProgressLine)
    ensures
        match r {
            ProgressLine::OutTime(v) => out_time_value(line@) == Some(v@),
            ProgressLine::Update => out_time_value(line@) is None && is_update_line(line@),
            ProgressLine::Other => out_time_value(line@) is None && !is_update_line(line@),
        },
        "out_time_us="@.is_prefix_of(line@) ==> (r matches ProgressLine::OutTime(v) && v@ == line@.subrange(
            12,
            line@.len() as int,
        )),
        "out_time_ms="@.is_prefix_of(line@) ==> (r matches ProgressLine::OutTime(v) && v@ == line@.subrange(
            12,
            line@.len() as int,
        )),
        (line@ == "progress=continue"@ || line@ == "progress=end"@) ==> r is Update,
{
    proof {
        reveal_strlit("out_time_us=");
        reveal_strlit("out_time_ms=");
        reveal_strlit("progress=continue");
        reveal_strlit("progress=end");
        let us = "out_time_us="@;
        let ms = "out_time_ms="@;
        if line@ == "progress=continue"@ || line@ == "progress=end"@ {
            assert(line@[0] == 'p');
            assert(!us.is_prefix_of(line@)) by {
                assert(us[0] == 'o');
            }
            assert(!ms.is_prefix_of(line@)) by {
                assert(ms[0] == 'o');
            }
        }
        if ms.is_prefix_of(line@) {
            assert(!us.is_prefix_of(line@)) by {
                assert(us[9] == 'u' && ms[9] == 'm' && line@[9] == ms[9]);
            }
        }
    }
    match value_after(line, "out_time_us=") {
        Some(v) => {
            return ProgressLine::OutTime(v);
        },
        None => {},
    }
    match value_after(line, "out_time_ms=") {
        Some(v) => {
            return ProgressLine::OutTime(v);
        },
        None => {},
    }
    if same_text(line, "progress=continue") || same_text(line, "progress=end") {
        ProgressLine::Update
    } else {
        ProgressLine::Other
    }
}

} // verus!
