use vstd::prelude::*;

use crate::error::AppError;
use crate::paths::{
    check_directory, check_exists, file_stem_of, join_path, parent_of, path_file_stem, path_join, path_parent, DirectoryCheck,
    ExistenceCheck,
};
use crate::text::{decimal_digits, decimal_string, lemma_decimal_digits_injective, starts_with};

verus! {

/// Error when the output folder is not an existing directory.
pub const OUTPUT_DIR_UNAVAILABLE: &'static str = "出力先フォルダーを確認できません。";

/// Error when every candidate output name is already taken.
pub const NO_FREE_OUTPUT_NAME: &'static str = "安全な出力ファイル名を作成できませんでした。";

/// Candidate numbers run from 1 (the plain name) up to, not including, this.
pub const CANDIDATE_LIMIT: u32 = 10_000;

/// The stem used for the output name: the input's file stem, or `video`.
pub open spec fn stem_or_default(input: Seq<char>) -> Seq<char> {
    match path_file_stem(input) {
        Some(stem) => stem,
        None => "video"@,
    }
}

/// The `n`-th candidate output file name for `stem`: `{stem}_compressed.mp4`
/// for `n == 1`, `{stem}_compressed_{n}.mp4` beyond.
pub open spec fn candidate_name(stem: Seq<char>, n: nat) -> Seq<char> {
    if n <= 1 {
        stem + "_compressed.mp4"@
    } else {
        stem + "_compressed_"@ + decimal_digits(n) + ".mp4"@
    }
}

/// The folder the output goes to: the requested one, or, when none is
/// requested, the input's parent (`.` for a path without one).
pub open spec fn output_directory_spec(input: Seq<char>, requested: Seq<char>) -> Seq<char> {
    if requested.len() == 0 {
        match path_parent(input) {
            Some(parent) => parent,
            None => "."@,
        }
    } else {
        requested
    }
}

/// The name prefix of the two-pass log files of process `pid`.
pub open spec fn pass_log_prefix_spec(pid: nat) -> Seq<char> {
    "mlab-pass-"@ + decimal_digits(pid)
}

/// What to do after asking whether candidate `number` exists.
#[derive(Debug, PartialEq, Eq, Structural, Clone, Copy)]
pub enum CandidateStep {
    /// The candidate is free: use it.
    Take,
    /// The candidate is taken: try this number next.
    Try(u32),
    /// The candidate is taken and it was the last one.
    GiveUp,
}

/// Decides, from whether candidate `number` already exists, whether to use
/// it, to try the next number, or to give up after the last one.
pub fn next_candidate_step(number: u32, exists: bool) -> (step: CandidateStep)
    requires
        1 <= number < CANDIDATE_LIMIT,
    ensures
        !exists ==> step == CandidateStep::Take,
        exists && number + 1 < CANDIDATE_LIMIT ==> step == CandidateStep::Try((number + 1) as u32),
        exists && number + 1 >= CANDIDATE_LIMIT ==> step == CandidateStep::GiveUp,
{
    if !exists {
        CandidateStep::Take
    } else if number + 1 < CANDIDATE_LIMIT {
        CandidateStep::Try(number + 1)
    } else {
        CandidateStep::GiveUp
    }
}

fn candidate_file_name(stem: &str, number: u32) -> (s: String)
    ensures
        s@ == candidate_name(stem@, number as nat),
{
    let mut s = String::from_str(stem);
    if number <= 1 {
        s.append("_compressed.mp4");
    } else {
        s.append("_compressed_");
        let digits = decimal_string(number as u64);
        s.append(digits.as_str());
        s.append(".mp4");
    }
    s
}

/// Every answer in `answers` reports the candidate as taken.
pub open spec fn all_taken(answers: Seq<bool>) -> bool {
    forall|i: int| 0 <= i < answers.len() ==> #[trigger] answers[i]
}

/// `index` is the first position whose answer reports the candidate free.
pub open spec fn is_first_free(answers: Seq<bool>, index: int) -> bool {
    &&& 0 <= index < answers.len()
    &&& !answers[index]
    &&& all_taken(answers.subrange(0, index))
}

/// The answers recorded in a sequence of existence checks.
pub open spec fn answers_of(checks: Seq<ExistenceCheck>) -> Seq<bool> {
    checks.map_values(|c: ExistenceCheck| c.reported())
}

/// The outcome of an output-path search together with what the file system
/// answered along the way.
#[derive(Debug)]
pub struct OutputSearch {
    /// The chosen path, or why none was chosen.
    pub result: Result<String, AppError>,
    /// The directory test of the output folder.
    pub directory: DirectoryCheck,
    /// The existence checks of the candidate paths, in order.
    pub asked: Vec<ExistenceCheck>,
}

proof fn lemma_asked_names_direct(asked: Seq<ExistenceCheck>, input: Seq<char>, directory: Seq<char>)
    requires
        forall|i: int|
            0 <= i < asked.len() ==> #[trigger] asked[i].path_view() == path_join(
                directory,
                candidate_name(stem_or_default(input), (i + 1) as nat),
            ),
    ensures
        forall|i: int|
            0 <= i < asked.len() ==> #[trigger] asked[i].path_view() == path_join(
                directory,
                (if i == 0 {
                    (match path_file_stem(input) { Some(stem) => stem, None => "video"@ }) + "_compressed.mp4"@
                } else {
                    (match path_file_stem(input) { Some(stem) => stem, None => "video"@ }) + "_compressed_"@
                        + decimal_digits((i + 1) as nat) + ".mp4"@
                }),
            ),
{
    assert forall|i: int| 0 <= i < asked.len() implies #[trigger] asked[i].path_view() == path_join(
        directory,
        (if i == 0 {
                    (match path_file_stem(input) { Some(stem) => stem, None => "video"@ }) + "_compressed.mp4"@
                } else {
                    (match path_file_stem(input) { Some(stem) => stem, None => "video"@ }) + "_compressed_"@
                        + decimal_digits((i + 1) as nat) + ".mp4"@
                }),
    ) by {
        assert(asked[i].path_view() == path_join(directory, candidate_name(stem_or_default(input), (i + 1) as nat)));
    }
}

/// Picks an output path in `directory` that does not exist yet, named after
/// the input's file stem: `{stem}_compressed.mp4`, else the first free
/// `{stem}_compressed_{n}.mp4` for `n` in `2..10000`. Returns the choice with
/// the answers it rests on: the folder must pass the directory test, the
/// candidates are checked in order, and the first one reported absent is
/// taken.
pub fn output_path(input: &str, directory: &str) -> (s: OutputSearch)
    ensures
        s.directory.path_view() == directory@,
        forall|i: int|
            0 <= i < s.asked@.len() ==> #[trigger] s.asked@[i].path_view() == path_join(
                directory@,
                candidate_name(stem_or_default(input@), (i + 1) as nat),
            ),
        forall|i: int|
            0 <= i < s.asked@.len() ==> #[trigger] s.asked@[i].path_view() == path_join(
                directory@,
                (if i == 0 {
                    (match path_file_stem(input@) { Some(stem) => stem, None => "video"@ }) + "_compressed.mp4"@
                } else {
                    (match path_file_stem(input@) { Some(stem) => stem, None => "video"@ }) + "_compressed_"@
                        + decimal_digits((i + 1) as nat) + ".mp4"@
                }),
            ),
        !s.directory.reported() ==> s.asked@.len() == 0,
        !s.directory.reported() ==> (s.result matches Err(e) && e@ == OUTPUT_DIR_UNAVAILABLE@),
        s.directory.reported() ==> match s.result {
            Ok(p) => {
                &&& 1 <= s.asked@.len() < CANDIDATE_LIMIT
                &&& is_first_free(answers_of(s.asked@), s.asked@.len() - 1)
                &&& p@ == s.asked@[s.asked@.len() - 1].path_view()
            },
            Err(e) => {
                &&& e@ == NO_FREE_OUTPUT_NAME@
                &&& s.asked@.len() == CANDIDATE_LIMIT - 1
                &&& all_taken(answers_of(s.asked@))
            },
        },
{
    let mut asked: Vec<ExistenceCheck> = Vec::new();
    let folder = check_directory(directory);
    if !folder.is_dir() {
        return OutputSearch { result: Err(AppError::user(OUTPUT_DIR_UNAVAILABLE)), directory: folder, asked };
    }
    let stem = match file_stem_of(input) {
        Some(stem) => stem,
        None => String::from_str("video"),
    };
    proof {
        reveal_strlit("video");
    }
    assert(stem@ == stem_or_default(input@));
    let mut number: u32 = 1;
    loop
        invariant
            1 <= number < CANDIDATE_LIMIT,
            stem@ == stem_or_default(input@),
            folder.path_view() == directory@,
            folder.reported(),
            asked@.len() == number - 1,
            all_taken(answers_of(asked@)),
            forall|i: int|
                0 <= i < asked@.len() ==> #[trigger] asked@[i].path_view() == path_join(
                    directory@,
                    candidate_name(stem_or_default(input@), (i + 1) as nat),
                ),
        decreases CANDIDATE_LIMIT - number,
    {
        let name = candidate_file_name(stem.as_str(), number);
        let candidate = join_path(directory, name.as_str());
        let check = check_exists(candidate.as_str());
        let exists = check.was_present();
        let ghost before = asked@;
        asked.push(check);
        assert(answers_of(asked@).subrange(0, number - 1) =~= answers_of(before));
        assert(answers_of(asked@)[number - 1] == exists);
        match next_candidate_step(number, exists) {
            CandidateStep::Take => {
                assert(is_first_free(answers_of(asked@), number - 1));
                proof { lemma_asked_names_direct(asked@, input@, directory@); }
                return OutputSearch { result: Ok(candidate), directory: folder, asked };
            },
            CandidateStep::Try(next) => {
                assert forall|i: int| 0 <= i < answers_of(asked@).len() implies #[trigger] answers_of(asked@)[i] by {
                    if i < number - 1 {
                        assert(answers_of(asked@)[i] == answers_of(asked@).subrange(0, number - 1)[i]);
                    }
                }
                number = next;
            },
            CandidateStep::GiveUp => {
                assert forall|i: int| 0 <= i < answers_of(asked@).len() implies #[trigger] answers_of(asked@)[i] by {
                    if i < number - 1 {
                        assert(answers_of(asked@)[i] == answers_of(asked@).subrange(0, number - 1)[i]);
                    }
                }
                proof { lemma_asked_names_direct(asked@, input@, directory@); }
                return OutputSearch { result: Err(AppError::user(NO_FREE_OUTPUT_NAME)), directory: folder, asked };
            },
        }
    }
}

/// The folder the output goes to: `requested`, or, when it is empty, the
/// parent of `input` (`.` when the path has none).
pub fn output_directory(input: &str, requested: &str) -> (d: String)
    ensures
        d@ == output_directory_spec(input@, requested@),
        requested@.len() > 0 ==> d@ == requested@,
        requested@.len() == 0 ==> d@ == (match path_parent(input@) {
            Some(parent) => parent,
            None => "."@,
        }),
{
    if requested.is_empty() {
        proof {
            reveal_strlit(".");
        }
        match parent_of(input) {
            Some(parent) => parent,
            None => String::from_str("."),
        }
    } else {
        String::from_str(requested)
    }
}

/// The name prefix shared by the two-pass log files of process `pid`.
pub fn pass_log_prefix(pid: u32) -> (s: String)
    ensures
        s@ == pass_log_prefix_spec(pid as nat),
{
    let mut s = String::from_str("mlab-pass-");
    let digits = decimal_string(pid as u64);
    s.append(digits.as_str());
    s
}

/// Whether a file named `file_name` is one of the pass logs whose names
/// start with `prefix`.
pub fn is_pass_log(file_name: &str, prefix: &str) -> (r: bool)
    ensures
        r == prefix@.is_prefix_of(file_name@),
{
    starts_with(file_name, prefix)
}

/// Every candidate output name starts with the input's whole file stem
/// (`video` when the input has none), whatever its length, followed by
/// `_compressed`, and ends with `.mp4`.
pub proof fn lemma_output_name_keeps_whole_stem(input: Seq<char>, n: nat)
    requires
        1 <= n,
    ensures
        path_file_stem(input) matches Some(stem) ==> stem.is_prefix_of(candidate_name(stem_or_default(input), n)),
        path_file_stem(input) is None ==> "video"@.is_prefix_of(candidate_name(stem_or_default(input), n)),
        ({
            let stem = match path_file_stem(input) {
                Some(stem) => stem,
                None => "video"@,
            };
            let name = candidate_name(stem_or_default(input), n);
            &&& name.subrange(0, stem.len() as int) == stem
            &&& name.subrange(stem.len() as int, stem.len() + 11int) == "_compressed"@
            &&& name.subrange(name.len() - 4, name.len() as int) == ".mp4"@
            &&& n == 1 ==> name == stem + "_compressed.mp4"@
        }),
{
    reveal_strlit("_compressed.mp4");
    reveal_strlit("_compressed_");
    reveal_strlit("_compressed");
    reveal_strlit(".mp4");
    let stem = stem_or_default(input);
    let name = candidate_name(stem, n);
    let s = stem.len() as int;
    assert(name.subrange(0, s) =~= stem);
    assert(name.subrange(s, s + 11) =~= "_compressed"@);
    assert(name.subrange(name.len() - 4, name.len() as int) =~= ".mp4"@);
}

/// Distinct candidate numbers give distinct output file names, so each
/// attempt in `output_path` names a different file.
pub proof fn lemma_candidate_names_distinct(stem: Seq<char>, m: nat, n: nat)
    requires
        1 <= m,
        1 <= n,
        m != n,
    ensures
        candidate_name(stem, m) != candidate_name(stem, n),
{
    reveal_strlit("_compressed.mp4");
    reveal_strlit("_compressed_");
    reveal_strlit(".mp4");
    let s: int = stem.len() as int;
    if m == 1 || n == 1 {
        let k: nat = if m == 1 { n } else { m };
        let plain = candidate_name(stem, 1);
        let numbered = candidate_name(stem, k);
        assert(plain[s + 11] == '.');
        assert(numbered[s + 11] == '_');
    } else {
        let dm = decimal_digits(m);
        let dn = decimal_digits(n);
        let a = candidate_name(stem, m);
        let b = candidate_name(stem, n);
        if a == b {
            assert(a.len() == s + 12 + dm.len() + 4);
            assert(b.len() == s + 12 + dn.len() + 4);
            assert(a.subrange(s + 12, s + 12 + dm.len()) =~= dm);
            assert(b.subrange(s + 12, s + 12 + dn.len()) =~= dn);
            lemma_decimal_digits_injective(m, n);
        }
    }
}

} // verus!
