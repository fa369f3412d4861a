use vstd::prelude::*;

use crate::error::AppError;

verus! {

/// Error when a pass ended because the user cancelled it.
pub const CANCELLED: &'static str = "圧縮をキャンセルしました。";

/// Error when the process slot holds a process of the other kind.
pub const INVALID_PROCESS_STATE: &'static str = "圧縮処理の状態が不正です。";

/// Error when the output disk ran out of space.
pub const DISK_FULL: &'static str = "出力先のディスク容量が不足しています。";

/// Error for any other encoder failure.
pub const ENCODE_FAILED: &'static str = "圧縮に失敗しました。入力ファイルと出力先を確認してください。詳細はアプリのログを確認できます。";

/// What the bundled encoder process reports while a pass runs.
pub enum PassEvent {
    /// Bytes written to standard output (progress lines).
    Stdout(Vec<u8>),
    /// Bytes written to standard error.
    Stderr(Vec<u8>),
    /// The process ended, with its exit code when it has one.
    Terminated(Option<i32>),
    /// The process runner reported an error, as UTF-8 bytes.
    Error(Vec<u8>),
    /// Any other report.
    Other,
}

/// How a pass ended.
#[derive(Debug)]
pub enum PassOutcome {
    /// The encoder exited with code 0.
    Completed,
    /// The process was taken away by a cancellation.
    Cancelled,
    /// The encoder failed; its collected error output.
    Failed(Vec<u8>),
}

/// Which kind of encoder process a slot holds.
#[derive(PartialEq, Eq, Structural, Debug, Clone, Copy)]
pub enum ProcessKind {
    /// An encoder started from the installed tools.
    Development,
    /// The encoder bundled with the application.
    Sidecar,
}

/// The state kept while a pass of the bundled encoder runs.
pub struct PassMonitor {
    /// Error output collected so far, each chunk followed by a newline.
    pub stderr: Vec<u8>,
    /// Whether the process has ended with exit code 0.
    pub success: bool,
}

/// `bytes` followed by a newline.
pub open spec fn line_of(bytes: Seq<u8>) -> Seq<u8> {
    bytes.push(10u8)
}

impl PassMonitor {
    /// The state before any event: no error output, no success.
    pub fn new() -> (m: PassMonitor)
        ensures
            m.stderr@ == Seq::<u8>::empty(),
            !m.success,
    {
        PassMonitor { stderr: Vec::new(), success: false }
    }

    /// Takes one event into account. Returns the bytes of standard output
    /// that carry progress lines, if the event brought any.
    pub fn on_event(&mut self, event: PassEvent) -> (progress: Option<Vec<u8>>)
        ensures
            match event {
                PassEvent::Stdout(bytes) => {
                    &&& progress == Some(bytes)
                    &&& final(self).stderr@ == old(self).stderr@
                    &&& final(self).success == old(self).success
                },
                PassEvent::Stderr(bytes) => {
                    &&& progress is None
                    &&& final(self).stderr@ == old(self).stderr@ + line_of(bytes@)
                    &&& final(self).success == old(self).success
                },
                PassEvent::Terminated(code) => {
                    &&& progress is None
                    &&& final(self).stderr@ == old(self).stderr@
                    &&& final(self).success == (code == Some(0i32))
                },
                PassEvent::Error(bytes) => {
                    &&& progress is None
                    &&& final(self).stderr@ == old(self).stderr@ + line_of(bytes@)
                    &&& final(self).success == old(self).success
                },
                PassEvent::Other => {
                    &&& progress is None
                    &&& final(self).stderr@ == old(self).stderr@
                    &&& final(self).success == old(self).success
                },
            },
    {
        match event {
            PassEvent::Stdout(bytes) => Some(bytes),
            PassEvent::Stderr(bytes) => {
                let mut chunk = bytes;
                self.stderr.append(&mut chunk);
                self.stderr.push(10u8);
                None
            },
            PassEvent::Terminated(code) => {
                self.success = match code {
                    Some(c) => c == 0,
                    None => false,
                };
                None
            },
            PassEvent::Error(bytes) => {
                let mut chunk = bytes;
                self.stderr.append(&mut chunk);
                self.stderr.push(10u8);
                None
            },
            PassEvent::Other => None,
        }
    }

    /// Decides how the pass ended once the events stopped. `still_registered`
    /// tells whether the process was still in its slot (a cancellation takes
    /// it out); `cancel_requested` whether the job was cancelled meanwhile.
    pub fn finish(self, still_registered: bool, cancel_requested: bool) -> (outcome: PassOutcome)
        ensures
            !still_registered || cancel_requested ==> outcome is Cancelled,
            still_registered && !cancel_requested && self.success ==> outcome is Completed,
            still_registered && !cancel_requested && !self.success ==> (outcome matches PassOutcome::Failed(log)
                && log@ == self.stderr@),
    {
        if !still_registered || cancel_requested {
            PassOutcome::Cancelled
        } else if !self.success {
            PassOutcome::Failed(self.stderr)
        } else {
            PassOutcome::Completed
        }
    }
}

/// Whether the user asked to stop the current compression. A request made
/// while no encoder process runs (between the two passes) is kept until the
/// next pass is about to start.
pub struct JobControl {
    pub cancel_requested: bool,
}

impl JobControl {
    /// No compression has been cancelled.
    pub fn new() -> (c: JobControl)
        ensures
            !c.cancel_requested,
    {
        JobControl { cancel_requested: false }
    }

    /// A new compression starts: earlier requests no longer apply.
    pub fn start_job(&mut self)
        ensures
            !final(self).cancel_requested,
    {
        self.cancel_requested = false;
    }

    /// The user asked to stop the current compression.
    pub fn request_cancel(&mut self)
        ensures
            final(self).cancel_requested,
    {
        self.cancel_requested = true;
    }

    /// Called before a pass starts: refuses to start it once a cancellation
    /// was requested for the current job.
    pub fn before_pass(&self) -> (r: Result<(), AppError>)
        ensures
            r is Ok <==> !self.cancel_requested,
            r matches Err(e) ==> e@ == CANCELLED@,
    {
        if self.cancel_requested {
            return Err(AppError::user(CANCELLED));
        }
        Ok(())
    }

    /// The result of a whole job: a cancellation requested at any time
    /// before this point turns it into the cancel error; otherwise the
    /// passes' result stands.
    pub fn finish_job(&self, outcome: Result<(), AppError>) -> (r: Result<(), AppError>)
        ensures
            self.cancel_requested ==> (r matches Err(e) && e@ == CANCELLED@),
            !self.cancel_requested ==> r == outcome,
    {
        if self.cancel_requested {
            return Err(AppError::user(CANCELLED));
        }
        outcome
    }
}

impl Default for JobControl {
    fn default() -> (c: JobControl)
        ensures
            !c.cancel_requested,
    {
        JobControl::new()
    }
}

/// Checks what was taken out of the process slot once an installed-tools
/// pass has finished reading progress: the pass goes on only if its own
/// process was still there.
pub fn check_taken_process(taken: Option<ProcessKind>) -> (r: Result<(), AppError>)
    ensures
        r is Ok <==> taken == Some(ProcessKind::Development),
        taken is None ==> (r matches Err(e) && e@ == CANCELLED@),
        taken == Some(ProcessKind::Sidecar) ==> (r matches Err(e) && e@ == INVALID_PROCESS_STATE@),
{
    match taken {
        Some(ProcessKind::Development) => Ok(()),
        Some(ProcessKind::Sidecar) => Err(AppError::user(INVALID_PROCESS_STATE)),
        None => Err(AppError::user(CANCELLED)),
    }
}

/// The bytes of an ASCII text.
pub open spec fn ascii_bytes(text: Seq<char>) -> Seq<u8> {
    text.map_values(|c: char| c as u8)
}

/// Whether `needle` occurs in `haystack` starting at `at`.
pub open spec fn occurs_at(haystack: Seq<u8>, needle: Seq<u8>, at: int) -> bool {
    0 <= at && at + needle.len() <= haystack.len() && haystack.subrange(at, at + needle.len()) == needle
}

/// Whether `needle` occurs somewhere in `haystack`.
pub open spec fn contains_bytes(haystack: Seq<u8>, needle: Seq<u8>) -> bool {
    exists|at: int| #[trigger] occurs_at(haystack, needle, at)
}

/// Whether an encoder error log reports a full disk.
pub open spec fn reports_disk_full(log: Seq<u8>) -> bool {
    contains_bytes(log, ascii_bytes("No space left on device"@))
        || contains_bytes(log, ascii_bytes("There is not enough space"@))
}

/// A log in which either full-disk phrase appears byte for byte, anywhere,
/// is reported as a full disk.
pub proof fn lemma_disk_full_phrase_anywhere(log: Seq<u8>, at: int, phrase: Seq<char>)
    requires
        phrase == "No space left on device"@ || phrase == "There is not enough space"@,
        0 <= at,
        at + phrase.len() <= log.len(),
        forall|k: int| 0 <= k < phrase.len() ==> #[trigger] log[at + k] == (phrase[k] as u8),
    ensures
        reports_disk_full(log),
{
    let needle = ascii_bytes(phrase);
    assert forall|k: int| 0 <= k < needle.len() implies log.subrange(at, at + needle.len())[k] == needle[k] by {
        assert(log[at + k] == (phrase[k] as u8));
    }
    assert(log.subrange(at, at + needle.len()) =~= needle);
    assert(occurs_at(log, needle, at));
}

fn contains_ascii(haystack: &[u8], needle: &str) -> (r: bool)
    ensures
        r == contains_bytes(haystack@, ascii_bytes(needle@)),
{
    let ghost pattern = ascii_bytes(needle@);
    let n = needle.unicode_len();
    let m = haystack.len();
    if n > m {
        assert forall|at: int| !occurs_at(haystack@, pattern, at) by {}
        return false;
    }
    if n == 0 {
        assert(haystack@.subrange(0, 0) =~= pattern);
        assert(occurs_at(haystack@, pattern, 0));
        return true;
    }
    let mut start: usize = 0;
    while start <= m - n
        invariant
            n == needle@.len(),
            n == pattern.len(),
            m == haystack@.len(),
            1 <= n <= m,
            start <= m - n + 1,
            pattern == ascii_bytes(needle@),
            forall|at: int| 0 <= at < start ==> !occurs_at(haystack@, pattern, at),
        decreases m - n + 1 - start,
    {
        let mut j: usize = 0;
        let mut matched = true;
        while j < n
            invariant
                n == needle@.len(),
                n == pattern.len(),
                m == haystack@.len(),
                start + n <= m,
                j <= n,
                pattern == ascii_bytes(needle@),
                matched ==> forall|k: int| 0 <= k < j ==> haystack@[start + k] == pattern[k],
                !matched ==> !occurs_at(haystack@, pattern, start as int),
            decreases n - j,
        {
            if matched && haystack[start + j] != (needle.get_char(j) as u8) {
                matched = false;
                assert(haystack@.subrange(start as int, start + n)[j as int] != pattern[j as int]);
            }
            j = j + 1;
        }
        if matched {
            assert(haystack@.subrange(start as int, start + n) =~= pattern);
            assert(occurs_at(haystack@, pattern, start as int));
            return true;
        }
        start = start + 1;
    }
    assert forall|at: int| !occurs_at(haystack@, pattern, at) by {
        if 0 <= at < start {
        }
    }
    false
}

/// The error shown for a failed pass, chosen from its error output.
pub fn failure_error(log: &[u8]) -> (e: AppError)
    ensures
        e@ == (if reports_disk_full(log@) { DISK_FULL@ } else { ENCODE_FAILED@ }),
{
    if contains_ascii(log, "No space left on device") || contains_ascii(log, "There is not enough space") {
        AppError::user(DISK_FULL)
    } else {
        AppError::user(ENCODE_FAILED)
    }
}

} // verus!
