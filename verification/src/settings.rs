use vstd::prelude::*;

use crate::float_bits::{encodes_finite, encodes_positive, is_positive_finite};

verus! {

/// How many target sizes the history keeps.
pub const RECENT_LIMIT: usize = 4;

/// Error when a target size to record is not a positive finite number.
pub const INVALID_TARGET_SIZE: &'static str = "目標サイズが正しくありません。";

/// Saved preferences. Each target size (megabytes) is held as the bit
/// pattern of its binary64 value; the oldest comes first.
#[derive(Debug)]
pub struct Settings {
    pub recent_target_sizes: Vec<u64>,
}

/// The last `RECENT_LIMIT` entries of `sizes` (all of them when there are fewer).
pub open spec fn keep_recent(sizes: Seq<u64>) -> Seq<u64> {
    if sizes.len() > RECENT_LIMIT {
        sizes.subrange(sizes.len() - RECENT_LIMIT, sizes.len() as int)
    } else {
        sizes
    }
}

/// The history after recording each of `sizes`, in order, onto `history`.
pub open spec fn record_each(history: Seq<u64>, sizes: Seq<u64>) -> Seq<u64>
    decreases sizes.len(),
{
    if sizes.len() == 0 {
        history
    } else {
        record_each(keep_recent(history.push(sizes[0])), sizes.drop_first())
    }
}

impl Settings {
    /// Settings with an empty history.
    pub fn new() -> (s: Settings)
        ensures
            s.recent_target_sizes@ == Seq::<u64>::empty(),
    {
        Settings { recent_target_sizes: Vec::new() }
    }

    /// Appends a target size to the history and drops the oldest entries
    /// beyond the last `RECENT_LIMIT`.
    pub fn record_target(&mut self, target_mb_bits: u64)
        ensures
            final(self).recent_target_sizes@ == keep_recent(old(self).recent_target_sizes@.push(target_mb_bits)),
            final(self).recent_target_sizes@.len() == (if old(self).recent_target_sizes@.len() + 1 > 4 {
                4
            } else {
                old(self).recent_target_sizes@.len() + 1
            }),
            final(self).recent_target_sizes@.last() == target_mb_bits,
            forall|i: int|
                0 <= i < final(self).recent_target_sizes@.len() ==> #[trigger] final(self).recent_target_sizes@[i]
                    == old(self).recent_target_sizes@.push(target_mb_bits)[old(self).recent_target_sizes@.len() + 1
                    - final(self).recent_target_sizes@.len() + i],
    {
        let ghost pushed = self.recent_target_sizes@.push(target_mb_bits);
        self.recent_target_sizes.push(target_mb_bits);
        let excess: usize = if self.recent_target_sizes.len() > RECENT_LIMIT {
            self.recent_target_sizes.len() - RECENT_LIMIT
        } else {
            0
        };
        let mut removed: usize = 0;
        while removed < excess
            invariant
                pushed.len() > RECENT_LIMIT ==> excess == pushed.len() - RECENT_LIMIT,
                pushed.len() <= RECENT_LIMIT ==> excess == 0,
                removed <= excess,
                self.recent_target_sizes@ == pushed.subrange(removed as int, pushed.len() as int),
            decreases excess - removed,
        {
            self.recent_target_sizes.remove(0);
            removed = removed + 1;
        }
        assert(pushed.subrange(0, pushed.len() as int) =~= pushed);
    }
}

impl Default for Settings {
    fn default() -> (s: Settings)
        ensures
            s.recent_target_sizes@ == Seq::<u64>::empty(),
    {
        Settings::new()
    }
}

/// Checks a target size (megabytes, as a binary64 bit pattern) before it is
/// recorded: it must be finite and greater than zero.
pub fn validate_target_size(target_mb_bits: u64) -> (r: Result<(), String>)
    ensures
        r is Ok <==> (encodes_positive(target_mb_bits) && encodes_finite(target_mb_bits)),
        r matches Err(e) ==> e@ == INVALID_TARGET_SIZE@,
{
    if !is_positive_finite(target_mb_bits) {
        return Err(String::from_str(INVALID_TARGET_SIZE));
    }
    Ok(())
}

/// Trimming after each record is the same as trimming once: the history is
/// always the most recent `RECENT_LIMIT` sizes of everything recorded.
pub proof fn lemma_trim_once(history: Seq<u64>, size: u64)
    ensures
        keep_recent(keep_recent(history).push(size)) == keep_recent(history.push(size)),
{
    assert(keep_recent(keep_recent(history).push(size)) =~= keep_recent(history.push(size)));
}

/// Recording sizes one after another onto a history of at most
/// `RECENT_LIMIT` entries leaves the last `RECENT_LIMIT` of all of them, in
/// the order they were recorded.
pub proof fn lemma_history_keeps_latest(history: Seq<u64>, sizes: Seq<u64>)
    requires
        history.len() <= RECENT_LIMIT,
    ensures
        record_each(history, sizes) == keep_recent(history + sizes),
        record_each(history, sizes).len() <= RECENT_LIMIT,
    decreases sizes.len(),
{
    if sizes.len() == 0 {
        assert(history + sizes =~= history);
    } else {
        let next = keep_recent(history.push(sizes[0]));
        lemma_history_keeps_latest(next, sizes.drop_first());
        let all = history + sizes;
        let rest = sizes.drop_first();
        assert(history.push(sizes[0]) + rest =~= all);
        if history.push(sizes[0]).len() > RECENT_LIMIT {
            let p = history.push(sizes[0]);
            assert(next + rest =~= p.subrange(p.len() - RECENT_LIMIT, p.len() as int) + rest);
            assert(keep_recent(next + rest) =~= keep_recent(all));
        }
    }
}

} // verus!
