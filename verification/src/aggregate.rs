//! Running aggregation of per-file counts: the word-count threshold
//! filter and the processed/skipped bookkeeping.

use vstd::prelude::*;

use crate::counts::Counts;
use crate::counts::Tally;

verus! {

/// Minimum words a file must have to be folded into the running total;
/// a file with fewer is skipped.
pub const MIN_WORDS: usize = 200;

/// Running aggregation state: the combined tally of every accepted file,
/// and how many files were accepted (processed) or skipped.
#[derive(Clone, Copy, Debug, PartialEq, Eq, Structural)]
pub struct Aggregator {
    pub totals: Counts,
    pub processed: usize,
    pub skipped: usize,
}

impl Aggregator {
    /// A fresh aggregation: zero totals, nothing processed or skipped.
    pub fn new() -> (a: Aggregator)
        ensures
            a.totals@ == Tally::zero(),
            a.processed == 0,
            a.skipped == 0,
    {
        Aggregator { totals: Counts::new(), processed: 0, skipped: 0 }
    }

    /// Feeds one file's counts: a file with fewer than `MIN_WORDS` words
    /// is skipped and leaves the totals untouched; any other file is
    /// folded into the running total. Returns whether the file was
    /// accepted.
    pub fn observe(&mut self, counts: &Counts) -> (accepted: bool)
        requires
            old(self).totals.lines + counts.lines <= usize::MAX,
            old(self).totals.words + counts.words <= usize::MAX,
            old(self).totals.chars + counts.chars <= usize::MAX,
            old(self).processed < usize::MAX,
            old(self).skipped < usize::MAX,
        ensures
            accepted == (counts.words >= MIN_WORDS),
            accepted ==> final(self).totals@ == old(self).totals@.combine(counts@)
                && final(self).processed == old(self).processed + 1
                && final(self).skipped == old(self).skipped,
            !accepted ==> final(self).totals == old(self).totals
                && final(self).processed == old(self).processed
                && final(self).skipped == old(self).skipped + 1,
    {
        if counts.words < MIN_WORDS {
            self.skipped = self.skipped + 1;
            false
        } else {
            self.totals.add_assign(counts);
            self.processed = self.processed + 1;
            true
        }
    }
}

} // verus!
