//! Per-file and running-total counts of lines, words and bytes, with a
//! ghost model `Tally` and the laws of its pointwise combination.

use vstd::prelude::*;

use crate::words::count_words;
use crate::words::lemma_words_le_len;
use crate::words::words_in;

verus! {

/// Mathematical model of a count triple.
pub ghost struct Tally {
    pub lines: int,
    pub words: int,
    pub chars: int,
}

impl Tally {
    /// The empty tally: nothing counted yet.
    pub open spec fn zero() -> Tally {
        Tally { lines: 0, words: 0, chars: 0 }
    }

    /// Pointwise addition of two tallies.
    pub open spec fn combine(self, other: Tally) -> Tally {
        Tally {
            lines: self.lines + other.lines,
            words: self.words + other.words,
            chars: self.chars + other.chars,
        }
    }
}

/// Tally of a single line: one line, its words, its bytes (delimiter
/// already stripped).
pub open spec fn line_tally(line: Seq<u8>) -> Tally {
    Tally { lines: 1, words: words_in(line) as int, chars: line.len() as int }
}

/// Tally of a sequence of lines: the combination of each line's tally.
pub open spec fn tally_of(lines: Seq<Seq<u8>>) -> Tally
    decreases lines.len(),
{
    if lines.len() == 0 {
        Tally::zero()
    } else {
        tally_of(lines.drop_last()).combine(line_tally(lines.last()))
    }
}

/// The views of a sequence of byte lines.
pub open spec fn line_views(lines: Seq<Vec<u8>>) -> Seq<Seq<u8>> {
    lines.map_values(|l: Vec<u8>| l@)
}

/// Line, word and byte counts for one file or accumulated over files.
#[derive(Clone, Copy, Debug, PartialEq, Eq, Structural)]
pub struct Counts {
    pub lines: usize,
    pub words: usize,
    pub chars: usize,
}

impl View for Counts {
    type V = Tally;

    open spec fn view(&self) -> Tally {
        Tally { lines: self.lines as int, words: self.words as int, chars: self.chars as int }
    }
}

impl Counts {
    /// An empty count: zero lines, words and bytes.
    pub fn new() -> (c: Counts)
        ensures
            c@ == Tally::zero(),
    {
        Counts { lines: 0, words: 0, chars: 0 }
    }

    /// Folds `other` into `self` by pointwise addition.
    pub fn add_assign(&mut self, other: &Counts)
        requires
            old(self).lines + other.lines <= usize::MAX,
            old(self).words + other.words <= usize::MAX,
            old(self).chars + other.chars <= usize::MAX,
        ensures
            final(self)@ == old(self)@.combine(other@),
    {
        self.lines = self.lines + other.lines;
        self.words = self.words + other.words;
        self.chars = self.chars + other.chars;
    }

    /// Accounts one line: one more line, its words, its bytes.
    pub fn tally_line(&mut self, line: &Vec<u8>)
        requires
            old(self).lines + 1 <= usize::MAX,
            old(self).words + words_in(line@) <= usize::MAX,
            old(self).chars + line@.len() <= usize::MAX,
        ensures
            final(self)@ == old(self)@.combine(line_tally(line@)),
    {
        self.lines = self.lines + 1;
        self.chars = self.chars + line.len();
        let w = count_words(line);
        self.words = self.words + w;
    }
}

/// Every component of a prefix's tally is bounded by the whole tally's.
proof fn lemma_tally_prefix_le(s: Seq<Seq<u8>>, i: int)
    requires
        0 <= i <= s.len(),
    ensures
        tally_of(s.take(i)).lines <= tally_of(s).lines,
        tally_of(s.take(i)).words <= tally_of(s).words,
        tally_of(s.take(i)).chars <= tally_of(s).chars,
    decreases s.len(),
{
    if i == s.len() {
        assert(s.take(i) =~= s);
    } else {
        assert(s.take(i) =~= s.drop_last().take(i));
        lemma_tally_prefix_le(s.drop_last(), i);
    }
}

/// Counts the lines of one file, already split into lines with the
/// delimiter stripped: the number of lines, of ASCII-whitespace-delimited
/// words, and of bytes over all lines.
pub fn get_counts(lines: &Vec<Vec<u8>>) -> (c: Counts)
    requires
        tally_of(line_views(lines@)).lines <= usize::MAX,
        tally_of(line_views(lines@)).words <= usize::MAX,
        tally_of(line_views(lines@)).chars <= usize::MAX,
    ensures
        c@ == tally_of(line_views(lines@)),
{
    let ghost dv = line_views(lines@);
    let mut c = Counts::new();
    let mut i: usize = 0;
    proof {
        assert(dv.take(0) =~= Seq::<Seq<u8>>::empty());
    }
    while i < lines.len()
        invariant
            i <= lines@.len(),
            dv == line_views(lines@),
            dv.len() == lines@.len(),
            c@ == tally_of(dv.take(i as int)),
            tally_of(dv).lines <= usize::MAX,
            tally_of(dv).words <= usize::MAX,
            tally_of(dv).chars <= usize::MAX,
        decreases lines@.len() - i,
    {
        proof {
            assert(dv[i as int] == lines@[i as int]@);
            assert(dv.take(i as int + 1).drop_last() =~= dv.take(i as int));
            assert(dv.take(i as int + 1).last() == dv[i as int]);
            lemma_tally_prefix_le(dv, i as int + 1);
        }
        c.tally_line(&lines[i]);
        i = i + 1;
    }
    proof {
        assert(dv.take(lines@.len() as int) =~= dv);
    }
    c
}

/// Counting is deterministic: two counts of the same lines are equal.
pub proof fn lemma_count_deterministic(lines: Seq<Seq<u8>>, a: Counts, b: Counts)
    requires
        a@ == tally_of(lines),
        b@ == tally_of(lines),
    ensures
        a == b,
{
}

/// Combining with the zero tally changes nothing.
pub proof fn lemma_combine_zero(t: Tally)
    ensures
        t.combine(Tally::zero()) == t,
        Tally::zero().combine(t) == t,
{
}

/// Combination is commutative.
pub proof fn lemma_combine_commutes(a: Tally, b: Tally)
    ensures
        a.combine(b) == b.combine(a),
{
}

/// Combination is associative.
pub proof fn lemma_combine_assoc(a: Tally, b: Tally, c: Tally)
    ensures
        a.combine(b).combine(c) == a.combine(b.combine(c)),
{
}

/// Tallying two sequences of lines one after the other and combining the
/// results equals tallying their concatenation.
pub proof fn lemma_tally_additive(a: Seq<Seq<u8>>, b: Seq<Seq<u8>>)
    ensures
        tally_of(a + b) == tally_of(a).combine(tally_of(b)),
    decreases b.len(),
{
    if b.len() == 0 {
        assert(a + b =~= a);
        lemma_combine_zero(tally_of(a));
    } else {
        lemma_tally_additive(a, b.drop_last());
        assert((a + b).drop_last() =~= a + b.drop_last());
        assert((a + b).last() == b.last());
        lemma_combine_assoc(tally_of(a), tally_of(b.drop_last()), line_tally(b.last()));
    }
}

/// A tally of lines never counts more words than bytes.
pub proof fn lemma_tally_words_le_chars(lines: Seq<Seq<u8>>)
    ensures
        tally_of(lines).words <= tally_of(lines).chars,
    decreases lines.len(),
{
    if lines.len() > 0 {
        lemma_tally_words_le_chars(lines.drop_last());
        lemma_words_le_len(lines.last());
    }
}

} // verus!
