//! Derived summary statistics: rounded per-file averages, the
//! characters-per-word ratio in hundredths, and the tweet-capacity
//! estimate. All of it is exact integer arithmetic on the count fields.

use vstd::prelude::*;

use vstd::arithmetic::div_mod::lemma_multiply_divide_lt;

use crate::counts::Counts;

verus! {

/// Character budget for the tweet-capacity estimate.
pub const TWEET_CHARS: u128 = 280;

/// `a / b` rounded to the nearest integer, halves away from zero.
pub open spec fn round_div_spec(a: int, b: int) -> int
    recommends
        a >= 0,
        b > 0,
{
    (2 * a + b) / (2 * b)
}

/// `a / b` rounded to the nearest integer, halves away from zero.
pub fn round_div(a: usize, b: usize) -> (r: usize)
    requires
        b > 0,
    ensures
        r == round_div_spec(a as int, b as int),
{
    let q: u128 = (2 * (a as u128) + (b as u128)) / (2 * (b as u128));
    proof {
        let ai = a as int;
        let bi = b as int;
        assert(2 * ai + bi < (2 * bi) * (ai + 1)) by (nonlinear_arith)
            requires
                ai >= 0,
                bi >= 1,
        ;
        lemma_multiply_divide_lt(2 * ai + bi, 2 * bi, ai + 1);
    }
    q as usize
}

/// Per-file averages of the totals over `processed` files, each rounded
/// to the nearest whole number: (lines, words, chars).
pub fn averages(totals: &Counts, processed: usize) -> (avg: (usize, usize, usize))
    requires
        processed > 0,
    ensures
        avg.0 == round_div_spec(totals.lines as int, processed as int),
        avg.1 == round_div_spec(totals.words as int, processed as int),
        avg.2 == round_div_spec(totals.chars as int, processed as int),
{
    (
        round_div(totals.lines, processed),
        round_div(totals.words, processed),
        round_div(totals.chars, processed),
    )
}

/// The characters-per-word ratio of the totals in hundredths: the ratio
/// to two decimal places, rounded half away from zero.
pub fn cpw_hundredths(totals: &Counts) -> (r: u128)
    requires
        totals.words > 0,
    ensures
        r == round_div_spec(100 * (totals.chars as int), totals.words as int),
{
    (200 * (totals.chars as u128) + (totals.words as u128)) / (2 * (totals.words as u128))
}

/// How many average-length words fit in the tweet character budget:
/// floor(budget / (chars/words)), computed exactly as
/// floor(budget * words / chars).
pub fn max_words_per_tweet(totals: &Counts) -> (r: u128)
    requires
        totals.chars > 0,
    ensures
        r == (TWEET_CHARS as int) * (totals.words as int) / (totals.chars as int),
{
    (TWEET_CHARS * (totals.words as u128)) / (totals.chars as u128)
}

} // verus!
