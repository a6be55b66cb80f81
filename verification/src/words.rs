//! Counting ASCII-whitespace-delimited words in a line of bytes.

use vstd::prelude::*;

verus! {

/// ASCII whitespace: space, tab, line feed, form feed, carriage return.
pub open spec fn is_ascii_ws(b: u8) -> bool {
    b == 32 || b == 9 || b == 10 || b == 12 || b == 13
}

/// Number of maximal non-whitespace runs in `s`, scanning left to right.
/// `boundary` says whether the scan stands at a word boundary, that is at
/// the start of the input or just after a whitespace byte.
pub open spec fn words_from(s: Seq<u8>, boundary: bool) -> nat
    decreases s.len(),
{
    if s.len() == 0 {
        0
    } else {
        (if boundary && !is_ascii_ws(s[0]) {
            1nat
        } else {
            0nat
        }) + words_from(s.drop_first(), is_ascii_ws(s[0]))
    }
}

/// Number of maximal ASCII-whitespace-delimited words in a line.
pub open spec fn words_in(s: Seq<u8>) -> nat {
    words_from(s, true)
}

/// A line holds at most as many words as bytes.
pub proof fn lemma_words_le_len(s: Seq<u8>)
    ensures
        words_in(s) <= s.len(),
{
    lemma_words_from_le_len(s, true);
}

proof fn lemma_words_from_le_len(s: Seq<u8>, boundary: bool)
    ensures
        words_from(s, boundary) <= s.len(),
    decreases s.len(),
{
    if s.len() > 0 {
        lemma_words_from_le_len(s.drop_first(), is_ascii_ws(s[0]));
    }
}

/// Counts the maximal runs of non-whitespace bytes in `line`: the words
/// that splitting on runs of ASCII whitespace would yield.
pub fn count_words(line: &Vec<u8>) -> (n: usize)
    ensures
        n == words_in(line@),
{
    let mut n: usize = 0;
    let mut boundary: bool = true;
    let mut i: usize = 0;
    proof {
        assert(line@.skip(0) =~= line@);
    }
    while i < line.len()
        invariant
            i <= line@.len(),
            n <= i,
            words_in(line@) == n + words_from(line@.skip(i as int), boundary),
        decreases line@.len() - i,
    {
        let b = line[i];
        let ws = b == 32 || b == 9 || b == 10 || b == 12 || b == 13;
        proof {
            assert(line@.skip(i as int)[0] == line@[i as int]);
            assert(line@.skip(i as int).drop_first() =~= line@.skip(i as int + 1));
        }
        if boundary && !ws {
            n = n + 1;
        }
        boundary = ws;
        i = i + 1;
    }
    proof {
        assert(line@.skip(line@.len() as int) =~= Seq::<u8>::empty());
    }
    n
}

} // verus!
