use wordcount::counts::get_counts;
use wordcount::counts::Counts;
use wordcount::words::count_words;

#[test]
fn counts_words_of_simple_line() {
    let line: Vec<u8> = b"hello world".to_vec();
    assert_eq!(count_words(&line), 2);
}

#[test]
fn counts_no_words_in_empty_line() {
    let line: Vec<u8> = Vec::new();
    assert_eq!(count_words(&line), 0);
}

#[test]
fn counts_no_words_in_whitespace_only_line() {
    let line: Vec<u8> = b" \t  \x0C \r ".to_vec();
    assert_eq!(count_words(&line), 0);
}

#[test]
fn counts_words_between_whitespace_runs() {
    let line: Vec<u8> = b"  one \t two\tthree  \x0Cfour\r".to_vec();
    assert_eq!(count_words(&line), 4);
}

#[test]
fn counts_single_word_without_whitespace() {
    let line: Vec<u8> = b"word".to_vec();
    assert_eq!(count_words(&line), 1);
}

#[test]
fn tallies_lines_words_and_chars() {
    let lines: Vec<Vec<u8>> = vec![
        b"hello world".to_vec(),
        Vec::new(),
        b"a b c".to_vec(),
    ];
    let c = get_counts(&lines);
    assert_eq!(c, Counts { lines: 3, words: 5, chars: 16 });
}

#[test]
fn tallies_nothing_for_no_lines() {
    let lines: Vec<Vec<u8>> = Vec::new();
    let c = get_counts(&lines);
    assert_eq!(c, Counts { lines: 0, words: 0, chars: 0 });
}

#[test]
fn counting_twice_gives_identical_tallies() {
    let lines: Vec<Vec<u8>> = vec![
        b"the quick brown fox".to_vec(),
        b"jumps over the lazy dog".to_vec(),
    ];
    let first = get_counts(&lines);
    let second = get_counts(&lines);
    assert_eq!(first, second);
}

#[test]
fn tallies_add_over_concatenation() {
    let a: Vec<Vec<u8>> = vec![b"one two".to_vec(), b"three".to_vec()];
    let b: Vec<Vec<u8>> = vec![b" four  five ".to_vec()];
    let mut both: Vec<Vec<u8>> = a.clone();
    both.extend(b.clone());

    let ta = get_counts(&a);
    let tb = get_counts(&b);
    let mut sum = ta;
    sum.add_assign(&tb);
    assert_eq!(sum, get_counts(&both));
}

#[test]
fn combining_counts_adds_pointwise() {
    let mut acc = Counts { lines: 1, words: 2, chars: 3 };
    let more = Counts { lines: 10, words: 20, chars: 30 };
    acc.add_assign(&more);
    assert_eq!(acc, Counts { lines: 11, words: 22, chars: 33 });
}

#[test]
fn new_counts_are_zero() {
    let c = Counts::new();
    assert_eq!(c, Counts { lines: 0, words: 0, chars: 0 });
}
