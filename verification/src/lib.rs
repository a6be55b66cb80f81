//! Line, word and byte counting over text files, with a word-count
//! threshold filter, running totals, and derived summary statistics.

pub mod aggregate;
pub mod counts;
pub mod stats;
pub mod words;
