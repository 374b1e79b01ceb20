//! Typed parse trees for a natural-language specification grammar.
//!
//! A chart-parsing engine produces a weakly-typed tree whose nodes carry bare
//! string labels, while a tokenizer produces the ordered sequence of lexical
//! tokens the sentence was made of.  This crate classifies every label into a
//! closed catalog of grammar symbols and rebuilds the tree as a strongly-typed
//! one whose leaves are the original tokens, in order, with nothing skipped,
//! duplicated or reordered.

pub mod errors;
pub mod symbol;
pub mod tree;
