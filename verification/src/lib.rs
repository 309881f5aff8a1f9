//! Verified building blocks of a collection of small command-line tools:
//! configuration loading, text decoding, file naming, a tag index, a snippet
//! store, a typed order workflow and a few helpers around outside crates.

pub mod btree;
pub mod chars;
pub mod config;
pub mod crypt;
pub mod decimal;
pub mod delay;
pub mod file_index;
pub mod imaging;
pub mod matrix;
pub mod my_arc;
pub mod naming;
pub mod order;
pub mod plans;
pub mod request_types;
pub mod size;
pub mod snippets;
pub mod text;
