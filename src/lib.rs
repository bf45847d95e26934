//! A small persistent key/value store for JSON documents with advisory
//! per-entry locks.
//!
//! The store keeps each entry in a file named after its id under a root
//! directory, and the lock of an entry in a sibling file with the suffix
//! `.lock`. The functions here decide what each operation reads, writes and
//! removes, and what it returns; the program around them performs the file
//! operations they ask for.
pub mod document;
pub mod laws;
pub mod store;

pub use store::{joined, Effect, StoreError, TFStateStore};
