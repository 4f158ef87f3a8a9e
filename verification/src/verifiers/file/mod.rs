//! The `file-comparator` verifier.

pub mod file;
