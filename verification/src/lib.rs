//! Packs the text files of a directory tree into a single markdown artifact
//! that never exceeds a caller-supplied byte budget.
//!
//! The crate holds the logic of the packer: which entries of a tree are
//! visible, how include/exclude globs narrow them, in what order files are
//! rendered, and how per-file and whole-document truncation keep the output
//! inside its limits. Walking the real filesystem, reading files and shipping
//! the artifact are left to a thin shell around this library.

pub mod byteseq;
pub mod clamp;
pub mod config;
pub mod dump;
pub mod enumerate;
pub mod filter;
pub mod markup;
pub mod selector;
pub mod tables;
pub mod writer;
