//! Verified planning core of a music-library synchronizer.
//!
//! The library decides what a sync run does: it validates the
//! configuration, classifies each probed file as copied, transcoded or
//! skipped, diffs candidates against an index of paths already present
//! at the target, builds the external commands a run must execute, and
//! interprets their outcomes. All file, process and terminal I/O is left
//! to the caller, which feeds plain values in and carries actions out.

pub mod backend;
pub mod command;
pub mod decimal;
pub mod errors;
pub mod format;
pub mod listing;
pub mod paths;
pub mod pipeline;
pub mod plan;
pub mod text;
pub mod transcode;
