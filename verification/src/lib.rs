//! Age-based cleanup of a directory's immediate children.
//!
//! The library holds the decision logic of a small command-line sweeper:
//! parsing a textual age threshold, computing the cutoff instant, classifying
//! directory entries by modification time, gating on an exact confirmation
//! answer, and accounting for removals. All filesystem work, the clock and
//! the prompt live outside, in the surrounding binary; they hand the library
//! plain values and take plain values back.

pub mod duration;
pub mod errors;
pub mod pipeline;
pub mod removal;
pub mod scan;
pub mod threshold;
pub mod timefmt;

pub use errors::Error;
