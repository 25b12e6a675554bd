//! Typed, flattened unified diffs.
//!
//! The diff engine (libgit2) reports a diff as a stream of raw lines, each an
//! origin marker and some bytes. This library turns that stream into an ordered
//! list of typed text lines fit for display: it classifies every line, drops
//! the file headers, decodes the bytes leniently and separates the hunks by a
//! blank line. It also decides what is compared (working tree against index, or
//! index against the commit `HEAD` points to), detects the brand-new file that
//! has to be rendered from its content, and drives a whole call as a state
//! machine whose outside work (repository and file access) is left to the
//! caller.

pub mod baseline;
pub mod driver;
pub mod error;
pub mod fallback;
pub mod flatten;
pub mod line;
pub mod patch;

pub use crate::baseline::{
    pathspec_usable, select_baseline, Baseline, DiffRequest, DiffSide, RepositoryStatus,
};
pub use crate::driver::{start, step, Action, DriverState, Event};
pub use crate::error::{DiffError, RepositoryFault};
pub use crate::fallback::{is_new_file, Delta, DeltaStatus};
pub use crate::flatten::{flatten, Diff};
pub use crate::line::{classify, DiffLine, DiffLineType, DiffLineView, RawLine};
pub use crate::patch::{diff_of_printed, new_file_diff};
