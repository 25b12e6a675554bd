//! The ways in which a diff call can fail.

use vstd::prelude::*;

verus! {

/// What is wrong with the repository when no diff can even be asked for.
#[derive(Clone, Copy, Debug, PartialEq, Eq, Structural)]
pub enum RepositoryFault {
    /// No repository could be obtained.
    NoRepository,
    /// A staged diff was asked for, but `HEAD` does not resolve to a commit
    /// (the repository has no commit yet).
    NoHeadCommit,
}

/// The failure of a diff call. Every failure is terminal for the call: nothing
/// is retried and no empty diff is handed out in its place.
#[derive(Clone, Copy, Debug, PartialEq, Eq, Structural)]
pub enum DiffError {
    /// The repository is not in a state in which the diff can be taken.
    RepositoryState(RepositoryFault),
    /// The diff engine could not compute or print a diff or a patch.
    DiffEngine,
    /// The content of a new file could not be read as text.
    FileRead,
}

} // verus!
