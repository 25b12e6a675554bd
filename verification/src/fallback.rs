//! The brand-new file: a diff that has to be rendered from the file's content.

use vstd::prelude::*;

verus! {

/// How the engine classifies the change of one file.
#[derive(Clone, Copy, Debug, PartialEq, Eq, Structural)]
pub enum DeltaStatus {
    Unmodified,
    Added,
    Deleted,
    Modified,
    Renamed,
    Copied,
    Ignored,
    Untracked,
    Typechange,
    Unreadable,
    Conflicted,
}

/// One entry of the engine's delta list: the status of a file and the path of
/// its new side, where it has one that is text.
#[derive(Clone, Debug, PartialEq, Eq)]
pub struct Delta {
    pub status: DeltaStatus,
    pub new_path: Option<String>,
}

/// The mathematical value of a [`Delta`].
pub struct DeltaView {
    pub status: DeltaStatus,
    pub new_path: Option<Seq<char>>,
}

impl View for Delta {
    type V = DeltaView;

    open spec fn view(&self) -> DeltaView {
        DeltaView {
            status: self.status,
            new_path: match self.new_path {
                Some(path) => Some(path@),
                None => None,
            },
        }
    }
}

impl DeepView for Delta {
    type V = DeltaView;

    open spec fn deep_view(&self) -> DeltaView {
        self@
    }
}

/// Whether a delta list is that of a brand-new file: exactly one delta, and
/// that one untracked. Several untracked files together are no such list.
pub open spec fn is_new_file_spec(deltas: Seq<DeltaView>) -> bool {
    deltas.len() == 1 && deltas[0].status == DeltaStatus::Untracked
}

/// Detects the delta list of a brand-new file. The engine renders such a file
/// without its lines, so its diff is built from its content instead.
pub fn is_new_file(deltas: &Vec<Delta>) -> (new_file: bool)
    ensures
        new_file == is_new_file_spec(deltas.deep_view()),
{
    deltas.len() == 1 && deltas[0].status == DeltaStatus::Untracked
}

} // verus!
