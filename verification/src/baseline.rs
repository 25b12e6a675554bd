//! What is compared with what, and under which path filter.

use crate::error::{DiffError, RepositoryFault};
use vstd::prelude::*;
use vstd::utf8::{
    char_is_scalar, char_u32_cast, encode_scalar, encode_utf8, has_width_1_encoding, is_scalar,
    leading_byte_width_1,
};

verus! {

/// One side of a comparison.
#[derive(Clone, Copy, Debug, PartialEq, Eq, Structural)]
pub enum DiffSide {
    /// The tree of the commit that `HEAD` points to.
    HeadTree,
    /// The index.
    Index,
    /// The working tree.
    Workdir,
}

/// The two sides of a diff and whether files that the index does not know are
/// part of it.
#[derive(Clone, Copy, Debug, PartialEq, Eq, Structural)]
pub struct Baseline {
    pub old: DiffSide,
    pub new: DiffSide,
    pub include_untracked: bool,
}

/// What the caller found when it went for the repository.
#[derive(Clone, Copy, Debug, PartialEq, Eq, Structural)]
pub enum RepositoryStatus {
    /// No repository could be obtained.
    Unavailable,
    /// There is a repository, but `HEAD` resolves to no commit.
    Unborn,
    /// There is a repository and `HEAD` resolves to a commit.
    Ready,
}

/// The baseline of an unstaged diff: the working tree against the index,
/// untracked files included, so that a new file shows as a delta of its own.
pub open spec fn unstaged_baseline() -> Baseline {
    Baseline { old: DiffSide::Index, new: DiffSide::Workdir, include_untracked: true }
}

/// The baseline of a staged diff: the index against the tree of `HEAD`.
pub open spec fn staged_baseline() -> Baseline {
    Baseline { old: DiffSide::HeadTree, new: DiffSide::Index, include_untracked: false }
}

/// The baseline that `stage` selects in a repository of the given status, or
/// the reason why there is none. A staged diff needs a commit to compare with:
/// in a repository without one it fails, it is never taken against nothing.
pub open spec fn select_baseline_spec(stage: bool, repository: RepositoryStatus) -> Result<
    Baseline,
    DiffError,
> {
    if repository == RepositoryStatus::Unavailable {
        Err(DiffError::RepositoryState(RepositoryFault::NoRepository))
    } else if !stage {
        Ok(unstaged_baseline())
    } else if repository == RepositoryStatus::Unborn {
        Err(DiffError::RepositoryState(RepositoryFault::NoHeadCommit))
    } else {
        Ok(staged_baseline())
    }
}

/// Selects the two sides of the diff. Unstaged: the working tree against the
/// index, with untracked files. Staged: the index against the tree of `HEAD`,
/// which fails with `NoHeadCommit` where `HEAD` resolves to no commit. Either
/// fails with `NoRepository` where there is no repository.
pub fn select_baseline(stage: bool, repository: RepositoryStatus) -> (selected: Result<
    Baseline,
    DiffError,
>)
    ensures
        selected == select_baseline_spec(stage, repository),
{
    match repository {
        RepositoryStatus::Unavailable => Err(
            DiffError::RepositoryState(RepositoryFault::NoRepository),
        ),
        RepositoryStatus::Unborn => if stage {
            Err(DiffError::RepositoryState(RepositoryFault::NoHeadCommit))
        } else {
            Ok(Baseline { old: DiffSide::Index, new: DiffSide::Workdir, include_untracked: true })
        },
        RepositoryStatus::Ready => if stage {
            Ok(Baseline { old: DiffSide::HeadTree, new: DiffSide::Index, include_untracked: false })
        } else {
            Ok(Baseline { old: DiffSide::Index, new: DiffSide::Workdir, include_untracked: true })
        },
    }
}

/// Whether the engine can take `pathspec` as a path filter: it can unless the
/// text holds a NUL character, which no path has.
pub open spec fn usable_pathspec(pathspec: Seq<char>) -> bool {
    !pathspec.contains('\0')
}

/// Only the scalar zero has a zero byte in its UTF-8 encoding.
proof fn lemma_zero_byte_of_scalar(scalar: u32)
    requires
        is_scalar(scalar),
    ensures
        encode_scalar(scalar).contains(0u8) <==> scalar == 0,
{
    let bytes = encode_scalar(scalar);
    assert(forall|low: u8| #![auto] 0xC0u8 | low != 0 && 0xE0u8 | low != 0 && 0xF0u8 | low != 0
        && 0x80u8 | low != 0) by (bit_vector);
    if has_width_1_encoding(scalar) {
        assert(((scalar & 0x7F) as u8 == 0) <==> scalar == 0) by (bit_vector)
            requires
                scalar <= 0x7F,
        ;
        assert(bytes[0] == leading_byte_width_1(scalar));
    }
    if bytes.contains(0u8) {
        let i: int = choose|i: int| 0 <= i < bytes.len() && bytes[i] == 0u8;
        assert(bytes[i] == 0u8);
    }
}

/// A text has a zero byte in its UTF-8 encoding just when it has a NUL
/// character.
pub proof fn lemma_zero_byte_iff_nul(text: Seq<char>)
    ensures
        encode_utf8(text).contains(0u8) <==> text.contains('\0'),
    decreases text.len(),
{
    if text.len() > 0 {
        let rest = text.drop_first();
        let head = encode_scalar(text[0] as u32);
        let tail = encode_utf8(rest);
        let bytes = encode_utf8(text);
        lemma_zero_byte_iff_nul(rest);
        char_is_scalar(text[0]);
        lemma_zero_byte_of_scalar(text[0] as u32);
        assert(text[0] as u32 == 0 <==> text[0] == '\0') by {
            char_u32_cast(text[0], text[0] as u32);
            char_u32_cast('\0', 0u32);
        }
        if bytes.contains(0u8) {
            let i: int = choose|i: int| 0 <= i < bytes.len() && bytes[i] == 0u8;
            if i < head.len() {
                assert(head[i] == 0u8);
            } else {
                assert(tail[i - head.len()] == 0u8);
                let k: int = choose|k: int| 0 <= k < rest.len() && rest[k] == '\0';
                assert(text[k + 1] == '\0');
            }
        }
        if text.contains('\0') {
            let k: int = choose|k: int| 0 <= k < text.len() && text[k] == '\0';
            if k == 0 {
                let i: int = choose|i: int| 0 <= i < head.len() && head[i] == 0u8;
                assert(bytes[i] == 0u8);
            } else {
                assert(rest[k - 1] == '\0');
                let i: int = choose|i: int| 0 <= i < tail.len() && tail[i] == 0u8;
                assert(bytes[head.len() + i] == 0u8);
            }
        }
    }
}

/// Tests whether the engine can take `pathspec` as a path filter.
pub fn pathspec_usable(pathspec: &str) -> (usable: bool)
    ensures
        usable == usable_pathspec(pathspec@),
{
    let bytes = pathspec.as_bytes();
    proof {
        lemma_zero_byte_iff_nul(pathspec@);
    }
    let mut i: usize = 0;
    while i < bytes.len()
        invariant
            i <= bytes.len(),
            bytes@.contains(0u8) <==> pathspec@.contains('\0'),
            forall|j: int| 0 <= j < i ==> bytes@[j] != 0u8,
        decreases bytes.len() - i,
    {
        if bytes[i] == 0u8 {
            return false;
        }
        i += 1;
    }
    true
}

/// What the engine is asked for: a baseline, and the path filter that scopes
/// the diff.
#[derive(Clone, Debug, PartialEq, Eq)]
pub struct DiffRequest {
    pub baseline: Baseline,
    pub pathspec: String,
}

/// The mathematical value of a [`DiffRequest`].
pub struct DiffRequestView {
    pub baseline: Baseline,
    pub pathspec: Seq<char>,
}

impl View for DiffRequest {
    type V = DiffRequestView;

    open spec fn view(&self) -> DiffRequestView {
        DiffRequestView { baseline: self.baseline, pathspec: self.pathspec@ }
    }
}

} // verus!
