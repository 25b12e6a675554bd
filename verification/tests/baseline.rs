use gitdiff::{
    pathspec_usable, select_baseline, Baseline, DiffError, DiffSide, RepositoryFault,
    RepositoryStatus,
};

const UNSTAGED: Baseline =
    Baseline { old: DiffSide::Index, new: DiffSide::Workdir, include_untracked: true };
const STAGED: Baseline =
    Baseline { old: DiffSide::HeadTree, new: DiffSide::Index, include_untracked: false };

#[test]
fn unstaged_compares_workdir_with_index_and_untracked() {
    assert_eq!(select_baseline(false, RepositoryStatus::Ready), Ok(UNSTAGED));
}

#[test]
fn unstaged_needs_no_commit() {
    assert_eq!(select_baseline(false, RepositoryStatus::Unborn), Ok(UNSTAGED));
}

#[test]
fn staged_compares_index_with_head_tree() {
    assert_eq!(select_baseline(true, RepositoryStatus::Ready), Ok(STAGED));
}

#[test]
fn staged_without_commit_is_no_head_commit() {
    assert_eq!(
        select_baseline(true, RepositoryStatus::Unborn),
        Err(DiffError::RepositoryState(RepositoryFault::NoHeadCommit))
    );
}

#[test]
fn without_repository_nothing_is_selected() {
    for stage in [false, true] {
        assert_eq!(
            select_baseline(stage, RepositoryStatus::Unavailable),
            Err(DiffError::RepositoryState(RepositoryFault::NoRepository))
        );
    }
}

#[test]
fn usual_path_filters_are_usable() {
    for filter in ["", "src/main.rs", "*.rs", "dir with space/\u{e4}\u{1f496}.txt", "a\\b", "\u{100}"] {
        assert!(pathspec_usable(filter), "{:?}", filter);
    }
}

#[test]
fn path_filter_with_nul_is_not_usable() {
    for filter in ["\0", "a\0", "\0a", "src/\0/x", "\u{1f496}\0"] {
        assert!(!pathspec_usable(filter), "{:?}", filter);
    }
}
