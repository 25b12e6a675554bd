//! A whole diff call as a state machine.
//!
//! The machine decides; its caller does the outside work. Every step takes
//! what the caller found (an [`Event`]) and answers with what is to be done
//! next (an [`Action`]). A call passes from selecting the baseline over
//! computing the diff to the check for a brand-new file, which is made on the
//! way out of `ComputingDiff`; from there it either builds the synthetic patch
//! of the new file or has the computed diff printed, and it ends flattened in
//! `Done`. Nothing is retried: a failure in any state ends the call.

use crate::baseline::{
    pathspec_usable, select_baseline, select_baseline_spec, usable_pathspec, DiffRequest,
    DiffRequestView, RepositoryStatus,
};
use crate::error::{DiffError, RepositoryFault};
use crate::fallback::{is_new_file, is_new_file_spec, Delta, DeltaView};
use crate::flatten::{flatten, flatten_spec, Diff};
use crate::line::{DiffLineView, RawLine};
use crate::patch::{new_file_diff, new_file_diff_spec};
use vstd::prelude::*;

verus! {

/// Where a diff call stands.
#[derive(Debug, PartialEq)]
pub enum DriverState {
    /// Waiting to learn the status of the repository.
    SelectingBaseline { path_filter: String, staged: bool },
    /// Waiting for the delta list of the diff that the engine computes.
    ComputingDiff { request: DiffRequest },
    /// Waiting for the content of the new file that the patch is built from.
    BuildingSyntheticPatch { request: DiffRequest, new_file: String },
    /// Waiting for the printed lines of the computed diff.
    Flattening,
    /// Over, with the diff or with the reason why there is none.
    Done(Result<Diff, DiffError>),
}

/// The mathematical value of a [`DriverState`].
pub enum DriverStateView {
    SelectingBaseline { path_filter: Seq<char>, staged: bool },
    ComputingDiff { request: DiffRequestView },
    BuildingSyntheticPatch { request: DiffRequestView, new_file: Seq<char> },
    Flattening,
    Done(Result<Seq<DiffLineView>, DiffError>),
}

impl View for DriverState {
    type V = DriverStateView;

    open spec fn view(&self) -> DriverStateView {
        match *self {
            DriverState::SelectingBaseline { path_filter, staged } => {
                DriverStateView::SelectingBaseline { path_filter: path_filter@, staged }
            },
            DriverState::ComputingDiff { request } => DriverStateView::ComputingDiff {
                request: request@,
            },
            DriverState::BuildingSyntheticPatch { request, new_file } => {
                DriverStateView::BuildingSyntheticPatch { request: request@, new_file: new_file@ }
            },
            DriverState::Flattening => DriverStateView::Flattening,
            DriverState::Done(Ok(diff)) => DriverStateView::Done(Ok(diff@)),
            DriverState::Done(Err(error)) => DriverStateView::Done(Err(error)),
        }
    }
}

/// What the caller found when it did what the machine asked for.
#[derive(Clone, Debug, PartialEq)]
pub enum Event {
    /// The status of the repository.
    Repository(RepositoryStatus),
    /// The delta list of the computed diff.
    Deltas(Vec<Delta>),
    /// The content of the new file, read as text.
    FileContent(String),
    /// The lines that the engine printed for the computed diff.
    Lines(Vec<RawLine>),
    /// The work could not be done.
    Failed,
}

/// The mathematical value of an [`Event`].
pub enum EventView {
    Repository(RepositoryStatus),
    Deltas(Seq<DeltaView>),
    FileContent(Seq<char>),
    Lines(Seq<(char, Seq<u8>)>),
    Failed,
}

impl View for Event {
    type V = EventView;

    open spec fn view(&self) -> EventView {
        match *self {
            Event::Repository(status) => EventView::Repository(status),
            Event::Deltas(deltas) => EventView::Deltas(deltas.deep_view()),
            Event::FileContent(content) => EventView::FileContent(content@),
            Event::Lines(lines) => EventView::Lines(lines.deep_view()),
            Event::Failed => EventView::Failed,
        }
    }
}

/// What the caller is to do next.
#[derive(Clone, Debug, PartialEq)]
pub enum Action {
    /// Obtain the repository and see whether `HEAD` resolves to a commit;
    /// answer with `Event::Repository`.
    ObtainRepository,
    /// Have the engine compute the requested diff; answer with its delta list
    /// in `Event::Deltas`.
    ComputeDiff(DiffRequest),
    /// Read the file at this path, which is relative to the working tree, as
    /// text; answer with `Event::FileContent`. The file may have changed or
    /// gone since the diff was computed: a read that fails for whatever reason
    /// is answered with `Event::Failed` and ends the call.
    ReadFile(String),
    /// Have the engine print the computed diff as a patch; answer with
    /// `Event::Lines`.
    PrintDiff,
    /// Return what the state `Done` holds.
    Return,
}

/// The mathematical value of an [`Action`].
pub enum ActionView {
    ObtainRepository,
    ComputeDiff(DiffRequestView),
    ReadFile(Seq<char>),
    PrintDiff,
    Return,
}

impl View for Action {
    type V = ActionView;

    open spec fn view(&self) -> ActionView {
        match *self {
            Action::ObtainRepository => ActionView::ObtainRepository,
            Action::ComputeDiff(request) => ActionView::ComputeDiff(request@),
            Action::ReadFile(path) => ActionView::ReadFile(path@),
            Action::PrintDiff => ActionView::PrintDiff,
            Action::Return => ActionView::Return,
        }
    }
}

/// The error that ends a call when the work that `state` waits for fails.
pub open spec fn failure_of(state: DriverStateView) -> DiffError {
    match state {
        DriverStateView::SelectingBaseline { .. } => DiffError::RepositoryState(
            RepositoryFault::NoRepository,
        ),
        DriverStateView::BuildingSyntheticPatch { .. } => DiffError::FileRead,
        _ => DiffError::DiffEngine,
    }
}

/// The end of a call.
pub open spec fn finished(result: Result<Seq<DiffLineView>, DiffError>) -> (
    DriverStateView,
    ActionView,
) {
    (DriverStateView::Done(result), ActionView::Return)
}

/// The step that the machine takes from `state` on `event`. An event that
/// `state` does not wait for counts as a failure of the work that it does
/// wait for.
pub open spec fn step_model(state: DriverStateView, event: EventView) -> (
    DriverStateView,
    ActionView,
) {
    match state {
        DriverStateView::Done(_) => (state, ActionView::Return),
        DriverStateView::SelectingBaseline { path_filter, staged } => match event {
            EventView::Repository(status) => match select_baseline_spec(staged, status) {
                Ok(baseline) => if usable_pathspec(path_filter) {
                    (
                        DriverStateView::ComputingDiff {
                            request: DiffRequestView { baseline, pathspec: path_filter },
                        },
                        ActionView::ComputeDiff(
                            DiffRequestView { baseline, pathspec: path_filter },
                        ),
                    )
                } else {
                    finished(Err(DiffError::DiffEngine))
                },
                Err(error) => finished(Err(error)),
            },
            _ => finished(Err(failure_of(state))),
        },
        DriverStateView::ComputingDiff { request } => match event {
            EventView::Deltas(deltas) => if is_new_file_spec(deltas) {
                match deltas[0].new_path {
                    Some(new_file) => (
                        DriverStateView::BuildingSyntheticPatch { request, new_file },
                        ActionView::ReadFile(new_file),
                    ),
                    None => finished(Err(DiffError::FileRead)),
                }
            } else {
                (DriverStateView::Flattening, ActionView::PrintDiff)
            },
            _ => finished(Err(failure_of(state))),
        },
        DriverStateView::BuildingSyntheticPatch { request, new_file } => match event {
            EventView::FileContent(content) => finished(
                new_file_diff_spec(content, new_file, request),
            ),
            _ => finished(Err(failure_of(state))),
        },
        DriverStateView::Flattening => match event {
            EventView::Lines(lines) => finished(Ok(flatten_spec(lines))),
            _ => finished(Err(failure_of(state))),
        },
    }
}

/// The path filter that a call carries in `state`, as long as it has work for
/// the engine ahead of it.
pub open spec fn path_filter_of(state: DriverStateView) -> Option<Seq<char>> {
    match state {
        DriverStateView::SelectingBaseline { path_filter, .. } => Some(path_filter),
        DriverStateView::ComputingDiff { request } => Some(request.pathspec),
        DriverStateView::BuildingSyntheticPatch { request, .. } => Some(request.pathspec),
        _ => None,
    }
}

/// How far a call has come.
pub open spec fn progress(state: DriverStateView) -> nat {
    match state {
        DriverStateView::SelectingBaseline { .. } => 0,
        DriverStateView::ComputingDiff { .. } => 1,
        DriverStateView::BuildingSyntheticPatch { .. } => 2,
        DriverStateView::Flattening => 2,
        DriverStateView::Done(_) => 3,
    }
}

/// A staged diff is never taken against nothing: in a repository in which
/// `HEAD` resolves to no commit the call ends at once, with `NoHeadCommit`,
/// whatever the path filter is.
pub proof fn lemma_staged_diff_needs_head_commit(path_filter: Seq<char>)
    ensures
        step_model(
            DriverStateView::SelectingBaseline { path_filter, staged: true },
            EventView::Repository(RepositoryStatus::Unborn),
        ) == finished(Err(DiffError::RepositoryState(RepositoryFault::NoHeadCommit))),
{
}

/// The same findings give the same diff: whatever two steps from one state on
/// one event come to, they come to the same, be it a diff or an error. The
/// machine keeps nothing from call to call that could make them differ.
pub proof fn lemma_same_event_same_diff(
    state: DriverStateView,
    event: EventView,
    first: (DriverStateView, ActionView),
    second: (DriverStateView, ActionView),
)
    requires
        first == step_model(state, event),
        second == step_model(state, event),
    ensures
        first == second,
{
}

/// The path filter of a call is always applied: it stays what it was from
/// step to step, and the request that asks the engine for the diff carries
/// it, for either baseline.
pub proof fn lemma_path_filter_kept(state: DriverStateView, event: EventView)
    ensures
        ({
            let next = step_model(state, event);
            &&& path_filter_of(next.0) is Some ==> path_filter_of(next.0) == path_filter_of(state)
            &&& next.1 matches ActionView::ComputeDiff(request) ==> path_filter_of(state) == Some(
                request.pathspec,
            ) && usable_pathspec(request.pathspec)
        }),
{
}

/// No state is entered twice: every step brings a call that is not over
/// nearer to its end, so a call is over after three steps at most. A call
/// that is over stays as it is.
pub proof fn lemma_step_advances(state: DriverStateView, event: EventView)
    ensures
        ({
            let next = step_model(state, event);
            &&& state is Done ==> next == (state, ActionView::Return)
            &&& !(state is Done) ==> progress(next.0) > progress(state)
            &&& next.0 is Done <==> next.1 is Return
        }),
{
}

/// A failure in any state ends the call, with the error of the work that
/// failed.
pub proof fn lemma_failure_is_terminal(state: DriverStateView)
    requires
        !(state is Done),
    ensures
        step_model(state, EventView::Failed) == finished(Err(failure_of(state))),
{
}

/// The end of a call in failure.
fn fail(error: DiffError) -> (next: (DriverState, Action))
    ensures
        (next.0@, next.1@) == finished(Err(error)),
{
    (DriverState::Done(Err(error)), Action::Return)
}

/// Begins a call for the diff under `path_filter`, staged or not.
pub fn start(path_filter: String, staged: bool) -> (first: (DriverState, Action))
    ensures
        first.0@ == (DriverStateView::SelectingBaseline { path_filter: path_filter@, staged }),
        first.1@ == ActionView::ObtainRepository,
{
    (DriverState::SelectingBaseline { path_filter, staged }, Action::ObtainRepository)
}

/// Takes one step: from the state of the call and what the caller found to
/// the next state and what the caller is to do.
pub fn step(state: DriverState, event: Event) -> (next: (DriverState, Action))
    ensures
        (next.0@, next.1@) == step_model(state@, event@),
{
    match state {
        DriverState::Done(result) => (DriverState::Done(result), Action::Return),
        DriverState::SelectingBaseline { path_filter, staged } => match event {
            Event::Repository(status) => match select_baseline(staged, status) {
                Ok(baseline) => if pathspec_usable(path_filter.as_str()) {
                    let request = DiffRequest { baseline, pathspec: path_filter.clone() };
                    (
                        DriverState::ComputingDiff { request },
                        Action::ComputeDiff(DiffRequest { baseline, pathspec: path_filter }),
                    )
                } else {
                    fail(DiffError::DiffEngine)
                },
                Err(error) => fail(error),
            },
            _ => fail(DiffError::RepositoryState(RepositoryFault::NoRepository)),
        },
        DriverState::ComputingDiff { request } => match event {
            Event::Deltas(deltas) => if is_new_file(&deltas) {
                match &deltas[0].new_path {
                    Some(path) => {
                        let new_file = path.clone();
                        (
                            DriverState::BuildingSyntheticPatch { request, new_file },
                            Action::ReadFile(path.clone()),
                        )
                    },
                    None => fail(DiffError::FileRead),
                }
            } else {
                (DriverState::Flattening, Action::PrintDiff)
            },
            _ => fail(DiffError::DiffEngine),
        },
        DriverState::BuildingSyntheticPatch { request, new_file } => match event {
            Event::FileContent(content) => {
                let diff = new_file_diff(content.as_str(), new_file.as_str(), &request);
                (DriverState::Done(diff), Action::Return)
            },
            _ => fail(DiffError::FileRead),
        },
        DriverState::Flattening => match event {
            Event::Lines(lines) => (DriverState::Done(Ok(flatten(&lines))), Action::Return),
            _ => fail(DiffError::DiffEngine),
        },
    }
}

} // verus!
