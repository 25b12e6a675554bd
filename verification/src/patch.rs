//! The diff of a brand-new file, built from its content by the engine's
//! buffer-to-buffer patch.

use crate::baseline::{pathspec_usable, usable_pathspec, DiffRequest, DiffRequestView};
use crate::error::DiffError;
use crate::flatten::{flatten, flatten_spec, Diff};
use crate::line::{DiffLineView, RawLine};
use vstd::prelude::*;
use vstd::utf8::encode_utf8;

verus! {

/// The error type of the engine. Nothing of it is read: every failure of the
/// engine is a `DiffError::DiffEngine`.
#[verifier::external_type_specification]
#[verifier::external_body]
pub struct ExEngineError(git2::Error);

/// What the engine makes of the patch from `old_content` to `new_content`,
/// each under its path where it has one, with options that hold the path
/// filter `pathspec` and the flag `include_untracked` and are default
/// otherwise: the lines that it prints, origin marker and bytes of each in the
/// order of printing, or nothing where it fails to build or to print the
/// patch.
pub uninterp spec fn buffer_patch(
    old_content: Seq<u8>,
    old_path: Option<Seq<char>>,
    new_content: Seq<u8>,
    new_path: Option<Seq<char>>,
    pathspec: Seq<char>,
    include_untracked: bool,
) -> Option<Seq<(char, Seq<u8>)>>;

/// The text of a path that may be missing.
pub open spec fn path_text(path: Option<&str>) -> Option<Seq<char>> {
    match path {
        Some(text) => Some(text@),
        None => None,
    }
}

/// Calls `git2::Patch::from_buffers` on the two buffers and their paths and on
/// fresh `git2::DiffOptions` that hold the path filter and the flag of
/// `request`, then `git2::Patch::print`, and collects what the line callback
/// is given. No repository, configuration or attribute is involved, so both
/// whether the engine fails and what it prints are taken to depend on these
/// arguments alone; they are known here only by the name [`buffer_patch`].
/// `DiffOptions::pathspec` panics on a NUL character, which `requires` keeps
/// out.
#[verifier::external_body]
fn print_buffer_patch(
    old_content: &[u8],
    old_path: Option<&str>,
    new_content: &[u8],
    new_path: Option<&str>,
    request: &DiffRequest,
) -> (printed: Result<Vec<RawLine>, git2::Error>)
    requires
        usable_pathspec(request.pathspec@),
    ensures
        match printed {
            Ok(lines) => buffer_patch(
                old_content@,
                path_text(old_path),
                new_content@,
                path_text(new_path),
                request.pathspec@,
                request.baseline.include_untracked,
            ) == Some(lines.deep_view()),
            Err(_) => buffer_patch(
                old_content@,
                path_text(old_path),
                new_content@,
                path_text(new_path),
                request.pathspec@,
                request.baseline.include_untracked,
            ) is None,
        },
{
    let mut options = git2::DiffOptions::new();
    options.pathspec(request.pathspec.as_str());
    options.include_untracked(request.baseline.include_untracked);
    let old_path = old_path.map(std::path::Path::new);
    let new_path = new_path.map(std::path::Path::new);
    let mut patch = git2::Patch::from_buffers(old_content, old_path, new_content, new_path, Some(&mut options))?;
    let mut lines: Vec<RawLine> = Vec::new();
    patch.print(&mut |_delta, _hunk, line| RawLine::record(&mut lines, line.origin(), line.content()))?;
    Ok(lines)
}

/// Turns the engine's answer to a request for printed lines into the answer
/// of the library: the lines are flattened, a failure of the engine is a
/// `DiffEngine` error whatever the engine says of it.
pub fn diff_of_printed(printed: Result<Vec<RawLine>, git2::Error>) -> (diff: Result<Diff, DiffError>)
    ensures
        match printed {
            Ok(lines) => diff matches Ok(d) && d@ == flatten_spec(lines.deep_view()),
            Err(_) => diff == Err::<Diff, DiffError>(DiffError::DiffEngine),
        },
{
    match printed {
        Ok(lines) => Ok(flatten(&lines)),
        Err(_) => Err(DiffError::DiffEngine),
    }
}

/// What the engine makes of the synthetic patch of a new file: the patch from
/// an empty buffer without a path to the content of the file under the file's
/// path, with the options of `request`.
pub open spec fn new_file_patch(
    content: Seq<char>,
    new_path: Seq<char>,
    request: DiffRequestView,
) -> Option<Seq<(char, Seq<u8>)>> {
    buffer_patch(
        Seq::empty(),
        None,
        encode_utf8(content),
        Some(new_path),
        request.pathspec,
        request.baseline.include_untracked,
    )
}

/// The diff of a brand-new file with the given content and path, or the
/// reason why there is none: a path filter that the engine cannot take and a
/// failure of the engine are both a `DiffEngine` error, and what the engine
/// prints is flattened like any other diff.
pub open spec fn new_file_diff_spec(
    content: Seq<char>,
    new_path: Seq<char>,
    request: DiffRequestView,
) -> Result<Seq<DiffLineView>, DiffError> {
    if !usable_pathspec(request.pathspec) {
        Err(DiffError::DiffEngine)
    } else {
        match new_file_patch(content, new_path, request) {
            Some(lines) => Ok(flatten_spec(lines)),
            None => Err(DiffError::DiffEngine),
        }
    }
}

/// The diff of a brand-new file with the given content: the engine's patch
/// from nothing to the content, flattened like any other diff. The engine gets
/// the options of the diff that showed the file, its path filter among them.
/// The call succeeds just when the engine can take the path filter and does
/// not fail on the patch; every failure is a `DiffEngine` error.
pub fn new_file_diff(content: &str, new_path: &str, request: &DiffRequest) -> (diff: Result<
    Diff,
    DiffError,
>)
    ensures
        match diff {
            Ok(d) => new_file_diff_spec(content@, new_path@, request@) == Ok::<
                Seq<DiffLineView>,
                DiffError,
            >(d@),
            Err(e) => new_file_diff_spec(content@, new_path@, request@) == Err::<
                Seq<DiffLineView>,
                DiffError,
            >(e),
        },
{
    if !pathspec_usable(request.pathspec.as_str()) {
        return Err(DiffError::DiffEngine);
    }
    let nothing: Vec<u8> = Vec::new();
    let printed = print_buffer_patch(
        nothing.as_slice(),
        None,
        content.as_bytes(),
        Some(new_path),
        request,
    );
    diff_of_printed(printed)
}

} // verus!
