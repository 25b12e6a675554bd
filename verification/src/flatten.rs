//! Flattening: from the engine's stream of raw lines to the diff that is shown.

use crate::line::{is_file_header, line_of, separator, DiffLine, DiffLineType, DiffLineView, RawLine};
use vstd::prelude::*;

verus! {

/// A diff: its lines in the order in which the engine emitted them, the hunks
/// separated by blank lines. The same line may occur many times.
#[derive(Clone, Debug, PartialEq)]
pub struct Diff(pub Vec<DiffLine>);

impl View for Diff {
    type V = Seq<DiffLineView>;

    open spec fn view(&self) -> Seq<DiffLineView> {
        self.0.deep_view()
    }
}

impl Default for Diff {
    fn default() -> (diff: Diff)
        ensures
            diff@ == Seq::<DiffLineView>::empty(),
    {
        let diff = Diff(Vec::new());
        diff
    }
}

/// The diff `acc` with one more classified line: a hunk header that is not the
/// very first line is set off by a separator.
pub open spec fn push_spec(acc: Seq<DiffLineView>, line: DiffLineView) -> Seq<DiffLineView> {
    if line.line_type == DiffLineType::Header && acc.len() > 0 {
        acc.push(separator()).push(line)
    } else {
        acc.push(line)
    }
}

/// The diff `acc` after the engine has emitted `raw`: a file header changes
/// nothing, any other line is classified, decoded and appended.
pub open spec fn put_spec(acc: Seq<DiffLineView>, raw: (char, Seq<u8>)) -> Seq<DiffLineView> {
    if is_file_header(raw.0) {
        acc
    } else {
        push_spec(acc, line_of(raw))
    }
}

/// A classified line as it stands in the diff: alone, or behind a separator if
/// it is a hunk header and not the first of the lines.
pub open spec fn set_off(index: int, line: DiffLineView) -> Seq<DiffLineView> {
    if line.line_type == DiffLineType::Header && index > 0 {
        seq![separator(), line]
    } else {
        seq![line]
    }
}

/// The classified lines in their order, with a separator before every hunk
/// header but a leading one.
pub open spec fn separated(lines: Seq<DiffLineView>) -> Seq<DiffLineView> {
    lines.map(|index: int, line: DiffLineView| set_off(index, line)).flatten()
}

/// The lines of the stream that are kept, classified and decoded: all but the
/// file headers, in their order.
pub open spec fn classified(raw: Seq<(char, Seq<u8>)>) -> Seq<DiffLineView> {
    raw.filter_map(
        |r: (char, Seq<u8>)|
            if is_file_header(r.0) {
                Option::<DiffLineView>::None
            } else {
                Option::Some(line_of(r))
            },
    )
}

/// The diff that a stream of raw lines flattens to.
pub open spec fn flatten_spec(raw: Seq<(char, Seq<u8>)>) -> Seq<DiffLineView> {
    separated(classified(raw))
}

/// The number of hunk headers among `lines`.
pub open spec fn header_count(lines: Seq<DiffLineView>) -> nat {
    lines.filter(|line: DiffLineView| line.line_type == DiffLineType::Header).len()
}

/// The number of hunk headers among `lines` that are not the very first line.
pub open spec fn separator_count(lines: Seq<DiffLineView>) -> nat {
    if lines.len() > 0 && lines[0].line_type == DiffLineType::Header {
        (header_count(lines) - 1) as nat
    } else {
        header_count(lines)
    }
}

/// What is left of a diff when every line that stands directly before a hunk
/// header is taken out.
pub open spec fn without_separators(diff: Seq<DiffLineView>) -> Seq<DiffLineView>
    decreases diff.len(),
{
    if diff.len() == 0 {
        diff
    } else if diff.len() >= 2 && diff.last().line_type == DiffLineType::Header {
        without_separators(diff.drop_last().drop_last()).push(diff.last())
    } else {
        without_separators(diff.drop_last()).push(diff.last())
    }
}

/// One more classified line stands at the end of the diff, set off or not.
proof fn lemma_separated_last(lines: Seq<DiffLineView>, line: DiffLineView)
    ensures
        separated(lines.push(line)) == separated(lines) + set_off(lines.len() as int, line),
{
    let place = |index: int, line: DiffLineView| set_off(index, line);
    assert(lines.push(line).map(place) =~= lines.map(place).push(set_off(lines.len() as int, line)));
    lines.map(place).lemma_flatten_push(set_off(lines.len() as int, line));
}

/// The number of hunk headers with one more line.
proof fn lemma_header_count_push(lines: Seq<DiffLineView>, line: DiffLineView)
    ensures
        header_count(lines.push(line)) == header_count(lines) + if line.line_type
            == DiffLineType::Header {
            1nat
        } else {
            0nat
        },
        lines.len() > 0 && lines[0].line_type == DiffLineType::Header ==> header_count(lines) >= 1,
    decreases lines.len(),
{
    reveal(Seq::filter);
    assert(lines.push(line).drop_last() =~= lines);
    if lines.len() > 1 {
        lemma_header_count_push(lines.drop_last(), lines.last());
    }
}

/// Separators are never lost or doubled: a diff is as long as its classified
/// lines and its separators together, and it has one separator for every hunk
/// header but a leading one.
pub proof fn lemma_separated_len(lines: Seq<DiffLineView>)
    ensures
        separated(lines).len() == lines.len() + separator_count(lines),
    decreases lines.len(),
{
    reveal(Seq::filter);
    if lines.len() > 0 {
        let init = lines.drop_last();
        assert(init.push(lines.last()) =~= lines);
        lemma_separated_len(init);
        lemma_separated_last(init, lines.last());
        lemma_header_count_push(init, lines.last());
    }
}

/// Appending a classified line to a diff is what keeps it separated: the test
/// for a line before it is the test for a diff that is not empty.
pub proof fn lemma_separated_push(lines: Seq<DiffLineView>, line: DiffLineView)
    ensures
        separated(lines.push(line)) == push_spec(separated(lines), line),
{
    lemma_separated_last(lines, line);
    lemma_separated_len(lines);
}

/// One more raw line at the end of the stream is one more step of flattening.
pub proof fn lemma_flatten_push(raw: Seq<(char, Seq<u8>)>, next: (char, Seq<u8>))
    ensures
        flatten_spec(raw.push(next)) == put_spec(flatten_spec(raw), next),
{
    let stream = raw.push(next);
    assert(stream.drop_last() =~= raw);
    if !is_file_header(next.0) {
        assert(classified(stream) =~= classified(raw).push(line_of(next)));
        lemma_separated_push(classified(raw), line_of(next));
    }
}

/// The empty stream flattens to the empty diff.
pub proof fn lemma_flatten_empty()
    ensures
        flatten_spec(Seq::empty()) == Seq::<DiffLineView>::empty(),
{
    lemma_separated_len(Seq::empty());
}

/// A diff begins with its first classified line, never with a separator.
pub proof fn lemma_separated_first(lines: Seq<DiffLineView>)
    requires
        lines.len() > 0,
    ensures
        separated(lines).len() > 0,
        separated(lines)[0] == lines[0],
    decreases lines.len(),
{
    let init = lines.drop_last();
    assert(init.push(lines.last()) =~= lines);
    lemma_separated_last(init, lines.last());
    lemma_separated_len(init);
    if init.len() > 0 {
        lemma_separated_first(init);
    }
}

/// Every hunk header of a diff but a leading one has a separator directly
/// before it.
pub proof fn lemma_separator_before_header(lines: Seq<DiffLineView>, k: int)
    requires
        1 <= k < separated(lines).len(),
        separated(lines)[k].line_type == DiffLineType::Header,
    ensures
        separated(lines)[k - 1] == separator(),
    decreases lines.len(),
{
    lemma_separated_len(lines);
    if lines.len() > 0 {
        let init = lines.drop_last();
        assert(init.push(lines.last()) =~= lines);
        lemma_separated_last(init, lines.last());
        lemma_separated_len(init);
        if k < separated(init).len() {
            lemma_separator_before_header(init, k);
        }
    }
}

/// Flattening invents and loses nothing: when the separators are taken out of
/// a diff again, the classified lines are left, each once and in its place.
pub proof fn lemma_without_separators(lines: Seq<DiffLineView>)
    ensures
        without_separators(separated(lines)) == lines,
    decreases lines.len(),
{
    lemma_separated_len(lines);
    if lines.len() > 0 {
        let init = lines.drop_last();
        let last = lines.last();
        let before = separated(init);
        let diff = separated(lines);
        assert(init.push(last) =~= lines);
        lemma_separated_push(init, last);
        lemma_without_separators(init);
        if last.line_type == DiffLineType::Header && before.len() > 0 {
            assert(diff.drop_last().drop_last() =~= before);
        } else {
            assert(diff.drop_last() =~= before);
        }
    }
}

impl Diff {
    /// Appends a classified line, and before it a separator if it is a hunk
    /// header and not the first line of the diff.
    pub fn push_line(&mut self, line: DiffLine)
        ensures
            final(self)@ == push_spec(old(self)@, line@),
    {
        if line.line_type == DiffLineType::Header && self.0.len() > 0 {
            self.0.push(DiffLine::separator());
        }
        self.0.push(line);
    }

    /// Takes one line from the engine: a file header is dropped, any other
    /// line is classified, decoded and appended.
    pub fn put(&mut self, raw: &RawLine)
        ensures
            final(self)@ == put_spec(old(self)@, raw@),
    {
        if raw.origin != 'F' {
            self.push_line(DiffLine::from_raw(raw));
        }
    }
}

/// Flattens the lines that the engine emitted, in their order, into a diff.
pub fn flatten(raw: &Vec<RawLine>) -> (diff: Diff)
    ensures
        diff@ == flatten_spec(raw.deep_view()),
{
    let mut diff = Diff(Vec::new());
    let mut i: usize = 0;
    while i < raw.len()
        invariant
            i <= raw.len(),
            diff@ == flatten_spec(raw.deep_view().take(i as int)),
        decreases raw.len() - i,
    {
        proof {
            let seen = raw.deep_view().take(i as int);
            lemma_flatten_push(seen, raw[i as int]@);
            assert(raw.deep_view().take(i + 1) =~= seen.push(raw[i as int]@));
        }
        diff.put(&raw[i]);
        i += 1;
    }
    assert(raw.deep_view().take(i as int) =~= raw.deep_view());
    diff
}

} // verus!
