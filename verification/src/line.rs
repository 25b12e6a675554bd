//! Single lines: what the engine emits and what the library hands out.

use vstd::prelude::*;
use vstd::slice::slice_to_vec;
use vstd::string::StringExecFns;
use vstd::utf8::{
    decode_utf8, encode_utf8, encode_utf8_decode_utf8, encode_utf8_valid_utf8, valid_utf8,
};

verus! {

/// The kind of a line of a diff.
#[derive(Copy, Clone, Debug, PartialEq, Eq, Structural)]
pub enum DiffLineType {
    /// Context, or anything else that is neither header nor change.
    Plain,
    /// The header of a hunk.
    Header,
    /// An added line.
    Add,
    /// A deleted line.
    Delete,
}

impl Default for DiffLineType {
    fn default() -> (t: DiffLineType)
        ensures
            t == DiffLineType::Plain,
    {
        DiffLineType::Plain
    }
}

/// A line as the diff engine emits it: the marker of its origin and its bytes.
#[derive(Clone, Debug, PartialEq, Eq)]
pub struct RawLine {
    pub origin: char,
    pub content: Vec<u8>,
}

impl View for RawLine {
    type V = (char, Seq<u8>);

    open spec fn view(&self) -> (char, Seq<u8>) {
        (self.origin, self.content@)
    }
}

impl DeepView for RawLine {
    type V = (char, Seq<u8>);

    open spec fn deep_view(&self) -> (char, Seq<u8>) {
        self@
    }
}

/// A line of a diff: its text and its kind.
#[derive(Clone, Debug, PartialEq)]
pub struct DiffLine {
    pub content: String,
    pub line_type: DiffLineType,
}

/// The mathematical value of a [`DiffLine`].
pub struct DiffLineView {
    pub content: Seq<char>,
    pub line_type: DiffLineType,
}

impl View for DiffLine {
    type V = DiffLineView;

    open spec fn view(&self) -> DiffLineView {
        DiffLineView { content: self.content@, line_type: self.line_type }
    }
}

impl DeepView for DiffLine {
    type V = DiffLineView;

    open spec fn deep_view(&self) -> DiffLineView {
        self@
    }
}

impl Default for DiffLine {
    fn default() -> (line: DiffLine)
        ensures
            line@ == (DiffLineView { content: Seq::empty(), line_type: DiffLineType::Plain }),
    {
        DiffLine { content: String::new(), line_type: DiffLineType::Plain }
    }
}

/// The marker of a file header. Lines that carry it repeat what the hunk
/// headers say and are dropped before classification.
pub open spec fn is_file_header(origin: char) -> bool {
    origin == 'F'
}

/// The kind of line that each origin marker stands for.
pub open spec fn classify_spec(origin: char) -> DiffLineType {
    if origin == 'H' {
        DiffLineType::Header
    } else if origin == '<' || origin == '-' {
        DiffLineType::Delete
    } else if origin == '>' || origin == '+' {
        DiffLineType::Add
    } else {
        DiffLineType::Plain
    }
}

/// Maps an origin marker to the kind of its line: `H` is a hunk header, `-` and
/// `<` are deletions, `+` and `>` are additions, every other marker (context
/// among them) has no kind.
pub fn classify(origin: char) -> (t: DiffLineType)
    ensures
        t == classify_spec(origin),
{
    match origin {
        'H' => DiffLineType::Header,
        '<' | '-' => DiffLineType::Delete,
        '>' | '+' => DiffLineType::Add,
        _ => DiffLineType::Plain,
    }
}

/// The table of origin markers, read from the kinds: each kind but the plain
/// one has its markers and no others, and the marker of a file header, should
/// it ever be classified, is plain.
pub proof fn lemma_classify_table(origin: char)
    ensures
        classify_spec(origin) == DiffLineType::Header <==> origin == 'H',
        classify_spec(origin) == DiffLineType::Delete <==> origin == '-' || origin == '<',
        classify_spec(origin) == DiffLineType::Add <==> origin == '+' || origin == '>',
        classify_spec(origin) == DiffLineType::Plain <==> !(origin == 'H' || origin == '-'
            || origin == '<' || origin == '+' || origin == '>'),
        is_file_header(origin) ==> classify_spec(origin) == DiffLineType::Plain,
{
}

/// The text that lenient decoding makes of bytes that are not UTF-8: what is
/// well formed decodes to its characters, what is not to U+FFFD.
pub uninterp spec fn lossy_utf8(bytes: Seq<u8>) -> Seq<char>;

/// The text that bytes are decoded to. Decoding is total: UTF-8 decodes to the
/// text that it encodes, anything else leniently.
pub open spec fn decoded(bytes: Seq<u8>) -> Seq<char> {
    if valid_utf8(bytes) {
        decode_utf8(bytes)
    } else {
        lossy_utf8(bytes)
    }
}

/// Calls `String::from_utf8_lossy`. Bytes that are UTF-8 come back as the text
/// that they encode. For other bytes the result is taken to depend on the
/// bytes alone, and is known here only by the name [`lossy_utf8`].
#[verifier::external_body]
fn decode_lossy(bytes: &[u8]) -> (text: String)
    ensures
        text@ == (if valid_utf8(bytes@) {
            decode_utf8(bytes@)
        } else {
            lossy_utf8(bytes@)
        }),
{
    String::from_utf8_lossy(bytes).into_owned()
}

/// Text that reaches the library encoded as UTF-8 is decoded to itself.
pub proof fn lemma_decoded_utf8(text: Seq<char>)
    ensures
        decoded(encode_utf8(text)) == text,
{
    encode_utf8_valid_utf8(text);
    encode_utf8_decode_utf8(text);
}

/// The line that a raw line becomes: its bytes decoded, its kind given by its
/// origin marker.
pub open spec fn line_of(raw: (char, Seq<u8>)) -> DiffLineView {
    DiffLineView { content: decoded(raw.1), line_type: classify_spec(raw.0) }
}

/// The blank line that is put between hunks.
pub open spec fn separator() -> DiffLineView {
    DiffLineView { content: seq!['\n'], line_type: DiffLineType::Plain }
}

impl RawLine {
    /// Appends the line with the given origin and content, as the engine
    /// reports it to its per-line callback, to `lines`. The answer is the
    /// callback's: whether the engine is to go on. It always is.
    pub fn record(lines: &mut Vec<RawLine>, origin: char, content: &[u8]) -> (go_on: bool)
        ensures
            go_on,
            final(lines).deep_view() == old(lines).deep_view().push((origin, content@)),
    {
        lines.push(RawLine { origin, content: slice_to_vec(content) });
        true
    }
}

impl DiffLine {
    /// Classifies and decodes a raw line. Decoding never fails: bytes that are
    /// not UTF-8 are replaced.
    pub fn from_raw(raw: &RawLine) -> (line: DiffLine)
        ensures
            line@ == line_of(raw@),
    {
        DiffLine { content: decode_lossy(raw.content.as_slice()), line_type: classify(raw.origin) }
    }

    /// The blank line that is put between hunks: a single newline, of no kind.
    pub fn separator() -> (line: DiffLine)
        ensures
            line@ == separator(),
    {
        proof {
            reveal_strlit("\n");
        }
        let content = String::from_str("\n");
        assert(content@ =~= seq!['\n']);
        DiffLine { content, line_type: DiffLineType::Plain }
    }
}

} // verus!
