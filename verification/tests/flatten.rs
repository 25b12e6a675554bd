use gitdiff::{flatten, Diff, DiffLine, DiffLineType, RawLine};

fn line(content: &str, line_type: DiffLineType) -> DiffLine {
    DiffLine { content: content.to_string(), line_type }
}

fn raw(origin: char, content: &str) -> RawLine {
    RawLine { origin, content: content.as_bytes().to_vec() }
}

fn separator() -> DiffLine {
    line("\n", DiffLineType::Plain)
}

#[test]
fn header_add_header_delete_gets_one_separator() {
    let mut diff = Diff::default();
    diff.push_line(line("@@ -1 +1 @@\n", DiffLineType::Header));
    diff.push_line(line("a\n", DiffLineType::Add));
    diff.push_line(line("@@ -9 +9 @@\n", DiffLineType::Header));
    diff.push_line(line("b\n", DiffLineType::Delete));
    assert_eq!(
        diff,
        Diff(vec![
            line("@@ -1 +1 @@\n", DiffLineType::Header),
            line("a\n", DiffLineType::Add),
            separator(),
            line("@@ -9 +9 @@\n", DiffLineType::Header),
            line("b\n", DiffLineType::Delete),
        ])
    );
    assert_eq!(diff.0.len(), 5);
}

#[test]
fn leading_header_gets_no_separator() {
    let mut diff = Diff::default();
    diff.push_line(line("@@\n", DiffLineType::Header));
    assert_eq!(diff, Diff(vec![line("@@\n", DiffLineType::Header)]));
}

#[test]
fn header_after_plain_line_gets_a_separator() {
    let mut diff = Diff::default();
    diff.push_line(line("context\n", DiffLineType::Plain));
    diff.push_line(line("@@\n", DiffLineType::Header));
    assert_eq!(
        diff,
        Diff(vec![line("context\n", DiffLineType::Plain), separator(), line("@@\n", DiffLineType::Header)])
    );
}

#[test]
fn headers_in_a_row_are_each_set_off() {
    let mut diff = Diff::default();
    for name in ["one", "two", "three"] {
        diff.push_line(line(name, DiffLineType::Header));
    }
    assert_eq!(
        diff,
        Diff(vec![
            line("one", DiffLineType::Header),
            separator(),
            line("two", DiffLineType::Header),
            separator(),
            line("three", DiffLineType::Header),
        ])
    );
}

#[test]
fn lines_that_are_no_headers_get_no_separator() {
    let mut diff = Diff::default();
    diff.push_line(line("a\n", DiffLineType::Add));
    diff.push_line(line("b\n", DiffLineType::Delete));
    diff.push_line(line("c\n", DiffLineType::Plain));
    assert_eq!(diff.0.len(), 3);
    assert!(diff.0.iter().all(|l| *l != separator()));
}

#[test]
fn put_drops_file_headers() {
    let mut diff = Diff::default();
    diff.put(&raw('F', "diff --git a/x b/x\n"));
    assert_eq!(diff, Diff(vec![]));
    diff.put(&raw('H', "@@ -1 +1 @@\n"));
    diff.put(&raw('F', "--- a/x\n"));
    diff.put(&raw('+', "x\n"));
    assert_eq!(
        diff,
        Diff(vec![line("@@ -1 +1 @@\n", DiffLineType::Header), line("x\n", DiffLineType::Add)])
    );
}

#[test]
fn put_sets_a_later_header_off() {
    let mut diff = Diff(vec![line("x\n", DiffLineType::Add)]);
    diff.put(&raw('H', "@@ -7 +7 @@\n"));
    assert_eq!(
        diff,
        Diff(vec![line("x\n", DiffLineType::Add), separator(), line("@@ -7 +7 @@\n", DiffLineType::Header)])
    );
}

#[test]
fn flatten_of_nothing_is_empty() {
    assert_eq!(flatten(&vec![]), Diff(vec![]));
}

#[test]
fn flatten_of_file_headers_alone_is_empty() {
    let stream = vec![raw('F', "diff --git a/x b/x\n"), raw('F', "index 1..2\n")];
    assert_eq!(flatten(&stream), Diff(vec![]));
}

#[test]
fn flatten_of_a_patch_with_two_hunks() {
    let stream = vec![
        raw('F', "diff --git a/f b/f\nindex 1..2 100644\n--- a/f\n+++ b/f\n"),
        raw('H', "@@ -1,3 +1,3 @@\n"),
        raw(' ', "one\n"),
        raw('-', "two\n"),
        raw('+', "2\n"),
        raw(' ', "three\n"),
        raw('H', "@@ -20,2 +20,3 @@\n"),
        raw(' ', "\n"),
        raw('+', "end"),
        raw('>', "\n\\ No newline at end of file\n"),
        raw('<', "\n\\ No newline at end of file\n"),
        raw('=', "\n\\ No newline at end of file\n"),
        raw('B', "Binary files differ\n"),
    ];
    assert_eq!(
        flatten(&stream),
        Diff(vec![
            line("@@ -1,3 +1,3 @@\n", DiffLineType::Header),
            line("one\n", DiffLineType::Plain),
            line("two\n", DiffLineType::Delete),
            line("2\n", DiffLineType::Add),
            line("three\n", DiffLineType::Plain),
            separator(),
            line("@@ -20,2 +20,3 @@\n", DiffLineType::Header),
            line("\n", DiffLineType::Plain),
            line("end", DiffLineType::Add),
            line("\n\\ No newline at end of file\n", DiffLineType::Add),
            line("\n\\ No newline at end of file\n", DiffLineType::Delete),
            line("\n\\ No newline at end of file\n", DiffLineType::Plain),
            line("Binary files differ\n", DiffLineType::Plain),
        ])
    );
}

#[test]
fn flatten_counts_the_first_kept_line_not_the_first_emitted() {
    // The file header comes first in the stream, but the hunk header is the
    // first line of the diff and gets no separator.
    let stream = vec![raw('F', "diff\n"), raw('H', "@@\n"), raw('H', "@@\n")];
    assert_eq!(
        flatten(&stream),
        Diff(vec![line("@@\n", DiffLineType::Header), separator(), line("@@\n", DiffLineType::Header)])
    );
}

#[test]
fn flatten_keeps_repeated_lines() {
    let stream = vec![raw(' ', "}\n"), raw(' ', "}\n"), raw(' ', "}\n")];
    let diff = flatten(&stream);
    assert_eq!(diff.0.len(), 3);
    assert!(diff.0.iter().all(|l| *l == line("}\n", DiffLineType::Plain)));
}

#[test]
fn flatten_replaces_bytes_that_are_not_utf8() {
    let stream = vec![RawLine { origin: '+', content: vec![0xe2, 0x82, b'!', b'\n'] }];
    assert_eq!(flatten(&stream), Diff(vec![line("\u{fffd}!\n", DiffLineType::Add)]));
}

#[test]
fn separators_are_the_headers_but_a_leading_one() {
    let kinds = [
        DiffLineType::Header,
        DiffLineType::Add,
        DiffLineType::Header,
        DiffLineType::Header,
        DiffLineType::Delete,
        DiffLineType::Plain,
        DiffLineType::Header,
    ];
    // First line a header: one separator less than there are headers.
    let mut diff = Diff::default();
    for kind in kinds {
        diff.push_line(line("x", kind));
    }
    assert_eq!(diff.0.len(), kinds.len() + 4 - 1);
    // First line no header: as many separators as there are headers.
    let mut diff = Diff::default();
    for kind in &kinds[1..] {
        diff.push_line(line("x", *kind));
    }
    assert_eq!(diff.0.len(), kinds.len() - 1 + 3);
}

#[test]
fn taking_the_separators_out_gives_the_lines_back() {
    let lines = vec![
        line("\n", DiffLineType::Plain),
        line("h1", DiffLineType::Header),
        line("\n", DiffLineType::Plain),
        line("h2", DiffLineType::Header),
        line("+", DiffLineType::Add),
    ];
    let mut diff = Diff::default();
    for l in lines.iter() {
        diff.push_line(l.clone());
    }
    let mut kept = Vec::new();
    for (k, l) in diff.0.iter().enumerate() {
        let before_header = k + 1 < diff.0.len() && diff.0[k + 1].line_type == DiffLineType::Header;
        if !before_header {
            kept.push(l.clone());
        }
    }
    assert_eq!(kept, lines);
    // Every header but a leading one stands behind a separator.
    for k in 1..diff.0.len() {
        if diff.0[k].line_type == DiffLineType::Header {
            assert_eq!(diff.0[k - 1], separator());
        }
    }
}

#[test]
fn flatten_twice_gives_equal_diffs() {
    let stream = vec![raw('H', "@@\n"), raw('+', "a\n"), raw('H', "@@\n"), raw('-', "b\n")];
    assert_eq!(flatten(&stream), flatten(&stream));
}
