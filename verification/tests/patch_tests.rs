use projectying::hunk::{apply_patch_hunks, PatchHunkFailure};
use projectying::patch::{parse_codex_patch, CodexPatchHunk, CodexPatchLine, CodexPatchOperation, PatchParseError};
use projectying::patch_view::{
    build_apply_patch_input_preview, file_count_label, patch_lines_to_text, summarize_patch_text,
    text_to_patch_lines,
};

#[test]
fn build_apply_patch_input_preview_uses_summary_first_line() {
    let preview = build_apply_patch_input_preview(
        "\
*** Begin Patch
*** Update File: src/main.rs
@@
-old
+new
*** End Patch
",
    );
    assert!(preview.starts_with("Edited +3 chars -3 chars · 1 file"));
    assert!(preview.contains("*** Update File: src/main.rs"));
}

#[test]
fn parse_reads_add_delete_and_update() {
    let ops = parse_codex_patch(
        "*** Begin Patch\r\n*** Add File: a.txt\r\n+hi\r\n*** Delete File: b.txt\n*** Update File: c.txt\n*** Move to: d.txt\n@@ fn main\n ctx\n-x\n+y\n*** End of File\n*** End Patch",
    )
    .expect("parses");
    assert_eq!(ops.len(), 3);
    assert_eq!(ops[0], CodexPatchOperation::Add { path: "a.txt".to_string(), lines: vec!["hi".to_string()] });
    assert_eq!(ops[1], CodexPatchOperation::Delete { path: "b.txt".to_string() });
    match &ops[2] {
        CodexPatchOperation::Update { path, move_to, hunks } => {
            assert_eq!(path, "c.txt");
            assert_eq!(move_to.as_deref(), Some("d.txt"));
            assert_eq!(hunks.len(), 1);
            assert_eq!(hunks[0].anchor.as_deref(), Some("fn main"));
            assert!(hunks[0].eof);
        }
        other => panic!("unexpected {other:?}"),
    }
}

#[test]
fn parse_errors_name_the_problem() {
    assert_eq!(parse_codex_patch("hello"), Err(PatchParseError::MissingBegin));
    assert_eq!(parse_codex_patch("*** Begin Patch\n*** Add File: a\n*** End Patch").is_err(), true);
    assert_eq!(
        parse_codex_patch("*** Begin Patch\n*** Update File: a\n-x\n"),
        Err(PatchParseError::MissingEnd)
    );
}

#[test]
fn hunks_apply_at_their_first_match() {
    let mut lines = vec!["a".to_string(), "b".to_string(), "c".to_string()];
    let hunk = CodexPatchHunk {
        anchor: None,
        lines: vec![
            CodexPatchLine::Context("a".to_string()),
            CodexPatchLine::Delete("b".to_string()),
            CodexPatchLine::Add("B".to_string()),
        ],
        eof: false,
    };
    let report = apply_patch_hunks(&mut lines, &vec![hunk]).expect("applies");
    assert_eq!(lines, vec!["a".to_string(), "B".to_string(), "c".to_string()]);
    assert_eq!(report.added_lines, 1);
    assert_eq!(report.removed_lines, 1);
}

#[test]
fn missing_lines_are_reported() {
    let mut lines = vec!["a".to_string()];
    let hunk = CodexPatchHunk {
        anchor: None,
        lines: vec![CodexPatchLine::Delete("zzz".to_string())],
        eof: false,
    };
    match apply_patch_hunks(&mut lines, &vec![hunk]) {
        Err(PatchHunkFailure::LinesMissing { expected, .. }) => assert_eq!(expected, vec!["zzz".to_string()]),
        other => panic!("unexpected {other:?}"),
    }
}

#[test]
fn text_and_lines_round_trip() {
    let text = "one\ntwo\n";
    assert_eq!(patch_lines_to_text(&text_to_patch_lines(text)), text);
    assert_eq!(file_count_label(1), "1 file");
    assert_eq!(file_count_label(3), "3 files");
    let stats = summarize_patch_text("*** Begin Patch\n*** Add File: x\n+abc\n*** End Patch\n");
    assert_eq!(stats.added_chars, 3);
}

#[test]
fn parse_codex_patch_accepts_update_add_delete_and_move() {
    let patch = "\
*** Begin Patch
*** Update File: old.txt
*** Move to: moved.txt
@@
-old
+new
*** Add File: nested/new.txt
+hello
*** Delete File: remove.txt
*** End Patch
";
    let operations = parse_codex_patch(patch).expect("parse patch");
    assert_eq!(operations.len(), 3);
    match &operations[0] {
        CodexPatchOperation::Update { path, move_to, hunks } => {
            assert_eq!(path, "old.txt");
            assert_eq!(move_to.as_deref(), Some("moved.txt"));
            assert_eq!(hunks.len(), 1);
        }
        other => panic!("unexpected op: {other:?}"),
    }
    match &operations[1] {
        CodexPatchOperation::Add { path, lines } => {
            assert_eq!(path, "nested/new.txt");
            assert_eq!(lines, &vec!["hello".to_string()]);
        }
        other => panic!("unexpected op: {other:?}"),
    }
    assert!(matches!(
        &operations[2],
        CodexPatchOperation::Delete { path } if path == "remove.txt"
    ));
}

#[test]
fn parse_codex_patch_accepts_whitespace_padded_markers() {
    let patch = "\
 *** Begin Patch
  *** Update File: foo.txt
@@
-old
+new
 *** End Patch
";
    let operations = parse_codex_patch(patch).expect("parse patch");
    assert!(matches!(
        &operations[0],
        CodexPatchOperation::Update { path, .. } if path == "foo.txt"
    ));
}
