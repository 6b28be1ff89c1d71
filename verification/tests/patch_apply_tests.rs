use projectying::hunk::apply_patch_hunks;
use projectying::patch::{parse_codex_patch, CodexPatchOperation};
use projectying::patch_apply::{
    added_file_change, build_apply_patch_output_preview, deleted_file_change, summarize_apply_patch_result,
    updated_file_change, PatchApplyResult,
};
use projectying::patch_diag::patch_failure_message;
use projectying::patch_view::{patch_lines_to_text, text_to_patch_lines};

/// Applies the single update of `patch` to `text`, as a file named `name`.
fn apply_update(text: &str, patch: &str, name: &str) -> Result<(String, PatchApplyResult), String> {
    let ops = parse_codex_patch(patch).expect("patch parses");
    let mut result = PatchApplyResult::new();
    let mut lines = text_to_patch_lines(text);
    match &ops[0] {
        CodexPatchOperation::Update { hunks, .. } => match apply_patch_hunks(&mut lines, hunks) {
            Ok(report) => {
                let (added, removed) = (report.added_chars, report.removed_chars);
                result.record(updated_file_change(name.to_string(), report), added, removed);
                Ok((patch_lines_to_text(&lines), result))
            }
            Err(failure) => Err(patch_failure_message(&failure, name)),
        },
        _ => panic!("expected an update"),
    }
}

#[test]
fn apply_codex_patch_rejects_eof_mismatch() {
    let patch = "*** Begin Patch\n*** Update File: sample.txt\n@@\n-b\n+x\n*** End of File\n*** End Patch\n";
    let err = apply_update("a\nb\nc\n", patch, "sample.txt").expect_err("should fail");
    assert!(err.contains("Failed to find expected lines in sample.txt"));
}

#[test]
fn apply_codex_patch_failure_reports_candidate_lines() {
    let patch = "*** Begin Patch\n*** Update File: sample.txt\n@@\n-let detail = \"任务：白天发言\"\n+let detail = \"任务：白天发言。\"\n*** End Patch\n";
    let err = apply_update("alpha\nlet detail = \"任务：白天发言。\"\nomega\n", patch, "sample.txt")
        .expect_err("should fail");
    assert!(err.contains("诊断:"));
    assert!(err.contains("最接近候选"));
    assert!(err.contains("line 2"));
}

#[test]
fn apply_codex_patch_inserts_after_anchor_line() {
    let patch = "*** Begin Patch\n*** Update File: sample.rs\n@@ fn foo() {\n+    println!(\"hi\");\n*** End Patch\n";
    let (text, result) = apply_update("fn foo() {\n}\n", patch, "sample.rs").expect("apply patch");
    assert_eq!(text, "fn foo() {\n    println!(\"hi\");\n}\n");
    assert!(build_apply_patch_output_preview(&result).contains("println!(\"hi\");"));
}

#[test]
fn summary_lists_changed_files_or_says_none() {
    let empty = PatchApplyResult::new();
    assert_eq!(summarize_apply_patch_result(&empty), "No files were modified.");
    let mut result = PatchApplyResult::new();
    let (add, chars) = added_file_change("src/new.rs".to_string(), &vec!["a".to_string(), "bc".to_string()]);
    assert_eq!(chars, 3);
    result.record(add, chars, 0);
    let (del, removed) = deleted_file_change("old.rs".to_string(), &vec!["xyz".to_string()]);
    result.record(del, 0, removed);
    assert_eq!(summarize_apply_patch_result(&result), "Success. Updated the following files:\nA src/new.rs\nD old.rs");
    assert_eq!((result.added_lines, result.removed_lines), (2, 1));
    assert_eq!((result.added_chars, result.removed_chars), (3, 3));
}

#[test]
fn output_preview_lists_each_file_with_counts() {
    let mut result = PatchApplyResult::new();
    let (add, chars) = added_file_change("a.txt".to_string(), &vec!["one".to_string()]);
    result.record(add, chars, 0);
    let preview = build_apply_patch_output_preview(&result);
    let mut lines = preview.lines();
    assert_eq!(lines.next(), Some("ApplyPatch succeeded · Edited +1 lines -0 lines · 1 file"));
    assert_eq!(lines.next(), Some(""));
    assert_eq!(lines.next(), Some("• Edited a.txt (+1 -0)"));
    assert!(lines.next().unwrap().contains("one"));
    let nothing = build_apply_patch_output_preview(&PatchApplyResult::new());
    assert_eq!(nothing, "ApplyPatch succeeded · Edited +0 lines -0 lines · 0 files");
}

#[test]
fn totals_saturate() {
    let mut result = PatchApplyResult::new();
    result.added_chars = usize::MAX - 1;
    let (add, _) = added_file_change("a".to_string(), &vec![]);
    result.record(add, 5, 0);
    assert_eq!(result.added_chars, usize::MAX);
}

#[test]
fn patch_errors_read_as_messages() {
    let err = parse_codex_patch("hello").unwrap_err();
    assert_eq!(err.message(), "The first line of the patch must be '*** Begin Patch'");
    let err = parse_codex_patch("*** Begin Patch\n*** Frobnicate: x\n*** End Patch\n").unwrap_err();
    assert!(err.message().starts_with("Invalid patch hunk on line 2: '*** Frobnicate: x' is not a valid hunk header."));
    let err = parse_codex_patch("*** Begin Patch\n*** Add File: a.txt\n").unwrap_err();
    assert!(err.message().contains("Add file hunk for path 'a.txt' is empty") || err.message() == "Missing *** End Patch");
}
