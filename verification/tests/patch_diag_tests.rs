use projectying::hunk::{apply_patch_hunks, PatchHunkFailure};
use projectying::patch::{CodexPatchHunk, CodexPatchLine};
use projectying::patch_diag::{
    build_anchor_not_found_message, build_expected_lines_not_found_message, find_anchor_candidate_matches,
    find_exact_hunk_matches, find_hunk_candidate_matches, patch_failure_message, patch_line_similarity_score,
    PatchCandidateMatch,
};

fn strings(items: &[&str]) -> Vec<String> {
    items.iter().map(|s| s.to_string()).collect()
}

fn chars(s: &str) -> Vec<char> {
    s.chars().collect()
}

#[test]
fn similarity_scores_follow_the_documented_steps() {
    assert_eq!(patch_line_similarity_score(&chars("abc"), &chars("abc")), 100);
    assert_eq!(patch_line_similarity_score(&chars("  foo"), &chars("foo")), 88);
    assert_eq!(patch_line_similarity_score(&chars("Foo"), &chars("foo")), 72);
    assert_eq!(patch_line_similarity_score(&chars("hello world"), &chars("hello")), 60);
    assert_eq!(patch_line_similarity_score(&chars("abc"), &chars("xyz")), 0);
    assert_eq!(patch_line_similarity_score(&chars("fn main() {"), &chars("fn mian() {")), 40);
    assert_eq!(patch_line_similarity_score(&chars(""), &chars("")), 100);
}

#[test]
fn exact_matches_list_every_position() {
    let lines = strings(&["a", "b", "a", "b"]);
    assert_eq!(find_exact_hunk_matches(&lines, &strings(&["a", "b"]), false), vec![0, 2]);
    assert_eq!(find_exact_hunk_matches(&lines, &strings(&["a", "b"]), true), vec![2]);
    assert_eq!(find_exact_hunk_matches(&lines, &Vec::new(), false), vec![4]);
    assert_eq!(find_exact_hunk_matches(&lines, &strings(&["a", "b", "a", "b", "a"]), false), Vec::<usize>::new());
}

#[test]
fn anchor_candidates_are_ranked_by_score() {
    let lines = strings(&["fn main() {", "    let x = 1;", "fn mian() {"]);
    let found = find_anchor_candidate_matches(&lines, &"fn main() {".to_string(), 0, 3);
    assert_eq!(
        found,
        vec![
            PatchCandidateMatch { line_no: 1, score: 100, excerpt: "fn main() {".to_string() },
            PatchCandidateMatch { line_no: 3, score: 40, excerpt: "fn mian() {".to_string() },
        ]
    );
    let one = find_anchor_candidate_matches(&lines, &"fn main() {".to_string(), 0, 1);
    assert_eq!(one.len(), 1);
    assert_eq!(one[0].line_no, 1);
}

#[test]
fn hunk_candidates_prefer_the_window_nearest_the_search_start() {
    let lines = strings(&["a", "b", "a"]);
    let found = find_hunk_candidate_matches(&lines, &strings(&["a"]), 2, 3);
    assert_eq!(
        found,
        vec![
            PatchCandidateMatch { line_no: 3, score: 100, excerpt: "a".to_string() },
            PatchCandidateMatch { line_no: 1, score: 100, excerpt: "a".to_string() },
        ]
    );
    assert!(find_hunk_candidate_matches(&lines, &strings(&["a"]), 2, 0).is_empty());
    assert!(find_hunk_candidate_matches(&lines, &Vec::new(), 2, 3).is_empty());
}

#[test]
fn hunk_candidate_excerpt_joins_two_trimmed_lines() {
    let lines = strings(&["  alpha", "  beta", "gamma"]);
    let found = find_hunk_candidate_matches(&lines, &strings(&["alpha", "beta"]), 0, 1);
    assert_eq!(found.len(), 1);
    assert_eq!(found[0].line_no, 1);
    assert_eq!(found[0].score, 88);
    assert_eq!(found[0].excerpt, "alpha ↩ beta");
}

#[test]
fn anchor_not_found_message_lists_trimmed_matches_and_candidates() {
    let message = build_anchor_not_found_message(&strings(&["  foo", "bar"]), 0, &"foo".to_string(), "a.txt");
    assert_eq!(
        message,
        "Failed to find context 'foo' in a.txt\n\n诊断:\n- 从 line 1 开始未找到完全匹配的 anchor。\n- 文件内存在 1 处 trim 后相同的候选：line 1\n- 最接近候选:\n  • line 1 · score 88 · foo\n- 如目标是大段 prompt/JSON/多行字符串，请先重新读取更小范围，再拆成几次稳定的 apply_patch。"
    );
}

#[test]
fn anchor_not_found_message_without_any_close_line() {
    let message = build_anchor_not_found_message(&strings(&["bar"]), 0, &"foo".to_string(), "a.txt");
    assert_eq!(
        message,
        "Failed to find context 'foo' in a.txt\n\n诊断:\n- 从 line 1 开始未找到完全匹配的 anchor。\n- 全文件没有完全相同的 anchor；可能是上下文已变化、缩进不同或 anchor 写得过宽。\n- 如目标是大段 prompt/JSON/多行字符串，请先重新读取更小范围，再拆成几次稳定的 apply_patch。"
    );
}

#[test]
fn expected_lines_message_without_matches() {
    let message =
        build_expected_lines_not_found_message(&strings(&["a", "b", "c"]), 0, &strings(&["x"]), false, "f");
    assert_eq!(
        message,
        "Failed to find expected lines in f:\nx\n\n诊断:\n- 全文件没有完全匹配的旧片段；可能是上下文已变化、缩进/转义不同，或该片段刚被前序 hunk 改过。\n- 如旧片段很长或重复，请先重新读取更小范围，再拆成几次稳定的 apply_patch。"
    );
}

#[test]
fn expected_lines_message_names_matches_before_the_search_start() {
    let message = build_expected_lines_not_found_message(&strings(&["a", "b", "a"]), 2, &strings(&["a"]), false, "f");
    assert_eq!(
        message,
        "Failed to find expected lines in f:\na\n\n诊断:\n- 全文件共有 2 处完全匹配，但从当前搜索起点 line 3 之后没有可用命中。\n- 命中位置: line 1, line 3\n- 最接近候选:\n  • line 3 · score 100 · a\n  • line 1 · score 100 · a\n- 如旧片段很长或重复，请先重新读取更小范围，再拆成几次稳定的 apply_patch。"
    );
}

#[test]
fn failed_hunk_message_comes_from_the_failure() {
    let mut lines = strings(&["one", "two"]);
    let hunks = vec![CodexPatchHunk {
        anchor: None,
        lines: vec![CodexPatchLine::Delete("three".to_string()), CodexPatchLine::Add("3".to_string())],
        eof: false,
    }];
    let failure = apply_patch_hunks(&mut lines, &hunks).unwrap_err();
    assert!(matches!(failure, PatchHunkFailure::LinesMissing { .. }));
    let message = patch_failure_message(&failure, "nums.txt");
    assert!(message.starts_with("Failed to find expected lines in nums.txt:\nthree\n"));
    assert_eq!(
        message,
        build_expected_lines_not_found_message(&strings(&["one", "two"]), 0, &strings(&["three"]), false, "nums.txt")
    );
}
