use projectying::output::{
    approximate_token_count, build_head_tail_preview, count_lines, summarize_command_output,
    truncate_chars_with_ellipsis, truncate_output,
};
use projectying::settings::{
    command_output_save_reason, default_terminal_audit_interval_secs, default_tool_output_settings,
    default_view_image_settings, resolve_command_output_budget, sanitize_agent_retention_limit,
    sanitize_terminal_audit_interval_secs, sanitize_tool_output_chars, sanitize_tool_output_lines,
    sanitize_view_image_upload_max_mb, CommandOutputLevel, CommandOutputSaveReason,
    ExecCommandFamily, ImageCompressionQuality, PermissionMode, ViewImageSettings,
    COMMAND_OUTPUT_LEVEL_HIGH_CHARS, COMMAND_OUTPUT_LEVEL_MEDIUM_CHARS, COMMAND_OUTPUT_LEVEL_MEDIUM_LINES,
    COMMAND_OUTPUT_SYSTEM_INLINE_MAX_BYTES,
};

#[test]
fn resolve_command_output_budget_defaults_to_medium() {
    let budget = resolve_command_output_budget(CommandOutputLevel::Medium, &default_tool_output_settings())
        .expect("budget");
    assert_eq!(budget.label, "medium (320 lines · 96000 chars)");
    assert_eq!(budget.inline_lines, COMMAND_OUTPUT_LEVEL_MEDIUM_LINES);
    assert_eq!(budget.inline_chars, COMMAND_OUTPUT_LEVEL_MEDIUM_CHARS);
}

#[test]
fn command_output_save_reason_respects_selected_budget_and_system_caps() {
    let medium = resolve_command_output_budget(CommandOutputLevel::Medium, &default_tool_output_settings())
        .expect("budget");
    let reason = command_output_save_reason(2_000, 321, 2_000, &medium).expect("save reason");
    assert_eq!(reason.display_text(), "selected budget: medium (320 lines · 96000 chars)");

    let char_reason = command_output_save_reason(120_000, 100, 100_000, &medium).expect("char reason");
    assert_eq!(char_reason.display_text(), "selected budget: medium (320 lines · 96000 chars)");

    let system_reason =
        command_output_save_reason(COMMAND_OUTPUT_SYSTEM_INLINE_MAX_BYTES + 1, 100, 10_000, &medium)
            .expect("system reason");
    assert!(system_reason.display_text().contains("system safety cap"));
}

#[test]
fn system_cap_messages_name_the_limit() {
    let medium = resolve_command_output_budget(CommandOutputLevel::Medium, &default_tool_output_settings())
        .expect("budget");
    assert_eq!(
        command_output_save_reason(5_242_881, 1, 1, &medium),
        Some(CommandOutputSaveReason::SystemSafety(
            "system safety cap: 5242881 bytes > 5242880".to_string()
        ))
    );
    assert_eq!(command_output_save_reason(10, 1, 10, &medium), None);
    let mut wide = default_tool_output_settings();
    wide.high_lines = 5_000;
    wide.high_chars = 9_000_000;
    let high = resolve_command_output_budget(CommandOutputLevel::High, &wide).expect("budget");
    assert_eq!(high.label, "high (5000 lines · 9000000 chars)");
    assert_eq!(
        command_output_save_reason(10, 1_201, 10, &high).map(|r| r.display_text().to_string()),
        Some("system safety cap: 1201 lines > 1200".to_string())
    );
}

#[test]
fn sanitizers_clamp_to_their_ranges() {
    assert_eq!(sanitize_tool_output_lines(1), 20);
    assert_eq!(sanitize_tool_output_lines(5_000), 2_000);
    assert_eq!(sanitize_tool_output_lines(300), 300);
    assert_eq!(sanitize_tool_output_chars(0), 1_000);
    assert_eq!(sanitize_tool_output_chars(2_000_000), 1_000_000);
    assert_eq!(sanitize_view_image_upload_max_mb(0), 1);
    assert_eq!(sanitize_view_image_upload_max_mb(64), 32);
    assert_eq!(sanitize_terminal_audit_interval_secs(5), 30);
    assert_eq!(sanitize_terminal_audit_interval_secs(7_200), 3_600);
    assert_eq!(sanitize_agent_retention_limit(3), 10);
    assert_eq!(sanitize_agent_retention_limit(500), 100);
    assert_eq!(sanitize_agent_retention_limit(42), 42);
    assert_eq!(default_terminal_audit_interval_secs(), 300);
    assert_eq!(sanitize_tool_output_lines(sanitize_tool_output_lines(9_999)), sanitize_tool_output_lines(9_999));
}

#[test]
fn image_settings_targets() {
    let d = default_view_image_settings();
    assert_eq!(d.quality, ImageCompressionQuality::Medium);
    assert_eq!(d.upload_hard_max_bytes(), 4 * 1024 * 1024);
    assert_eq!(d.ui_target_bytes(), 2 * 1024 * 1024);
    assert_eq!(d.photo_target_bytes(), 1280 * 1024);
    let small = ViewImageSettings { quality: ImageCompressionQuality::High, upload_max_mb: 0 };
    assert_eq!(small.upload_hard_max_bytes(), 1024 * 1024);
    assert_eq!(small.ui_target_bytes(), 1024 * 1024);
    assert_eq!(small.initial_photo_quality(), 90);
    let big = ViewImageSettings { quality: ImageCompressionQuality::Low, upload_max_mb: 1_000 };
    assert_eq!(big.upload_hard_max_bytes(), 32 * 1024 * 1024);
    assert_eq!(big.resized_photo_min_quality(), 64);
    assert_eq!(ImageCompressionQuality::High.label(), "High Quality");
    assert_eq!(PermissionMode::Safe.label(), "安全");
    assert_eq!(PermissionMode::default(), PermissionMode::Full);
}

#[test]
fn output_counting_and_truncation() {
    assert_eq!(count_lines(""), 0);
    assert_eq!(count_lines("\n"), 1);
    assert_eq!(count_lines("a\nb\n"), 2);
    assert_eq!(truncate_chars_with_ellipsis("abcdef", 0), "abcdef");
    assert_eq!(truncate_chars_with_ellipsis("abcdef", 3), "ab…");
    assert_eq!(approximate_token_count("abcde"), 2);
    assert_eq!(truncate_output("abcdefghij", Some(2)), "abcdefg…");
    assert_eq!(truncate_output("abcdefghij", Some(1)), "abc…");
    assert_eq!(truncate_output("abcdefghij", Some(0)), "abcdefghij");
    assert_eq!(truncate_output("abcdefghij", None), "abcdefghij");
}

#[test]
fn head_tail_preview_keeps_both_ends() {
    let text = "1\n2\n3\n4\n5\n6";
    assert_eq!(build_head_tail_preview(text, 4, 100), "1\n2\n…\n6");
    assert_eq!(build_head_tail_preview(text, 6, 100), text);
    assert_eq!(build_head_tail_preview(text, 6, 5), "1\n2\n…");
}

#[test]
fn summaries_archive_large_output() {
    let medium = resolve_command_output_budget(CommandOutputLevel::Medium, &default_tool_output_settings())
        .expect("budget");
    let empty = summarize_command_output("  \n", None, None, &medium, ExecCommandFamily::Generic);
    assert_eq!(empty.ui_preview, "(empty output)");
    assert_eq!(empty.lines, 1);
    assert_eq!(empty.save_reason, None);

    let small = summarize_command_output("héllo", Some(1), None, &medium, ExecCommandFamily::Generic);
    assert_eq!(small.bytes, 6);
    assert_eq!(small.chars, 5);
    assert_eq!(small.ui_preview, "héllo");
    assert_eq!(small.model_preview, "hél…");

    let big_text = (0..400).map(|i| format!("line {i}")).collect::<Vec<_>>().join("\n");
    let big = summarize_command_output(big_text.as_str(), None, Some(42), &medium, ExecCommandFamily::Adb);
    assert_eq!(big.lines, 400);
    assert_eq!(big.save_reason.as_deref(), Some("selected budget: medium (320 lines · 96000 chars)"));
    assert!(big.ui_preview.starts_with(
        "[HistoryTools archived · entry_id=42 · line_range=1-400] selected budget: medium (320 lines · 96000 chars) · "
    ));
    assert!(big.ui_preview.contains("\nline 0\n"));
    assert!(big.ui_preview.ends_with("line 399"));
    assert_eq!(big.budget_label, "medium (320 lines · 96000 chars)");
}

fn numbered_lines(count: usize) -> String {
    (0..count).map(|index| format!("line-{index}")).collect::<Vec<_>>().join("\n")
}

#[test]
fn summarize_command_output_archives_large_text_to_historytools_preview() {
    let text = numbered_lines(340);
    let budget = resolve_command_output_budget(CommandOutputLevel::Medium, &default_tool_output_settings())
        .expect("budget");
    let summary = summarize_command_output(text.as_str(), None, Some(123), &budget, ExecCommandFamily::Generic);
    assert!(summary.model_preview.contains("HistoryTools archived"));
    assert!(summary.model_preview.contains("entry_id=123"));
    assert_eq!(summary.save_reason.as_deref(), Some("selected budget: medium (320 lines · 96000 chars)"));
}

#[test]
fn summarize_command_output_keeps_medium_budget_inline() {
    let text = numbered_lines(300);
    let budget = resolve_command_output_budget(CommandOutputLevel::Medium, &default_tool_output_settings())
        .expect("budget");
    let summary = summarize_command_output(text.as_str(), None, Some(123), &budget, ExecCommandFamily::Generic);
    assert!(summary.model_preview.contains("line-0"));
}

#[test]
fn summarize_command_output_high_mode_respects_char_budget() {
    let text = "x".repeat(COMMAND_OUTPUT_LEVEL_HIGH_CHARS + 1);
    let budget = resolve_command_output_budget(CommandOutputLevel::High, &default_tool_output_settings())
        .expect("budget");
    let summary = summarize_command_output(text.as_str(), None, Some(123), &budget, ExecCommandFamily::Generic);
    assert!(summary.model_preview.contains("HistoryTools archived"));
    assert_eq!(summary.save_reason.as_deref(), Some("selected budget: high (520 lines · 156000 chars)"));
}
