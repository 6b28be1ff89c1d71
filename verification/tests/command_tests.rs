use projectying::command::{
    classify_exec_command_family, classify_tty_mode, derive_exec_command_brief,
    detect_dangerous_command_kind, detect_dangerous_command_segment, extract_submitted_stdin_command,
    join_tokens_from, normalize_brief, normalize_plan_line, resolve_exec_command_brief, shell_quote,
    split_command_segments, strip_matching_quotes, terminal_input_action_label,
    terminal_input_pending_action_label, terminal_interaction_action, truncate_chars,
    DangerousCommandKind,
};
use projectying::settings::ExecCommandFamily;
use projectying::terminal::TerminalMode;

#[test]
fn classify_exec_command_family_detects_adb_and_termux_api() {
    assert_eq!(
        classify_exec_command_family("adb shell getprop ro.build.version.release"),
        ExecCommandFamily::Adb
    );
    assert_eq!(
        classify_exec_command_family("bash -lc 'termux-clipboard-get'"),
        ExecCommandFamily::TermuxApi
    );
    assert_eq!(classify_exec_command_family("cargo test -q"), ExecCommandFamily::Generic);
}

#[test]
fn family_reads_paths_and_operators() {
    assert_eq!(classify_exec_command_family("ls|/system/bin/adb devices"), ExecCommandFamily::Adb);
    assert_eq!(classify_exec_command_family("x;/usr/bin/termux-battery-status"), ExecCommandFamily::TermuxApi);
    assert_eq!(classify_exec_command_family("echo adbx"), ExecCommandFamily::Generic);
}

#[test]
fn classify_tty_mode_distinguishes_background_and_interactive() {
    assert_eq!(classify_tty_mode("cargo test -q"), TerminalMode::Background);
    assert_eq!(classify_tty_mode("/bin/bash -i"), TerminalMode::Interactive);
    assert_eq!(classify_tty_mode("tail -f log/runtime.txt"), TerminalMode::Interactive);
}

#[test]
fn tty_mode_for_pagers_and_quoted_heads() {
    assert_eq!(classify_tty_mode("'vim' notes.txt"), TerminalMode::Interactive);
    assert_eq!(classify_tty_mode("grep -f patterns file"), TerminalMode::Background);
}

#[test]
fn segments_split_at_shell_operators() {
    assert_eq!(
        split_command_segments("cd /tmp && ls -la || echo fail; cat a | wc -l\r\nexit"),
        vec!["cd /tmp", "ls -la", "echo fail", "cat a", "wc -l", "exit"]
    );
    assert_eq!(split_command_segments("  ;; | "), Vec::<String>::new());
    assert_eq!(split_command_segments("sleep 1 & echo x"), vec!["sleep 1 & echo x"]);
}

#[test]
fn quotes_and_tokens() {
    assert_eq!(strip_matching_quotes("  'rm -rf /'  "), "rm -rf /");
    assert_eq!(strip_matching_quotes("\"x'"), "\"x'");
    assert_eq!(strip_matching_quotes("'"), "'");
    assert_eq!(join_tokens_from("su  -c   'reboot now'", 2), "'reboot now'");
    assert_eq!(join_tokens_from("a b", 5), "");
}

#[test]
fn dangerous_commands_by_kind() {
    assert_eq!(detect_dangerous_command_segment("rm file.txt", 0), Some(DangerousCommandKind::DeleteFile));
    assert_eq!(detect_dangerous_command_segment("RM -rf build", 0), Some(DangerousCommandKind::DeleteDirectory));
    assert_eq!(detect_dangerous_command_segment("(rmdir x)", 0), Some(DangerousCommandKind::DeleteDirectory));
    assert_eq!(detect_dangerous_command_segment("find . -delete", 0), Some(DangerousCommandKind::DeleteDirectory));
    assert_eq!(detect_dangerous_command_segment("find . -name x", 0), None);
    assert_eq!(detect_dangerous_command_segment("svc power reboot", 0), Some(DangerousCommandKind::Reboot));
    assert_eq!(detect_dangerous_command_segment("svc power shutdown", 0), Some(DangerousCommandKind::Shutdown));
    assert_eq!(detect_dangerous_command_segment("dd if=x of=/dev/sda", 0), Some(DangerousCommandKind::DiskOverwrite));
    assert_eq!(detect_dangerous_command_segment("dd if=a of=b", 0), None);
    assert_eq!(detect_dangerous_command_segment("mkfs.ext4 /dev/x", 0), Some(DangerousCommandKind::DiskOverwrite));
    assert_eq!(detect_dangerous_command_segment("fastboot flash boot b.img", 0), Some(DangerousCommandKind::HardwareLevel));
    assert_eq!(detect_dangerous_command_segment("fastboot devices", 0), None);
    assert_eq!(detect_dangerous_command_segment("halt", 0), Some(DangerousCommandKind::Shutdown));
    assert_eq!(detect_dangerous_command_segment("ls -la", 0), None);
}

#[test]
fn dangerous_commands_inside_wrappers() {
    assert_eq!(detect_dangerous_command_segment("adb shell 'reboot'", 0), Some(DangerousCommandKind::Reboot));
    assert_eq!(detect_dangerous_command_segment("su -c \"rm -r /data/x\"", 0), Some(DangerousCommandKind::DeleteDirectory));
    assert_eq!(detect_dangerous_command_segment("bash -lc 'poweroff'", 0), Some(DangerousCommandKind::Shutdown));
    assert_eq!(detect_dangerous_command_segment("bash script.sh", 0), None);
    assert_eq!(detect_dangerous_command_segment("su root", 0), None);
    assert_eq!(detect_dangerous_command_segment("adb shell reboot", 4), None);
    assert_eq!(
        detect_dangerous_command_segment("adb shell sh -c 'su -c \"bash -c reboot\"'", 0),
        None
    );
    assert_eq!(
        detect_dangerous_command_kind("echo ok && adb shell reboot; rm x"),
        Some(DangerousCommandKind::Reboot)
    );
    assert_eq!(detect_dangerous_command_kind("echo ok | wc -l"), None);
}

#[test]
fn dangerous_kind_labels_and_questions() {
    assert_eq!(DangerousCommandKind::DiskOverwrite.label(), "磁盘覆盖/分区");
    assert_eq!(DangerousCommandKind::Reboot.question(), "检测到重启指令，是否继续执行？");
}

#[test]
fn briefs_from_commands() {
    assert_eq!(derive_exec_command_brief("pwd"), "查看当前目录");
    assert_eq!(derive_exec_command_brief("  Git Status "), "检查 Git 状态");
    assert_eq!(derive_exec_command_brief("cargo build --release"), "构建 Rust 项目");
    assert_eq!(derive_exec_command_brief("termux-toast hi"), "调用 Termux API");
    assert_eq!(derive_exec_command_brief(""), "执行终端命令");
    assert_eq!(derive_exec_command_brief("\"rg\" x"), "搜索文本内容");
    assert_eq!(resolve_exec_command_brief(Some("  查看   当前目录 "), "ls"), "查看 当前目录");
    assert_eq!(resolve_exec_command_brief(Some("   "), "ls"), "查看目录与文件");
    assert_eq!(resolve_exec_command_brief(None, "curl x"), "请求网络资源");
}

#[test]
fn briefs_and_plan_lines_are_normalized() {
    assert_eq!(normalize_brief(Some("a\t\n b")), Some("a b".to_string()));
    assert_eq!(normalize_brief(Some(" \n ")), None);
    assert_eq!(normalize_brief(None), None);
    let long = "字".repeat(30);
    assert_eq!(normalize_brief(Some(long.as_str())).unwrap().chars().count(), 24);
    assert_eq!(normalize_plan_line(Some(long.as_str())).unwrap().chars().count(), 30);
    assert_eq!(truncate_chars("abcdef", 4), "abc…");
    assert_eq!(truncate_chars("abc", 3), "abc");
}

#[test]
fn terminal_input_labels() {
    assert_eq!(terminal_interaction_action("  "), "轮询");
    assert_eq!(terminal_interaction_action("ls\n"), "注入");
    assert_eq!(terminal_input_action_label("", true), "轮询失败");
    assert_eq!(terminal_input_action_label("x", false), "注入成功");
    assert_eq!(terminal_input_pending_action_label("x"), "注入中");
}

#[test]
fn submitted_commands_come_from_the_last_command_line() {
    assert_eq!(extract_submitted_stdin_command("ls -la"), None);
    assert_eq!(extract_submitted_stdin_command("ls -la\r"), Some("ls -la".to_string()));
    assert_eq!(
        extract_submitted_stdin_command("cd /tmp\n   \n\u{1b}[A\n"),
        Some("cd /tmp".to_string())
    );
    assert_eq!(extract_submitted_stdin_command("!!\n"), None);
}

#[test]
fn shell_quoting() {
    assert_eq!(shell_quote(""), "''");
    assert_eq!(shell_quote("a b"), "'a b'");
    assert_eq!(shell_quote("it's"), "'it'\\''s'");
}

#[test]
fn derive_exec_command_brief_matches_common_commands() {
    assert_eq!(derive_exec_command_brief("pwd"), "查看当前目录");
    assert_eq!(derive_exec_command_brief("adb shell getprop"), "执行 ADB 命令");
    assert_eq!(derive_exec_command_brief("termux-clipboard-get"), "调用 Termux API");
    assert_eq!(derive_exec_command_brief("cargo test -q"), "运行 Rust 测试");
    assert_eq!(derive_exec_command_brief("git status --short"), "检查 Git 状态");
}
