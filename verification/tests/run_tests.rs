use projectying::batch::{ batch_command_preview, batch_concurrency, read_csv_batch, results_csv_file_name, BatchError, BatchItem, };
use projectying::batch::{check_batch_instruction, summarize_batch_outcomes, BatchOutcome};
use projectying::exec_plan::{permission_confirmation_needed, supports_login_flag, terminal_wait_ms};
use projectying::settings::PermissionMode;
use std::time::Instant;

use projectying::agent_args::{build_structured_agent_prompt, AgentArgsError, StructuredInputItemArgs};
use projectying::background_state::{update_background_command_output, BackgroundCommandShared};
use projectying::batch::{batch_item_id_from_record, interpolate_batch_instruction};
use projectying::describe::{CallContext, ExecCommandArgs, ToolCallArgs};
use projectying::exec_plan::{
    exec_completion_output, exec_shell_preview, pipe_exec_plan, should_promote_to_background, terminal_command_script,
    terminal_start_refusal, terminal_watchdog_secs, tty_exec_plan, ExecLaunchOptions,
};
use projectying::output::CommandOutputSummary;
use projectying::parallel::{
    merge_parallel_results, plan_parallel_tool, ChildOutcome, ParallelToolError, ParallelToolUse,
};
use projectying::persona::PersonaKind;
use projectying::terminal::TerminalMode;
use projectying::user_input::{
    permission_decision, PermissionDecision, UserInputAnswer, UserInputResponse, UserInputToolResponse,
};
use projectying::view_image::{
    build_view_image_execution, view_image_data_url, PreparedViewImage, ViewImageByteLabels,
};

fn ctx() -> CallContext {
    CallContext {
        absolute_path_display: "~/shots/a.png".to_string(),
        project_root: "/home/me/proj".to_string(),
        context_target_label: None,
    }
}

fn exec_args(cmd: &str) -> ExecCommandArgs {
    ExecCommandArgs { cmd: cmd.to_string(), brief: None, tty: false }
}

fn exec_use(recipient: &str, cmd: &str) -> ParallelToolUse {
    ParallelToolUse {
        recipient_name: recipient.to_string(),
        arguments: format!("{{\"cmd\":\"{cmd}\"}}"),
        args: ToolCallArgs::ExecCommand(exec_args(cmd)),
    }
}

fn prepared(bytes: Vec<u8>) -> PreparedViewImage {
    PreparedViewImage {
        original_mime: "image/png".to_string(),
        upload_mime: "image/png".to_string(),
        original_bytes: 120,
        upload_bytes: bytes,
        original_dimensions: Some((4, 3)),
        upload_dimensions: Some((4, 3)),
        mode_label: "界面截图".to_string(),
        mode_source_label: "自动识别".to_string(),
        strategy_label: "保持原图".to_string(),
    }
}

#[test]
fn data_url_holds_the_base64_of_the_upload() {
    assert_eq!(view_image_data_url("image/png", b"hello"), "data:image/png;base64,aGVsbG8=");
    assert_eq!(view_image_data_url("image/jpeg", b""), "data:image/jpeg;base64,");
    assert_eq!(view_image_data_url("image/gif", &[0xff, 0x00, 0x10]), "data:image/gif;base64,/wAQ");
}

#[test]
fn view_image_reply_describes_both_versions() {
    let p = prepared(b"abc".to_vec());
    let sizes = ViewImageByteLabels {
        upload_limit: "4.0 MB".to_string(),
        original: "120 B".to_string(),
        upload: "3 B".to_string(),
    };
    let r = build_view_image_execution("分析截图".to_string(), "./tiny.png", "./tiny.png", &p, "high", 4_000_000, &sizes);
    assert_eq!(r.kind_label, "Image");
    assert_eq!(r.action_label, "View");
    assert_eq!(r.exit_code, Some(0));
    assert_eq!(r.data_url, "data:image/png;base64,YWJj");
    assert_eq!(
        r.output_preview,
        "路径：./tiny.png\n模式：界面截图（自动识别）\n质量：high\n上限：4.0 MB\n原始：image/png · 4×3 · 120 B\n上传：image/png · 4×3 · 3 B\n处理：保持原图"
    );
    assert_eq!(
        r.command_preview,
        "./tiny.png\n解析：./tiny.png\n模式：界面截图（自动识别）\n原始：image/png · 4×3 · 120 B\n上传：image/png · 4×3 · 3 B"
    );
    assert_eq!(
        r.model_output,
        "Image attached for analysis.\npath=./tiny.png\nmode=界面截图\nmode_source=自动识别\nquality=high\nupload_limit_bytes=4000000\noriginal_mime=image/png\noriginal_dimensions=4x3\noriginal_bytes=120\nupload_mime=image/png\nupload_dimensions=4x3\nupload_bytes=3\nprocessing=保持原图"
    );
    assert!(r.input_text.starts_with("[tool:view_image] "));
    assert!(r.input_text.contains("路径：./tiny.png；模式：界面截图（自动识别）；原始：image/png / 4×3；上传：image/png / 4×3。"));
}

#[test]
fn parallel_batches_are_checked_in_order() {
    let c = ctx();
    let empty: Vec<ParallelToolUse> = Vec::new();
    assert_eq!(plan_parallel_tool("call", PersonaKind::Matrix, &empty, &c).err(), Some(ParallelToolError::Empty));
    let many: Vec<ParallelToolUse> = (0..7).map(|_| exec_use("functions.exec_command", "ls")).collect();
    assert_eq!(plan_parallel_tool("call", PersonaKind::Matrix, &many, &c).err(), Some(ParallelToolError::TooMany));
    let blank = vec![exec_use("functions.exec_command", "ls"), exec_use("  ", "ls")];
    let e = plan_parallel_tool("call", PersonaKind::Matrix, &blank, &c).err().expect("blank");
    assert_eq!(e, ParallelToolError::BlankRecipient { index: 1 });
    assert_eq!(e.message(), "tool_uses[2].recipient_name 不能为空");
    let nested = vec![exec_use("multi_tool_use.parallel", "ls")];
    assert_eq!(plan_parallel_tool("call", PersonaKind::Matrix, &nested, &c).err(), Some(ParallelToolError::Nested));
    let denied = vec![exec_use("functions.apply_patch", "ls")];
    let e = plan_parallel_tool("call", PersonaKind::Coding, &denied, &c).err().expect("denied");
    assert_eq!(e.message(), "当前 persona 不支持并行调用工具 `apply_patch`");
    assert_eq!(ParallelToolError::TooMany.message(), "multi_tool_use.parallel 最多支持 6 项");
    assert_eq!(ParallelToolError::Empty.message(), "tool_uses 不能为空");
}

#[test]
fn parallel_plans_and_merges_results() {
    let c = ctx();
    let uses = vec![exec_use("functions.exec_command", "cat a.txt"), exec_use("exec_command", "cargo build")];
    let plans = plan_parallel_tool("call_9", PersonaKind::Matrix, &uses, &c).expect("plans");
    assert_eq!(plans.len(), 2);
    assert_eq!(plans[0].call.call_id, "call_9::1");
    assert_eq!(plans[1].call.call_id, "call_9::2");
    assert_eq!(plans[0].call.name, "exec_command");
    assert_eq!(plans[0].item.action, "Read");
    assert_eq!(plans[1].item.action, "Run");
    let results = vec![
        ChildOutcome { action_label: "Ran".to_string(), output_preview: "alpha".to_string(), primary_text: None },
        ChildOutcome {
            action_label: " FAILED ".to_string(),
            output_preview: "boom".to_string(),
            primary_text: Some("exit 1".to_string()),
        },
    ];
    let merged = merge_parallel_results("并行读取", &plans, &results);
    assert!(merged.had_failure);
    assert_eq!(merged.action_label, "Completed");
    assert_eq!(merged.exit_code, Some(1));
    assert_eq!(merged.items[0].output.as_deref(), Some("alpha"));
    assert_eq!(merged.items[0].status, None);
    assert_eq!(merged.items[1].status.as_deref(), Some("failed"));
    assert!(merged.model_output.starts_with("Parallel explore\nBrief: 并行读取\nItems: 2\n\n[1] Read · "));
    assert!(merged.model_output.contains("\nTool: exec_command\nInput:\ncat a.txt\nOutput:\nalpha\n\n[2] Run · "));
    assert!(merged.model_output.ends_with("\nOutput:\nexit 1"));
    let fine = vec![
        ChildOutcome { action_label: "Ran".to_string(), output_preview: "a".to_string(), primary_text: None },
        ChildOutcome { action_label: "Ran".to_string(), output_preview: "b".to_string(), primary_text: None },
    ];
    let merged = merge_parallel_results("x", &plans, &fine);
    assert!(!merged.had_failure);
    assert_eq!(merged.action_label, "Done");
    assert_eq!(merged.exit_code, Some(0));
}

#[test]
fn exec_runs_are_planned() {
    let none = ExecLaunchOptions { login: None, timeout_secs: None, report_interval_secs: None };
    let plan = tty_exec_plan(&exec_args("/bin/bash -i"), &none, 300);
    assert_eq!(plan.mode, TerminalMode::Interactive);
    assert_eq!(plan.timeout_secs, Some(0));
    assert_eq!(plan.report_interval_secs, Some(300));
    assert!(plan.login);
    let plan = tty_exec_plan(&exec_args("cargo test -q"), &none, 300);
    assert_eq!(plan.mode, TerminalMode::Background);
    assert_eq!(plan.timeout_secs, None);
    let given = ExecLaunchOptions { login: Some(false), timeout_secs: Some(9), report_interval_secs: Some(5) };
    let plan = tty_exec_plan(&exec_args("/bin/bash -i"), &given, 300);
    assert_eq!((plan.login, plan.timeout_secs, plan.report_interval_secs), (false, Some(9), Some(5)));
    assert_eq!(pipe_exec_plan(&exec_args("ls"), &none).timeout_secs, 3600);
    assert_eq!(pipe_exec_plan(&exec_args("ls"), &given).timeout_secs, 9);
    assert_eq!(pipe_exec_plan(&exec_args("pwd"), &none).brief, "查看当前目录");
    assert!(!should_promote_to_background(29));
    assert!(should_promote_to_background(30));
}

#[test]
fn completed_command_output_lists_each_fact() {
    assert_eq!(exec_shell_preview("/bin/bash", true, "echo hi"), "/bin/bash -l -c 'echo hi'");
    assert_eq!(exec_shell_preview("sh", false, ""), "sh -c ''");
    let summary = CommandOutputSummary {
        model_preview: "hi".to_string(),
        ui_preview: "hi".to_string(),
        bytes: 3,
        lines: 1,
        chars: 3,
        budget_label: "low".to_string(),
        save_reason: None,
    };
    let text = exec_completion_output("/bin/bash -l -c 'echo hi'", "ab12", "0.0100", -1, 2, &summary, Some(7));
    assert_eq!(
        text,
        "Command: /bin/bash -l -c 'echo hi'\nChunk ID: ab12\nWall time: 0.0100 seconds\nProcess exited with code -1\nOriginal token count: 2\nOutput budget: low\nOutput stats: 3 bytes | 1 lines | 3 chars\nOutput archive reason: (not archived)\nHistoryTools entry_id: 7\nOutput preview:\nhi"
    );
    let archived = CommandOutputSummary { save_reason: Some("long".to_string()), ..summary };
    let text = exec_completion_output("sh -c 'x'", "c", "1.0000", 0, 0, &archived, None);
    assert!(text.contains("\nOutput archive reason: long\nHistoryTools entry_id: (pending)\n"));
}

fn shared() -> BackgroundCommandShared {
    BackgroundCommandShared {
        job_id: 3,
        brief: "b".to_string(),
        cmd: "c".to_string(),
        workdir: "/tmp".to_string(),
        saved_path: "/tmp/a.log".to_string(),
        status_path: "/tmp/a.status".to_string(),
        started_at: Instant::now(),
        pid: Some(1),
        running: true,
        timed_out: false,
        exit_code: None,
        output_bytes: 0,
        output_lines: 0,
        output_tail: String::new(),
        output_capture: String::new(),
    }
}

#[test]
fn background_output_reads_invalid_bytes_lossily() {
    let mut s = shared();
    update_background_command_output(&mut s, b"ok\n\xe4\xb8");
    assert_eq!(s.output_bytes, 5);
    assert_eq!(s.output_lines, 1);
    assert_eq!(s.output_tail, "ok\n\u{fffd}");
    assert_eq!(s.output_capture, "ok\n\u{fffd}");
    update_background_command_output(&mut s, b"a\0b");
    assert_eq!(s.output_tail, "ok\n\u{fffd}ab");
}

#[test]
fn batch_rows_fill_the_instruction() {
    let headers = vec!["name".to_string(), "path".to_string()];
    let record = vec!["alpha".to_string(), " src/a.rs ".to_string()];
    assert_eq!(
        interpolate_batch_instruction("check {name} at {path}; {name}!", &headers, &record),
        "check alpha at  src/a.rs ; alpha!"
    );
    assert_eq!(batch_item_id_from_record(&headers, &record, 4, Some("path")), "src/a.rs");
    assert_eq!(batch_item_id_from_record(&headers, &record, 4, Some("missing")), "row-5");
    assert_eq!(batch_item_id_from_record(&headers, &record, 0, None), "row-1");
}

#[test]
fn structured_agent_prompt_prefers_the_message() {
    assert_eq!(build_structured_agent_prompt(&Some(" hi ".to_string()), &None), Ok("hi".to_string()));
    assert_eq!(build_structured_agent_prompt(&None, &None), Err(AgentArgsError::NoInput));
    let item = StructuredInputItemArgs {
        item_type: Some("text".to_string()),
        text: Some("look here".to_string()),
        image_url: None,
        path: None,
        name: None,
    };
    assert_eq!(
        build_structured_agent_prompt(&Some("m".to_string()), &Some(vec![item.clone()])),
        Err(AgentArgsError::MessageAndItems)
    );
    let prompt = build_structured_agent_prompt(&None, &Some(vec![item])).expect("prompt");
    assert!(prompt.contains("look here"));
}

#[test]
fn dangerous_command_confirmation_is_read() {
    let answer = |id: &str, text: &str| (id.to_string(), UserInputAnswer { answers: vec![text.to_string()] });
    let allow = UserInputToolResponse::Answered(UserInputResponse {
        answers: vec![answer("other", "拒绝执行"), answer("permission_confirm", " 继续执行 ")],
    });
    assert_eq!(permission_decision(&allow), PermissionDecision::Allowed);
    let refuse = UserInputToolResponse::Answered(UserInputResponse {
        answers: vec![answer("permission_confirm", "拒绝执行")],
    });
    assert_eq!(permission_decision(&refuse), PermissionDecision::Refused);
    let silent = UserInputToolResponse::Answered(UserInputResponse { answers: vec![] });
    assert_eq!(permission_decision(&silent), PermissionDecision::Refused);
    assert_eq!(permission_decision(&UserInputToolResponse::Cancelled), PermissionDecision::Cancelled);
}

#[test]
fn terminal_sessions_are_limited_and_scripted() {
    assert_eq!(terminal_start_refusal(4), None);
    assert_eq!(terminal_start_refusal(5).as_deref(), Some("Terminal 同时运行上限为 5，请先结束部分会话"));
    assert_eq!(
        terminal_command_script("/tmp/a b", "ls -l"),
        "stty -echoctl 2>/dev/null || true\ncd -- '/tmp/a b' || exit 1\nls -l\n"
    );
    assert_eq!(
        terminal_command_script("/tmp", "top\n"),
        "stty -echoctl 2>/dev/null || true\ncd -- '/tmp' || exit 1\ntop\n"
    );
    assert_eq!(terminal_watchdog_secs(None), Some(1800));
    assert_eq!(terminal_watchdog_secs(Some(0)), None);
    assert_eq!(terminal_watchdog_secs(Some(7)), Some(7));
}

#[test]
fn csv_batches_are_read_and_planned() {
    let csv = b"name,path\nalpha,src/a.rs\nbeta,src/b.rs\n";
    let items = read_csv_batch("check {name} at {path}", csv, Some("name")).expect("items");
    assert_eq!(
        items,
        vec![
            BatchItem { item_id: "alpha".to_string(), instruction: "check alpha at src/a.rs".to_string() },
            BatchItem { item_id: "beta".to_string(), instruction: "check beta at src/b.rs".to_string() },
        ]
    );
    let items = read_csv_batch("go {path}", csv, None).expect("items");
    assert_eq!(items[1].item_id, "row-2");
    assert_eq!(read_csv_batch("  ", csv, None), Err(BatchError::BlankInstruction));
    assert_eq!(read_csv_batch("x", b"", None), Err(BatchError::NoHeaders));
    match read_csv_batch("x", b"a,b\n1,2\n3\n", None) {
        Err(BatchError::Row(e)) => assert!(!e.is_empty()),
        other => panic!("a short row is an error: {other:?}"),
    }
    assert_eq!(BatchError::NoHeaders.message(), "CSV 缺少表头");
    assert_eq!(batch_concurrency(None, None), 16);
    assert_eq!(batch_concurrency(Some(0), Some(9)), 1);
    assert_eq!(batch_concurrency(None, Some(500)), 64);
    assert_eq!(batch_concurrency(None, Some(9)), 9);
    assert_eq!(results_csv_file_name(Some("jobs")), "jobs.results.csv");
    assert_eq!(results_csv_file_name(None), "agent_job.results.csv");
    assert_eq!(batch_command_preview("jobs.csv", "  do it  "), "jobs.csv · do it");
}

#[test]
fn batch_outcomes_are_summed_up() {
    let outcomes = vec![
        BatchOutcome { item_id: "a".to_string(), result: Some("{\"text\":\"ok\"}".to_string()), error: None },
        BatchOutcome { item_id: "b".to_string(), result: None, error: Some("timeout".to_string()) },
        BatchOutcome { item_id: "c".to_string(), result: None, error: None },
    ];
    let s = summarize_batch_outcomes(&outcomes, "/tmp/jobs.results.csv");
    assert_eq!(s.completed_items, 1);
    assert_eq!(s.failures, vec![("b".to_string(), "timeout".to_string())]);
    assert_eq!(s.status, "completed_with_failures");
    assert_eq!(s.rows[2], ("c".to_string(), "failed".to_string(), String::new(), "empty result".to_string()));
    assert_eq!(s.output_preview, "completed 1 row(s), failed 1, export /tmp/jobs.results.csv");
    let s = summarize_batch_outcomes(&outcomes[..1].to_vec(), "x");
    assert_eq!(s.status, "completed");
}

#[test]
fn terminal_start_decisions() {
    assert_eq!(terminal_wait_ms(None), 320);
    assert_eq!(terminal_wait_ms(Some(5000)), 1500);
    assert_eq!(terminal_wait_ms(Some(0)), 0);
    assert!(supports_login_flag(Some("zsh")));
    assert!(!supports_login_flag(Some("sh")));
    assert!(!supports_login_flag(None));
    assert!(permission_confirmation_needed(PermissionMode::Full, "rm -rf /").is_none());
    assert!(permission_confirmation_needed(PermissionMode::Safe, "rm -rf /").is_some());
    assert!(permission_confirmation_needed(PermissionMode::Safe, "ls").is_none());
}

#[test]
fn matrix_schema_lists_every_tool() {
    assert!(!projectying::tools::matrix_schema_hides_tool("task_mode"));
    assert!(!projectying::tools::matrix_schema_hides_tool("context_manage"));
}

#[test]
fn batch_instruction_is_checked_first() {
    assert_eq!(check_batch_instruction(" \n "), Err(BatchError::BlankInstruction));
    assert_eq!(check_batch_instruction("summarize {name}"), Ok(()));
}
