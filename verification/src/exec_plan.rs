//! The decisions of `exec_command` around the process it starts: how a
//! terminal run is set up, when a piped run moves to the background, and
//! what the model reads when a piped run ends in time. Starting, waiting
//! and reading happen outside.
use vstd::prelude::*;

use crate::command::{
    brief_spec, classify_tty_mode, exec_brief_spec, resolve_exec_command_brief, shell_quote,
    shell_quote_spec, tty_mode_spec,
};
use crate::describe::ExecCommandArgs;
use crate::output::CommandOutputSummary;
use crate::command::{command_segments_spec, detect_dangerous_command_kind, first_danger, DangerousCommandKind};
use crate::settings::PermissionMode;
use crate::terminal::{clean_cmd_spec, status_label_spec, SessionSnapshot, TerminalMode, ToolReply};
use crate::terminal_report::{done_title, format_done_reply, format_exec_reply, is_session_reply, start_title};
use crate::text::{chars_eq_str, trim_spec, chars_to_string, dec_spec, int_dec_spec, push_dec, push_int, push_str, str_chars};

verus! {

/// How long a piped command may run in front before it moves to the
/// background.
pub const COMMAND_BACKGROUND_PROMOTE_SECS: u64 = 30;

/// How long a background command may run when no timeout is given.
pub const COMMAND_BACKGROUND_DEFAULT_TIMEOUT_SECS: u64 = 3600;

/// The optional launch settings of an `exec_command` call.
#[derive(Debug, Clone, Copy, PartialEq, Eq)]
pub struct ExecLaunchOptions {
    pub login: Option<bool>,
    pub timeout_secs: Option<u64>,
    pub report_interval_secs: Option<u64>,
}

/// How a terminal run is started.
#[derive(Debug, Clone, PartialEq, Eq)]
pub struct TtyExecPlan {
    pub brief: String,
    pub login: bool,
    pub mode: TerminalMode,
    pub timeout_secs: Option<u64>,
    pub report_interval_secs: Option<u64>,
}

/// How a piped run is started.
#[derive(Debug, Clone, PartialEq, Eq)]
pub struct PipeExecPlan {
    pub brief: String,
    pub login: bool,
    pub timeout_secs: u64,
}

pub open spec fn exec_brief_of(args: ExecCommandArgs) -> Seq<char> {
    match brief_spec(match args.brief {
        Some(b) => Some(b@),
        None => None,
    }) {
        Some(b) => b,
        None => exec_brief_spec(args.cmd@),
    }
}

fn exec_brief(args: &ExecCommandArgs) -> (r: String)
    ensures
        r@ == exec_brief_of(*args),
{
    match &args.brief {
        Some(b) => resolve_exec_command_brief(Some(b.as_str()), args.cmd.as_str()),
        None => resolve_exec_command_brief(None, args.cmd.as_str()),
    }
}

/// A terminal run: a login shell unless asked otherwise; an interactive
/// program runs without a time limit (zero) and a background one with
/// none set, unless a timeout is given; reports come at the given interval,
/// else at the audit interval.
pub fn tty_exec_plan(args: &ExecCommandArgs, launch: &ExecLaunchOptions, audit_interval_secs: u64) -> (r: TtyExecPlan)
    ensures
        r.brief@ == exec_brief_of(*args),
        r.login == (match launch.login {
            Some(l) => l,
            None => true,
        }),
        r.mode == tty_mode_spec(args.cmd@),
        r.timeout_secs == (match launch.timeout_secs {
            Some(v) => Some(v),
            None => if tty_mode_spec(args.cmd@) == TerminalMode::Interactive {
                Some(0u64)
            } else {
                None
            },
        }),
        r.report_interval_secs == (match launch.report_interval_secs {
            Some(v) => Some(v),
            None => Some(audit_interval_secs),
        }),
{
    let mode = classify_tty_mode(args.cmd.as_str());
    let timeout_secs = match launch.timeout_secs {
        Some(v) => Some(v),
        None => match mode {
            TerminalMode::Interactive => Some(0),
            TerminalMode::Background => None,
        },
    };
    let report_interval_secs = match launch.report_interval_secs {
        Some(v) => Some(v),
        None => Some(audit_interval_secs),
    };
    let login = match launch.login {
        Some(l) => l,
        None => true,
    };
    TtyExecPlan { brief: exec_brief(args), login, mode, timeout_secs, report_interval_secs }
}

/// A piped run: a login shell unless asked otherwise, and the given
/// timeout, else `COMMAND_BACKGROUND_DEFAULT_TIMEOUT_SECS`.
pub fn pipe_exec_plan(args: &ExecCommandArgs, launch: &ExecLaunchOptions) -> (r: PipeExecPlan)
    ensures
        r.brief@ == exec_brief_of(*args),
        r.login == (match launch.login {
            Some(l) => l,
            None => true,
        }),
        r.timeout_secs == (match launch.timeout_secs {
            Some(v) => v,
            None => COMMAND_BACKGROUND_DEFAULT_TIMEOUT_SECS,
        }),
{
    let login = match launch.login {
        Some(l) => l,
        None => true,
    };
    let timeout_secs = match launch.timeout_secs {
        Some(v) => v,
        None => COMMAND_BACKGROUND_DEFAULT_TIMEOUT_SECS,
    };
    PipeExecPlan { brief: exec_brief(args), login, timeout_secs }
}

/// Whether a piped run that is still going after this many seconds moves
/// to the background.
pub fn should_promote_to_background(elapsed_secs: u64) -> (r: bool)
    ensures
        r == (elapsed_secs >= COMMAND_BACKGROUND_PROMOTE_SECS),
{
    elapsed_secs >= COMMAND_BACKGROUND_PROMOTE_SECS
}

pub open spec fn shell_preview_spec(shell: Seq<char>, login: bool, cmd: Seq<char>) -> Seq<char> {
    shell + " "@ + (if login {
        "-l -c "@
    } else {
        "-c "@
    }) + shell_quote_spec(cmd)
}

/// The command as the shell runs it: `{shell} -l -c '{cmd}'` (without
/// `-l` when not a login shell).
pub fn exec_shell_preview(shell: &str, login: bool, cmd: &str) -> (r: String)
    ensures
        r@ == shell_preview_spec(shell@, login, cmd@),
{
    let mut out = str_chars(shell);
    push_str(&mut out, " ");
    if login {
        push_str(&mut out, "-l -c ");
    } else {
        push_str(&mut out, "-c ");
    }
    push_str(&mut out, shell_quote(cmd).as_str());
    chars_to_string(&out)
}

pub open spec fn completion_output_spec(
    shell_preview: Seq<char>,
    chunk_id: Seq<char>,
    wall_time_text: Seq<char>,
    exit_code: i32,
    original_tokens: usize,
    s: CommandOutputSummary,
    history_entry_id: Option<u64>,
) -> Seq<char> {
    "Command: "@ + shell_preview + "\n"@ + "Chunk ID: "@ + chunk_id + "\n"@ + "Wall time: "@ + wall_time_text
        + " seconds"@ + "\n"@ + "Process exited with code "@ + int_dec_spec(exit_code as int) + "\n"@
        + "Original token count: "@ + dec_spec(original_tokens as nat) + "\n"@ + "Output budget: "@
        + s.budget_label@ + "\n"@ + "Output stats: "@ + dec_spec(s.bytes as nat) + " bytes | "@ + dec_spec(
        s.lines as nat,
    ) + " lines | "@ + dec_spec(s.chars as nat) + " chars"@ + "\n"@ + (match s.save_reason {
        Some(reason) => "Output archive reason: "@ + reason@,
        None => "Output archive reason: (not archived)"@,
    }) + "\n"@ + (match history_entry_id {
        Some(id) => "HistoryTools entry_id: "@ + dec_spec(id as nat),
        None => "HistoryTools entry_id: (pending)"@,
    }) + "\n"@ + "Output preview:"@ + "\n"@ + s.model_preview@
}

/// What the model reads when a piped command ends in time: the command,
/// the chunk, the wall time (already written with four decimals), the exit
/// code, the token count, the budget, the output's size, why it was
/// archived, its history entry, and its preview.
pub fn exec_completion_output(
    shell_preview: &str,
    chunk_id: &str,
    wall_time_text: &str,
    exit_code: i32,
    original_tokens: usize,
    summary: &CommandOutputSummary,
    history_entry_id: Option<u64>,
) -> (r: String)
    ensures
        r@ == completion_output_spec(
            shell_preview@,
            chunk_id@,
            wall_time_text@,
            exit_code,
            original_tokens,
            *summary,
            history_entry_id,
        ),
{
    let mut out = str_chars("Command: ");
    push_str(&mut out, shell_preview);
    push_str(&mut out, "\n");
    push_str(&mut out, "Chunk ID: ");
    push_str(&mut out, chunk_id);
    push_str(&mut out, "\n");
    push_str(&mut out, "Wall time: ");
    push_str(&mut out, wall_time_text);
    push_str(&mut out, " seconds");
    push_str(&mut out, "\n");
    push_str(&mut out, "Process exited with code ");
    push_int(&mut out, exit_code as i64);
    push_str(&mut out, "\n");
    push_str(&mut out, "Original token count: ");
    push_dec(&mut out, original_tokens as u64);
    push_str(&mut out, "\n");
    push_str(&mut out, "Output budget: ");
    push_str(&mut out, summary.budget_label.as_str());
    push_str(&mut out, "\n");
    push_str(&mut out, "Output stats: ");
    push_dec(&mut out, summary.bytes as u64);
    push_str(&mut out, " bytes | ");
    push_dec(&mut out, summary.lines as u64);
    push_str(&mut out, " lines | ");
    push_dec(&mut out, summary.chars as u64);
    push_str(&mut out, " chars");
    push_str(&mut out, "\n");
    let ghost mid = out@;
    match &summary.save_reason {
        Some(reason) => {
            push_str(&mut out, "Output archive reason: ");
            push_str(&mut out, reason.as_str());
        },
        None => {
            push_str(&mut out, "Output archive reason: (not archived)");
        },
    }
    push_str(&mut out, "\n");
    match history_entry_id {
        Some(id) => {
            push_str(&mut out, "HistoryTools entry_id: ");
            push_dec(&mut out, id);
        },
        None => {
            push_str(&mut out, "HistoryTools entry_id: (pending)");
        },
    }
    push_str(&mut out, "\n");
    push_str(&mut out, "Output preview:");
    push_str(&mut out, "\n");
    push_str(&mut out, summary.model_preview.as_str());
    chars_to_string(&out)
}


/// How many terminal sessions may run at once.
pub const MAX_RUNNING_TERMINALS: usize = 5;

/// How long a terminal session may run when no timeout is given.
pub const TERMINAL_DEFAULT_TIMEOUT_SECS: u64 = 1800;

/// Why a new terminal session is refused: too many run already.
pub fn terminal_start_refusal(running_sessions: usize) -> (r: Option<String>)
    ensures
        running_sessions >= MAX_RUNNING_TERMINALS ==> (r matches Some(m) && m@ == "Terminal 同时运行上限为 "@ + dec_spec(
            MAX_RUNNING_TERMINALS as nat,
        ) + "，请先结束部分会话"@),
        running_sessions < MAX_RUNNING_TERMINALS ==> r is None,
{
    if running_sessions >= MAX_RUNNING_TERMINALS {
        let mut out = str_chars("Terminal 同时运行上限为 ");
        push_dec(&mut out, MAX_RUNNING_TERMINALS as u64);
        push_str(&mut out, "，请先结束部分会话");
        Some(chars_to_string(&out))
    } else {
        None
    }
}

pub open spec fn command_script_spec(workdir: Seq<char>, cmd: Seq<char>) -> Seq<char> {
    let s = "stty -echoctl 2>/dev/null || true\n"@ + "cd -- "@ + shell_quote_spec(workdir) + " || exit 1\n"@ + cmd;
    if s.len() > 0 && s.last() == '\n' {
        s
    } else {
        s.push('\n')
    }
}

/// The script a terminal session runs: echo of control keys off, into the
/// working directory (or out), then the command, ending with a newline.
pub fn terminal_command_script(workdir: &str, cmd: &str) -> (r: String)
    ensures
        r@ == command_script_spec(workdir@, cmd@),
{
    let mut out = str_chars("stty -echoctl 2>/dev/null || true\n");
    push_str(&mut out, "cd -- ");
    push_str(&mut out, shell_quote(workdir).as_str());
    push_str(&mut out, " || exit 1\n");
    push_str(&mut out, cmd);
    let n = out.len();
    if !(n > 0 && out[n - 1] == '\n') {
        out.push('\n');
    }
    chars_to_string(&out)
}

/// How long the watchdog of a terminal session waits before it stops the
/// session: the given timeout, else `TERMINAL_DEFAULT_TIMEOUT_SECS`; no
/// watchdog when that is zero.
pub fn terminal_watchdog_secs(timeout_secs: Option<u64>) -> (r: Option<u64>)
    ensures
        r == (match timeout_secs {
            Some(t) => if t > 0 {
                Some(t)
            } else {
                None
            },
            None => Some(TERMINAL_DEFAULT_TIMEOUT_SECS),
        }),
{
    let t = match timeout_secs {
        Some(t) => t,
        None => TERMINAL_DEFAULT_TIMEOUT_SECS,
    };
    if t > 0 {
        Some(t)
    } else {
        None
    }
}


/// How long a terminal tool waits for output when none is given.
pub const DEFAULT_YIELD_TIME_MS: u64 = 320;

/// The longest a terminal tool waits for output.
pub const MAX_YIELD_TIME_MS: u64 = 1500;

/// How long a terminal tool waits for output before it answers: the time
/// asked for, else the default, at most `MAX_YIELD_TIME_MS`.
pub fn terminal_wait_ms(yield_time_ms: Option<u64>) -> (r: u64)
    ensures
        r == ({
            let w = match yield_time_ms {
                Some(v) => v,
                None => DEFAULT_YIELD_TIME_MS,
            };
            if w > MAX_YIELD_TIME_MS {
                MAX_YIELD_TIME_MS
            } else {
                w
            }
        }),
{
    let w = match yield_time_ms {
        Some(v) => v,
        None => DEFAULT_YIELD_TIME_MS,
    };
    if w > MAX_YIELD_TIME_MS {
        MAX_YIELD_TIME_MS
    } else {
        w
    }
}

/// Whether a shell, by the file name of its path, takes `-l`: bash, zsh
/// and fish do.
pub fn supports_login_flag(shell_file_name: Option<&str>) -> (r: bool)
    ensures
        r == (match shell_file_name {
            Some(n) => n@ == "bash"@ || n@ == "zsh"@ || n@ == "fish"@,
            None => false,
        }),
{
    match shell_file_name {
        Some(n) => {
            let c = str_chars(n);
            chars_eq_str(&c, "bash") || chars_eq_str(&c, "zsh") || chars_eq_str(&c, "fish")
        },
        None => false,
    }
}

/// The kind of danger a command is to be confirmed for: only in the safe
/// permission mode, and only when the command is flagged as dangerous.
pub fn permission_confirmation_needed(mode: PermissionMode, command: &str) -> (r: Option<DangerousCommandKind>)
    ensures
        mode != PermissionMode::Safe ==> r is None,
        mode == PermissionMode::Safe ==> r == first_danger(command_segments_spec(command@)),
{
    if mode != PermissionMode::Safe {
        return None;
    }
    detect_dangerous_command_kind(command)
}

/// The snapshot a terminal start reports: a background session is shown
/// as running, whatever it did in the first moments.
pub open spec fn start_snapshot(s: SessionSnapshot, mode: TerminalMode) -> SessionSnapshot {
    if mode == TerminalMode::Background {
        SessionSnapshot { running: true, exit_code: None, timed_out: false, user_exit: false, ..s }
    } else {
        s
    }
}

/// The reply to a terminal start after the first wait: the start reply
/// for a background session or one still running, the done reply for an
/// interactive one that already ended.
pub fn exec_start_reply(snapshot: SessionSnapshot, mode: TerminalMode, preview: &str, audit_interval_secs: u64) -> (r:
    ToolReply)
    ensures
        ({
            let s = start_snapshot(snapshot, mode);
            if s.running {
                is_session_reply(
                    r,
                    clean_cmd_spec(trim_spec(s.cmd@)),
                    start_title(s.mode),
                    preview@,
                    s,
                    status_label_spec(s),
                    "启动"@,
                    None,
                    audit_interval_secs,
                )
            } else {
                is_session_reply(
                    r,
                    clean_cmd_spec(trim_spec(s.cmd@)),
                    done_title(s.mode),
                    preview@,
                    s,
                    status_label_spec(s),
                    "完成"@,
                    None,
                    audit_interval_secs,
                )
            }
        }),
{
    let mut s = snapshot;
    if mode == TerminalMode::Background {
        s.running = true;
        s.exit_code = None;
        s.timed_out = false;
        s.user_exit = false;
    }
    if s.running {
        format_exec_reply(&s, preview, audit_interval_secs)
    } else {
        format_done_reply(&s, preview, audit_interval_secs)
    }
}

} // verus!
