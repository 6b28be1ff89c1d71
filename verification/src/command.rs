//! Reading shell commands: the segments a command line runs, the dangerous
//! ones among them, the family and terminal mode a command needs, and the
//! short descriptions shown for it.
use vstd::prelude::*;

use crate::patch::strings_view;
use crate::settings::ExecCommandFamily;
use crate::terminal::TerminalMode;
use crate::terminal_text::copy_range;
use crate::text::{
    char_is_alphanumeric, is_alphanumeric, chars_eq_str, chars_to_string, contains_spec, contains_str, ellipsis_chars, ellipsis_spec,
    ends_with_spec, ends_with_str, has_char, is_whitespace, is_ws, join_chars, join_spec,
    lines_chars, lines_spec, lower_chars, lower_spec, push_str, starts_with_spec, starts_with_str,
    str_chars, trim_chars, trim_spec, views,
};
use crate::words::{
    CharClass, flat_split, flat_split_exec, in_class, in_class_exec, join_words_from,
    split_class, split_class_chars, split_pat, split_pat_chars, trim_class, trim_class_chars,
    trimmed_nonempty, trimmed_nonempty_exec, words_chars, words_spec,
};

verus! {

// ---------------------------------------------------------------------------
// Segments of a command line
// ---------------------------------------------------------------------------

/// Carriage returns read as line breaks.
pub open spec fn cr_to_nl(s: Seq<char>) -> Seq<char> {
    s.map_values(|c: char| if c == '\r' { '\n' } else { c })
}

/// The simple commands of a command line: split at line breaks, `&&`, `||`,
/// `;` and `|`, each trimmed, the empty ones dropped.
pub open spec fn command_segments_spec(command: Seq<char>) -> Seq<Seq<char>> {
    let lines = split_pat(cr_to_nl(command), seq!['\n']);
    trimmed_nonempty(
        flat_split(
            flat_split(flat_split(flat_split(lines, seq!['&', '&']), seq!['|', '|']), seq![';']),
            seq!['|'],
        ),
    )
}

fn cr_to_nl_exec(s: &[char]) -> (r: Vec<char>)
    ensures
        r@ == cr_to_nl(s@),
{
    let mut out: Vec<char> = Vec::new();
    let mut i: usize = 0;
    while i < s.len()
        invariant
            i <= s.len(),
            out@ =~= cr_to_nl(s@).take(i as int),
        decreases s.len() - i,
    {
        if s[i] == '\r' {
            out.push('\n');
        } else {
            out.push(s[i]);
        }
        i += 1;
    }
    assert(cr_to_nl(s@).take(s@.len() as int) =~= cr_to_nl(s@));
    out
}

fn command_segments_chars(command: &[char]) -> (r: Vec<Vec<char>>)
    ensures
        views(r@) == command_segments_spec(command@),
{
    let n = cr_to_nl_exec(command);
    let nl: Vec<char> = vec!['\n'];
    let lines = split_pat_chars(&n, &nl);
    let amp: Vec<char> = vec!['&', '&'];
    let a = flat_split_exec(&lines, &amp);
    let bars: Vec<char> = vec!['|', '|'];
    let b = flat_split_exec(&a, &bars);
    let semi: Vec<char> = vec![';'];
    let c = flat_split_exec(&b, &semi);
    let bar: Vec<char> = vec!['|'];
    let d = flat_split_exec(&c, &bar);
    proof {
        assert(nl@ =~= seq!['\n']);
        assert(amp@ =~= seq!['&', '&']);
        assert(bars@ =~= seq!['|', '|']);
        assert(semi@ =~= seq![';']);
        assert(bar@ =~= seq!['|']);
    }
    trimmed_nonempty_exec(&d)
}

fn strings_of(parts: &Vec<Vec<char>>) -> (r: Vec<String>)
    ensures
        strings_view(r@) == views(parts@),
{
    let mut out: Vec<String> = Vec::new();
    let mut i: usize = 0;
    while i < parts.len()
        invariant
            i <= parts.len(),
            strings_view(out@) =~= views(parts@).take(i as int),
        decreases parts.len() - i,
    {
        let ghost before = strings_view(out@);
        out.push(chars_to_string(&parts[i]));
        proof {
            assert(strings_view(out@) =~= before.push(parts@[i as int]@));
            assert(views(parts@).take(i + 1) =~= views(parts@).take(i as int).push(parts@[i as int]@));
        }
        i += 1;
    }
    assert(views(parts@).take(parts.len() as int) =~= views(parts@));
    out
}

/// The simple commands of a command line.
pub fn split_command_segments(command: &str) -> (r: Vec<String>)
    ensures
        strings_view(r@) == command_segments_spec(command@),
{
    let segs = command_segments_chars(&str_chars(command));
    strings_of(&segs)
}

/// The text inside one pair of matching single or double quotes, after
/// trimming; else the trimmed text.
pub open spec fn strip_quotes_spec(text: Seq<char>) -> Seq<char> {
    let t = trim_spec(text);
    if t.len() >= 2 && ((t[0] == '\'' && t.last() == '\'') || (t[0] == '"' && t.last() == '"')) {
        t.subrange(1, t.len() - 1)
    } else {
        t
    }
}

fn strip_quotes_chars(text: &[char]) -> (r: Vec<char>)
    ensures
        r@ == strip_quotes_spec(text@),
{
    let t = trim_chars(text);
    let n = t.len();
    if n >= 2 && ((t[0] == '\'' && t[n - 1] == '\'') || (t[0] == '"' && t[n - 1] == '"')) {
        let mut out: Vec<char> = Vec::new();
        let mut i: usize = 1;
        while i < n - 1
            invariant
                1 <= i <= n - 1,
                n == t@.len(),
                out@ =~= t@.subrange(1, i as int),
            decreases n - 1 - i,
        {
            out.push(t[i]);
            i += 1;
        }
        out
    } else {
        t
    }
}

pub fn strip_matching_quotes(text: &str) -> (r: String)
    ensures
        r@ == strip_quotes_spec(text@),
{
    chars_to_string(&strip_quotes_chars(&str_chars(text)))
}

fn join_words_from_chars(s: &[char], start: usize) -> (r: Vec<char>)
    ensures
        r@ == join_words_from(s@, start as nat),
{
    let words = words_chars(s);
    let mut rest: Vec<Vec<char>> = Vec::new();
    if start < words.len() {
        copy_range(&words, &mut rest, start, words.len());
        proof {
            assert(views(words@).subrange(start as int, words@.len() as int) =~= views(words@).skip(start as int));
            assert(views(rest@) =~= words_spec(s@).skip(start as int));
        }
    } else {
        proof {
            assert(views(rest@) =~= Seq::<Seq<char>>::empty());
        }
    }
    let sp: Vec<char> = vec![' '];
    proof {
        assert(sp@ =~= seq![' ']);
    }
    join_chars(&rest, &sp)
}

/// The whitespace-separated words of `segment` from the `start`-th on,
/// joined by single spaces.
pub fn join_tokens_from(segment: &str, start: usize) -> (r: String)
    ensures
        r@ == join_words_from(segment@, start as nat),
{
    chars_to_string(&join_words_from_chars(&str_chars(segment), start))
}

// ---------------------------------------------------------------------------
// Dangerous commands
// ---------------------------------------------------------------------------

#[derive(Debug, Clone, Copy, PartialEq, Eq, Structural)]
pub enum DangerousCommandKind {
    DeleteFile,
    DeleteDirectory,
    Shutdown,
    Reboot,
    DiskOverwrite,
    HardwareLevel,
}

impl DangerousCommandKind {
    pub fn label(self) -> (r: &'static str)
        ensures
            r@ == (match self {
                DangerousCommandKind::DeleteFile => "删文件"@,
                DangerousCommandKind::DeleteDirectory => "删目录"@,
                DangerousCommandKind::Shutdown => "关机"@,
                DangerousCommandKind::Reboot => "重启"@,
                DangerousCommandKind::DiskOverwrite => "磁盘覆盖/分区"@,
                DangerousCommandKind::HardwareLevel => "硬件层指令"@,
            }),
    {
        match self {
            DangerousCommandKind::DeleteFile => "删文件",
            DangerousCommandKind::DeleteDirectory => "删目录",
            DangerousCommandKind::Shutdown => "关机",
            DangerousCommandKind::Reboot => "重启",
            DangerousCommandKind::DiskOverwrite => "磁盘覆盖/分区",
            DangerousCommandKind::HardwareLevel => "硬件层指令",
        }
    }

    pub fn question(self) -> (r: &'static str)
        ensures
            r@ == (match self {
                DangerousCommandKind::DeleteFile => "检测到明显删除文件指令，是否继续执行？"@,
                DangerousCommandKind::DeleteDirectory => "检测到明显删除目录指令，是否继续执行？"@,
                DangerousCommandKind::Shutdown => "检测到关机指令，是否继续执行？"@,
                DangerousCommandKind::Reboot => "检测到重启指令，是否继续执行？"@,
                DangerousCommandKind::DiskOverwrite => "检测到磁盘覆盖/分区指令，风险极高，是否继续执行？"@,
                DangerousCommandKind::HardwareLevel => "检测到硬件层危险指令，可能影响设备状态，是否继续执行？"@,
            }),
    {
        match self {
            DangerousCommandKind::DeleteFile => "检测到明显删除文件指令，是否继续执行？",
            DangerousCommandKind::DeleteDirectory => "检测到明显删除目录指令，是否继续执行？",
            DangerousCommandKind::Shutdown => "检测到关机指令，是否继续执行？",
            DangerousCommandKind::Reboot => "检测到重启指令，是否继续执行？",
            DangerousCommandKind::DiskOverwrite => "检测到磁盘覆盖/分区指令，风险极高，是否继续执行？",
            DangerousCommandKind::HardwareLevel => "检测到硬件层危险指令，可能影响设备状态，是否继续执行？",
        }
    }
}

/// The first position at or after `i` where `w` stands.
pub open spec fn first_index_of(tokens: Seq<Seq<char>>, w: Seq<char>, i: int) -> Option<int>
    decreases tokens.len() - i,
{
    if i < 0 || i >= tokens.len() {
        None
    } else if tokens[i] == w {
        Some(i)
    } else {
        first_index_of(tokens, w, i + 1)
    }
}

/// An option after the command word that holds an `r` (`-r`, `-rf`, ...).
pub open spec fn has_recursive_flag(tokens: Seq<Seq<char>>) -> bool {
    exists|i: int| 1 <= i < tokens.len() && starts_with_spec(tokens[i], "-"@) && #[trigger] tokens[i].contains('r')
}

/// The command that `adb shell`, `su -c` or `sh -c` runs, from the word at
/// `k` on, without its quotes.
pub open spec fn nested_command(trimmed: Seq<char>, k: nat) -> Seq<char> {
    strip_quotes_spec(join_words_from(trimmed, k))
}

pub open spec fn is_shell_flag(t: Seq<char>) -> bool {
    t == "-c"@ || t == "-lc"@ || t == "-ic"@
}

/// The kind of danger a simple command carries, looking through up to three
/// levels of `adb shell`, `su -c` and `bash/sh/zsh -c`.
pub open spec fn dangerous_segment_spec(segment: Seq<char>, depth: nat) -> Option<DangerousCommandKind>
    decreases 4 - depth,
{
    if depth > 3 {
        None
    } else {
        let trimmed = trim_class(trim_spec(segment), CharClass::Paren);
        let lower = lower_spec(trimmed);
        let tokens = words_spec(lower);
        if trimmed.len() == 0 || tokens.len() == 0 {
            None
        } else {
            let head = tokens[0];
            if head == "adb"@ && tokens.len() > 1 && tokens[1] == "shell"@ {
                dangerous_segment_spec(nested_command(trimmed, 2), depth + 1)
            } else if head == "su"@ {
                match first_index_of(tokens, "-c"@, 0) {
                    Some(i) => dangerous_segment_spec(nested_command(trimmed, (i + 1) as nat), depth + 1),
                    None => None,
                }
            } else if head == "bash"@ || head == "sh"@ || head == "zsh"@ {
                if tokens.len() > 1 && is_shell_flag(tokens[1]) {
                    dangerous_segment_spec(nested_command(trimmed, 2), depth + 1)
                } else {
                    None
                }
            } else if head == "rm"@ {
                if has_recursive_flag(tokens) {
                    Some(DangerousCommandKind::DeleteDirectory)
                } else {
                    Some(DangerousCommandKind::DeleteFile)
                }
            } else if head == "unlink"@ {
                Some(DangerousCommandKind::DeleteFile)
            } else if head == "rmdir"@ {
                Some(DangerousCommandKind::DeleteDirectory)
            } else if head == "find"@ && tokens.contains("-delete"@) {
                Some(DangerousCommandKind::DeleteDirectory)
            } else if head == "shutdown"@ || head == "poweroff"@ || head == "halt"@ {
                Some(DangerousCommandKind::Shutdown)
            } else if head == "reboot"@ || head == "termux-reboot"@ {
                Some(DangerousCommandKind::Reboot)
            } else if head == "svc"@ && tokens.len() > 2 && tokens[1] == "power"@ && tokens[2] == "reboot"@ {
                Some(DangerousCommandKind::Reboot)
            } else if head == "svc"@ && tokens.len() > 2 && tokens[1] == "power"@ && tokens[2] == "shutdown"@ {
                Some(DangerousCommandKind::Shutdown)
            } else if head == "dd"@ && (contains_spec(lower, "of=/dev/"@) || contains_spec(lower, "of=/dev/block/"@)
                || contains_spec(lower, "of=/dev/mmc"@) || contains_spec(lower, "of=/dev/nvme"@)) {
                Some(DangerousCommandKind::DiskOverwrite)
            } else if head == "fdisk"@ || head == "parted"@ || head == "sgdisk"@ || head == "blkdiscard"@
                || head == "flash_erase"@ {
                Some(DangerousCommandKind::DiskOverwrite)
            } else if starts_with_spec(head, "mkfs"@) {
                Some(DangerousCommandKind::DiskOverwrite)
            } else if head == "fastboot"@ && tokens.len() > 1 && (tokens[1] == "flash"@ || tokens[1] == "erase"@
                || tokens[1] == "format"@ || tokens[1] == "oem"@) {
                Some(DangerousCommandKind::HardwareLevel)
            } else {
                None
            }
        }
    }
}

/// The words of a simple command as its danger is judged: the command
/// trimmed of white space and of parentheses around it, in lower case.
pub open spec fn command_words(segment: Seq<char>) -> Seq<Seq<char>> {
    words_spec(lower_spec(trim_class(trim_spec(segment), CharClass::Paren)))
}

proof fn lemma_words_of_empty(s: Seq<char>)
    requires
        s.len() == 0,
    ensures
        words_spec(s).len() == 0,
{
    let parts = split_class(s, CharClass::Space);
    assert(parts == Seq::<Seq<char>>::empty().push(Seq::<char>::empty()));
    assert(parts.len() == 1);
    assert(parts.drop_last() =~= Seq::<Seq<char>>::empty());
    assert(crate::words::nonempty_parts(parts.drop_last()) == Seq::<Seq<char>>::empty());
    assert(parts.last().len() == 0);
}

/// Law: a simple command (outside the nesting limit's reach) is judged by
/// its first word: `shutdown`, `poweroff` and `halt` shut down; `reboot`
/// and `termux-reboot` reboot; `unlink` deletes a file and `rmdir` a
/// directory; `rm` deletes a directory when an option holds an `r`, else a
/// file; `fdisk`, `parted`, `sgdisk`, `blkdiscard`, `flash_erase` and
/// any `mkfs` overwrite a disk.
pub proof fn lemma_command_judged_by_first_word(segment: Seq<char>, depth: nat)
    requires
        depth <= 3,
        command_words(segment).len() > 0,
    ensures
        ({
            let w = command_words(segment)[0];
            let r = dangerous_segment_spec(segment, depth);
            &&& (w == "shutdown"@ || w == "poweroff"@ || w == "halt"@) ==> r == Some(DangerousCommandKind::Shutdown)
            &&& (w == "reboot"@ || w == "termux-reboot"@) ==> r == Some(DangerousCommandKind::Reboot)
            &&& w == "unlink"@ ==> r == Some(DangerousCommandKind::DeleteFile)
            &&& w == "rm"@ ==> r == Some(
                if exists|i: int|
                    1 <= i < command_words(segment).len() && starts_with_spec(command_words(segment)[i], "-"@)
                        && #[trigger] command_words(segment)[i].contains('r') {
                    DangerousCommandKind::DeleteDirectory
                } else {
                    DangerousCommandKind::DeleteFile
                },
            )
            &&& w == "rmdir"@ ==> r == Some(DangerousCommandKind::DeleteDirectory)
            &&& (w == "fdisk"@ || w == "parted"@ || w == "sgdisk"@ || w == "blkdiscard"@ || w == "flash_erase"@
                || starts_with_spec(w, "mkfs"@)) ==> r == Some(DangerousCommandKind::DiskOverwrite)
        }),
{
    let trimmed = trim_class(trim_spec(segment), CharClass::Paren);
    if trimmed.len() == 0 {
        assert(lower_spec(trimmed).len() == 0);
        lemma_words_of_empty(lower_spec(trimmed));
    }
    reveal_strlit("shutdown");
    reveal_strlit("poweroff");
    reveal_strlit("halt");
    reveal_strlit("reboot");
    reveal_strlit("termux-reboot");
    reveal_strlit("unlink");
    reveal_strlit("rmdir");
    reveal_strlit("fdisk");
    reveal_strlit("parted");
    reveal_strlit("sgdisk");
    reveal_strlit("blkdiscard");
    reveal_strlit("flash_erase");
    reveal_strlit("mkfs");
    reveal_strlit("adb");
    reveal_strlit("su");
    reveal_strlit("bash");
    reveal_strlit("sh");
    reveal_strlit("zsh");
    reveal_strlit("rm");
    reveal_strlit("find");
    reveal_strlit("svc");
    reveal_strlit("dd");
    reveal_strlit("fastboot");
    // The first two characters of the first word tell the words apart.
    let w = command_words(segment)[0];
    if w.len() > 1 {
        assert(w[0] == w[0] && w[1] == w[1]);
    }
    assert("shutdown"@[0] == 's' && "poweroff"@[0] == 'p' && "halt"@[0] == 'h' && "reboot"@[0] == 'r');
    assert("termux-reboot"@[0] == 't' && "unlink"@[0] == 'u' && "rmdir"@[0] == 'r' && "fdisk"@[0] == 'f');
    assert("parted"@[0] == 'p' && "sgdisk"@[0] == 's' && "blkdiscard"@[0] == 'b' && "flash_erase"@[0] == 'f');
    assert("mkfs"@[0] == 'm' && "adb"@[0] == 'a' && "su"@[0] == 's' && "bash"@[0] == 'b' && "sh"@[0] == 's');
    assert("zsh"@[0] == 'z' && "rm"@[0] == 'r' && "find"@[0] == 'f' && "svc"@[0] == 's' && "dd"@[0] == 'd');
    assert("fastboot"@[0] == 'f' && "rmdir"@[1] == 'm' && "reboot"@[1] == 'e' && "fdisk"@[1] == 'd');
    assert("find"@[1] == 'i' && "flash_erase"@[1] == 'l' && "fastboot"@[1] == 'a' && "shutdown"@[1] == 'h');
    assert("sh"@[1] == 'h' && "su"@[1] == 'u' && "sgdisk"@[1] == 'g' && "svc"@[1] == 'v' && "rm"@[1] == 'm');
}

fn first_index_of_exec(tokens: &Vec<Vec<char>>, w: &str) -> (r: Option<usize>)
    ensures
        r is Some <==> first_index_of(views(tokens@), w@, 0) is Some,
        r matches Some(i) ==> first_index_of(views(tokens@), w@, 0) == Some(i as int) && i < tokens@.len(),
{
    let ghost v = views(tokens@);
    let mut i: usize = 0;
    while i < tokens.len()
        invariant
            i <= tokens.len(),
            v == views(tokens@),
            first_index_of(v, w@, 0) == first_index_of(v, w@, i as int),
        decreases tokens.len() - i,
    {
        if chars_eq_str(&tokens[i], w) {
            return Some(i);
        }
        i += 1;
    }
    None
}

fn has_recursive_flag_exec(tokens: &Vec<Vec<char>>) -> (r: bool)
    ensures
        r == has_recursive_flag(views(tokens@)),
{
    let ghost v = views(tokens@);
    let mut i: usize = 1;
    while i < tokens.len()
        invariant
            1 <= i,
            v == views(tokens@),
            forall|j: int| 1 <= j < i && j < v.len() ==> !(starts_with_spec(v[j], "-"@) && #[trigger] v[j].contains('r')),
        decreases tokens.len() - i,
    {
        if starts_with_str(&tokens[i], "-") && has_char(&tokens[i], 'r') {
            assert(v[i as int] == tokens@[i as int]@);
            return true;
        }
        i += 1;
    }
    false
}

fn contains_word(tokens: &Vec<Vec<char>>, w: &str) -> (r: bool)
    ensures
        r == views(tokens@).contains(w@),
{
    let ghost v = views(tokens@);
    let mut i: usize = 0;
    while i < tokens.len()
        invariant
            i <= tokens.len(),
            v == views(tokens@),
            forall|j: int| 0 <= j < i ==> v[j] != w@,
        decreases tokens.len() - i,
    {
        if chars_eq_str(&tokens[i], w) {
            assert(v[i as int] == w@);
            return true;
        }
        i += 1;
    }
    false
}

fn word_is(tokens: &Vec<Vec<char>>, i: usize, w: &str) -> (r: bool)
    ensures
        r == (i < views(tokens@).len() && views(tokens@)[i as int] == w@),
{
    if i < tokens.len() {
        chars_eq_str(&tokens[i], w)
    } else {
        false
    }
}

/// The kind of danger of one simple command (`None` for a safe one).
pub fn detect_dangerous_command_segment(segment: &str, depth: usize) -> (r: Option<DangerousCommandKind>)
    ensures
        r == dangerous_segment_spec(segment@, depth as nat),
    decreases 4 - depth,
{
    if depth > 3 {
        return None;
    }
    let trimmed = trim_class_chars(&trim_str_chars(segment), CharClass::Paren);
    let lower = lower_chars(&trimmed);
    let tokens = words_chars(&lower);
    if trimmed.len() == 0 || tokens.len() == 0 {
        return None;
    }
    let head = &tokens[0];
    if chars_eq_str(head, "adb") && word_is(&tokens, 1, "shell") {
        let nested = chars_to_string(&strip_quotes_chars(&join_words_from_chars(&trimmed, 2)));
        return detect_dangerous_command_segment(nested.as_str(), depth + 1);
    }
    if chars_eq_str(head, "su") {
        return match first_index_of_exec(&tokens, "-c") {
            Some(index) => {
                let nested = chars_to_string(&strip_quotes_chars(&join_words_from_chars(&trimmed, index + 1)));
                detect_dangerous_command_segment(nested.as_str(), depth + 1)
            },
            None => None,
        };
    }
    if chars_eq_str(head, "bash") || chars_eq_str(head, "sh") || chars_eq_str(head, "zsh") {
        if word_is(&tokens, 1, "-c") || word_is(&tokens, 1, "-lc") || word_is(&tokens, 1, "-ic") {
            let nested = chars_to_string(&strip_quotes_chars(&join_words_from_chars(&trimmed, 2)));
            return detect_dangerous_command_segment(nested.as_str(), depth + 1);
        }
        return None;
    }
    if chars_eq_str(head, "rm") {
        if has_recursive_flag_exec(&tokens) {
            return Some(DangerousCommandKind::DeleteDirectory);
        }
        return Some(DangerousCommandKind::DeleteFile);
    }
    if chars_eq_str(head, "unlink") {
        return Some(DangerousCommandKind::DeleteFile);
    }
    if chars_eq_str(head, "rmdir") {
        return Some(DangerousCommandKind::DeleteDirectory);
    }
    if chars_eq_str(head, "find") && contains_word(&tokens, "-delete") {
        return Some(DangerousCommandKind::DeleteDirectory);
    }
    if chars_eq_str(head, "shutdown") || chars_eq_str(head, "poweroff") || chars_eq_str(head, "halt") {
        return Some(DangerousCommandKind::Shutdown);
    }
    if chars_eq_str(head, "reboot") || chars_eq_str(head, "termux-reboot") {
        return Some(DangerousCommandKind::Reboot);
    }
    if chars_eq_str(head, "svc") && word_is(&tokens, 1, "power") && word_is(&tokens, 2, "reboot") {
        return Some(DangerousCommandKind::Reboot);
    }
    if chars_eq_str(head, "svc") && word_is(&tokens, 1, "power") && word_is(&tokens, 2, "shutdown") {
        return Some(DangerousCommandKind::Shutdown);
    }
    if chars_eq_str(head, "dd") && (contains_str(&lower, "of=/dev/") || contains_str(&lower, "of=/dev/block/")
        || contains_str(&lower, "of=/dev/mmc") || contains_str(&lower, "of=/dev/nvme")) {
        return Some(DangerousCommandKind::DiskOverwrite);
    }
    if chars_eq_str(head, "fdisk") || chars_eq_str(head, "parted") || chars_eq_str(head, "sgdisk")
        || chars_eq_str(head, "blkdiscard") || chars_eq_str(head, "flash_erase") {
        return Some(DangerousCommandKind::DiskOverwrite);
    }
    if starts_with_str(head, "mkfs") {
        return Some(DangerousCommandKind::DiskOverwrite);
    }
    if chars_eq_str(head, "fastboot") && (word_is(&tokens, 1, "flash") || word_is(&tokens, 1, "erase")
        || word_is(&tokens, 1, "format") || word_is(&tokens, 1, "oem")) {
        return Some(DangerousCommandKind::HardwareLevel);
    }
    None
}

fn trim_str_chars(s: &str) -> (r: Vec<char>)
    ensures
        r@ == trim_spec(s@),
{
    trim_chars(&str_chars(s))
}

/// The danger of the first dangerous segment, in order.
pub open spec fn first_danger(segments: Seq<Seq<char>>) -> Option<DangerousCommandKind>
    decreases segments.len(),
{
    if segments.len() == 0 {
        None
    } else {
        match dangerous_segment_spec(segments[0], 0) {
            Some(k) => Some(k),
            None => first_danger(segments.drop_first()),
        }
    }
}

/// The danger of the first dangerous simple command of a command line.
pub fn detect_dangerous_command_kind(command: &str) -> (r: Option<DangerousCommandKind>)
    ensures
        r == first_danger(command_segments_spec(command@)),
{
    let segs = command_segments_chars(&str_chars(command));
    let ghost v = views(segs@);
    let mut i: usize = 0;
    assert(v.skip(0) =~= v);
    while i < segs.len()
        invariant
            i <= segs.len(),
            v == views(segs@),
            v == command_segments_spec(command@),
            first_danger(v) == first_danger(v.skip(i as int)),
        decreases segs.len() - i,
    {
        let s = chars_to_string(&segs[i]);
        assert(v.skip(i as int)[0] == v[i as int]);
        assert(v.skip(i as int).drop_first() =~= v.skip(i + 1));
        assert(v[i as int] == segs@[i as int]@);
        let k = detect_dangerous_command_segment(s.as_str(), 0);
        if k.is_some() {
            return k;
        }
        i += 1;
    }
    None
}

// ---------------------------------------------------------------------------
// Families and terminal modes
// ---------------------------------------------------------------------------

/// The pieces with their quotes trimmed, the empty ones dropped.
pub open spec fn quote_trimmed_tokens(parts: Seq<Seq<char>>) -> Seq<Seq<char>>
    decreases parts.len(),
{
    if parts.len() == 0 {
        Seq::empty()
    } else {
        let r = quote_trimmed_tokens(parts.drop_last());
        let t = trim_class(parts.last(), CharClass::Quote);
        if t.len() > 0 {
            r.push(t)
        } else {
            r
        }
    }
}

/// The family of the first token that names `adb` or a `termux-` tool.
pub open spec fn family_of_tokens(tokens: Seq<Seq<char>>) -> ExecCommandFamily
    decreases tokens.len(),
{
    if tokens.len() == 0 {
        ExecCommandFamily::Generic
    } else {
        let t = tokens[0];
        if t == "adb"@ || ends_with_spec(t, "/adb"@) {
            ExecCommandFamily::Adb
        } else if starts_with_spec(t, "termux-"@) || contains_spec(t, "/termux-"@) {
            ExecCommandFamily::TermuxApi
        } else {
            family_of_tokens(tokens.drop_first())
        }
    }
}

/// The family of a command, read from its lower-cased tokens split at
/// whitespace and shell operators.
pub open spec fn command_family_spec(cmd: Seq<char>) -> ExecCommandFamily {
    family_of_tokens(quote_trimmed_tokens(split_class(lower_spec(trim_spec(cmd)), CharClass::ShellBreak)))
}

fn quote_trimmed_tokens_exec(parts: &Vec<Vec<char>>) -> (r: Vec<Vec<char>>)
    ensures
        views(r@) == quote_trimmed_tokens(views(parts@)),
{
    let ghost v = views(parts@);
    let mut out: Vec<Vec<char>> = Vec::new();
    let mut i: usize = 0;
    while i < parts.len()
        invariant
            i <= parts.len(),
            v == views(parts@),
            views(out@) == quote_trimmed_tokens(v.take(i as int)),
        decreases parts.len() - i,
    {
        proof {
            assert(v.take(i + 1).drop_last() =~= v.take(i as int));
        }
        let t = trim_class_chars(&parts[i], CharClass::Quote);
        if t.len() > 0 {
            let ghost before = views(out@);
            out.push(t);
            proof {
                assert(views(out@) =~= before.push(trim_class(v[i as int], CharClass::Quote)));
            }
        }
        i += 1;
    }
    proof {
        assert(v.take(parts.len() as int) =~= v);
    }
    out
}

pub fn classify_exec_command_family(cmd: &str) -> (r: ExecCommandFamily)
    ensures
        r == command_family_spec(cmd@),
{
    let lower = lower_chars(&trim_str_chars(cmd));
    let parts = split_class_chars(&lower, CharClass::ShellBreak);
    let tokens = quote_trimmed_tokens_exec(&parts);
    let ghost v = views(tokens@);
    let mut i: usize = 0;
    assert(v.skip(0) =~= v);
    while i < tokens.len()
        invariant
            i <= tokens.len(),
            v == views(tokens@),
            v == quote_trimmed_tokens(split_class(lower_spec(trim_spec(cmd@)), CharClass::ShellBreak)),
            family_of_tokens(v) == family_of_tokens(v.skip(i as int)),
        decreases tokens.len() - i,
    {
        let t = &tokens[i];
        assert(v.skip(i as int)[0] == v[i as int]);
        assert(v.skip(i as int).drop_first() =~= v.skip(i + 1));
        assert(v[i as int] == t@);
        if chars_eq_str(t, "adb") || ends_with_str(t, "/adb") {
            return ExecCommandFamily::Adb;
        }
        if starts_with_str(t, "termux-") || contains_str(t, "/termux-") {
            return ExecCommandFamily::TermuxApi;
        }
        i += 1;
    }
    ExecCommandFamily::Generic
}

/// The first word of a lower-cased command, without quotes.
pub open spec fn command_head(lower: Seq<char>) -> Seq<char> {
    let w = words_spec(lower);
    trim_class(if w.len() > 0 { w[0] } else { Seq::empty() }, CharClass::Quote)
}

fn command_head_exec(lower: &[char]) -> (r: Vec<char>)
    ensures
        r@ == command_head(lower@),
{
    let w = words_chars(lower);
    if w.len() > 0 {
        trim_class_chars(&w[0], CharClass::Quote)
    } else {
        let e: Vec<char> = Vec::new();
        trim_class_chars(&e, CharClass::Quote)
    }
}

/// Shells, pagers, editors and other programs that wait for the user.
pub open spec fn is_interactive_head(h: Seq<char>) -> bool {
    ||| h == "/bin/bash"@
    ||| h == "bash"@
    ||| h == "/bin/zsh"@
    ||| h == "zsh"@
    ||| h == "sh"@
    ||| h == "fish"@
    ||| h == "tmux"@
    ||| h == "top"@
    ||| h == "htop"@
    ||| h == "less"@
    ||| h == "more"@
    ||| h == "vim"@
    ||| h == "nvim"@
    ||| h == "nano"@
    ||| h == "watch"@
    ||| h == "ssh"@
}

fn is_interactive_head_exec(h: &[char]) -> (r: bool)
    ensures
        r == is_interactive_head(h@),
{
    chars_eq_str(h, "/bin/bash") || chars_eq_str(h, "bash") || chars_eq_str(h, "/bin/zsh") || chars_eq_str(h, "zsh")
        || chars_eq_str(h, "sh") || chars_eq_str(h, "fish") || chars_eq_str(h, "tmux") || chars_eq_str(h, "top")
        || chars_eq_str(h, "htop") || chars_eq_str(h, "less") || chars_eq_str(h, "more") || chars_eq_str(h, "vim")
        || chars_eq_str(h, "nvim") || chars_eq_str(h, "nano") || chars_eq_str(h, "watch") || chars_eq_str(h, "ssh")
}

/// Interactive for an `-i` option, `tail -f`, or a program that waits for
/// the user; else in the background.
pub open spec fn tty_mode_spec(cmd: Seq<char>) -> TerminalMode {
    let lower = lower_spec(trim_spec(cmd));
    let head = command_head(lower);
    if contains_spec(lower, " -i"@) || ends_with_spec(lower, " -i"@) || (contains_spec(lower, " -f"@) && (head
        == "tail"@ || head == "/bin/tail"@)) || is_interactive_head(head) {
        TerminalMode::Interactive
    } else {
        TerminalMode::Background
    }
}

pub fn classify_tty_mode(cmd: &str) -> (r: TerminalMode)
    ensures
        r == tty_mode_spec(cmd@),
{
    let lower = lower_chars(&trim_str_chars(cmd));
    let head = command_head_exec(&lower);
    let force = contains_str(&lower, " -i") || ends_with_str(&lower, " -i") || (contains_str(&lower, " -f") && (
    chars_eq_str(&head, "tail") || chars_eq_str(&head, "/bin/tail"))) || is_interactive_head_exec(&head);
    if force {
        TerminalMode::Interactive
    } else {
        TerminalMode::Background
    }
}

// ---------------------------------------------------------------------------
// Short descriptions
// ---------------------------------------------------------------------------

pub open spec fn git_brief_spec(cmd: Seq<char>) -> Seq<char> {
    if contains_spec(cmd, " status"@) || cmd == "git status"@ {
        "检查 Git 状态"@
    } else if contains_spec(cmd, " diff"@) || cmd == "git diff"@ {
        "查看 Git 变更"@
    } else if contains_spec(cmd, " log"@) || cmd == "git log"@ {
        "查看 Git 历史"@
    } else if contains_spec(cmd, " show"@) || cmd == "git show"@ {
        "查看 Git 对象"@
    } else if contains_spec(cmd, " blame"@) || cmd == "git blame"@ {
        "查看 Git 归属"@
    } else {
        "执行 Git 命令"@
    }
}

pub fn derive_git_brief(cmd: &[char]) -> (r: &'static str)
    ensures
        r@ == git_brief_spec(cmd@),
{
    if contains_str(cmd, " status") || chars_eq_str(cmd, "git status") {
        "检查 Git 状态"
    } else if contains_str(cmd, " diff") || chars_eq_str(cmd, "git diff") {
        "查看 Git 变更"
    } else if contains_str(cmd, " log") || chars_eq_str(cmd, "git log") {
        "查看 Git 历史"
    } else if contains_str(cmd, " show") || chars_eq_str(cmd, "git show") {
        "查看 Git 对象"
    } else if contains_str(cmd, " blame") || chars_eq_str(cmd, "git blame") {
        "查看 Git 归属"
    } else {
        "执行 Git 命令"
    }
}

pub open spec fn cargo_brief_spec(cmd: Seq<char>) -> Seq<char> {
    if contains_spec(cmd, " test"@) || cmd == "cargo test"@ {
        "运行 Rust 测试"@
    } else if contains_spec(cmd, " build"@) || cmd == "cargo build"@ {
        "构建 Rust 项目"@
    } else if contains_spec(cmd, " run"@) || cmd == "cargo run"@ {
        "运行 Rust 项目"@
    } else if contains_spec(cmd, " check"@) || cmd == "cargo check"@ {
        "检查 Rust 编译"@
    } else if contains_spec(cmd, " fmt"@) || cmd == "cargo fmt"@ {
        "格式化 Rust 代码"@
    } else {
        "执行 Rust 命令"@
    }
}

pub fn derive_cargo_brief(cmd: &[char]) -> (r: &'static str)
    ensures
        r@ == cargo_brief_spec(cmd@),
{
    if contains_str(cmd, " test") || chars_eq_str(cmd, "cargo test") {
        "运行 Rust 测试"
    } else if contains_str(cmd, " build") || chars_eq_str(cmd, "cargo build") {
        "构建 Rust 项目"
    } else if contains_str(cmd, " run") || chars_eq_str(cmd, "cargo run") {
        "运行 Rust 项目"
    } else if contains_str(cmd, " check") || chars_eq_str(cmd, "cargo check") {
        "检查 Rust 编译"
    } else if contains_str(cmd, " fmt") || chars_eq_str(cmd, "cargo fmt") {
        "格式化 Rust 代码"
    } else {
        "执行 Rust 命令"
    }
}

/// What a command does, told by its first word.
pub open spec fn exec_brief_spec(cmd: Seq<char>) -> Seq<char> {
    let lower = lower_spec(trim_spec(cmd));
    let h = command_head(lower);
    if h == "adb"@ {
        "执行 ADB 命令"@
    } else if h == "pwd"@ {
        "查看当前目录"@
    } else if h == "ls"@ || h == "tree"@ || h == "find"@ || h == "fd"@ {
        "查看目录与文件"@
    } else if h == "rg"@ || h == "grep"@ {
        "搜索文本内容"@
    } else if h == "cat"@ || h == "sed"@ || h == "head"@ || h == "tail"@ || h == "awk"@ || h == "cut"@ || h
        == "sort"@ || h == "uniq"@ || h == "wc"@ {
        "查看文件内容"@
    } else if h == "git"@ {
        git_brief_spec(lower)
    } else if h == "cargo"@ {
        cargo_brief_spec(lower)
    } else if h == "npm"@ || h == "pnpm"@ || h == "yarn"@ || h == "bun"@ {
        "执行项目脚本"@
    } else if h == "python"@ || h == "python3"@ || h == "node"@ || h == "bash"@ || h == "sh"@ || h == "zsh"@ {
        "执行脚本"@
    } else if h == "mkdir"@ || h == "cp"@ || h == "mv"@ || h == "rm"@ || h == "touch"@ || h == "chmod"@ || h
        == "chown"@ {
        "整理文件"@
    } else if h == "ps"@ || h == "pgrep"@ || h == "top"@ || h == "htop"@ || h == "kill"@ || h == "pkill"@ {
        "检查系统进程"@
    } else if h == "curl"@ || h == "wget"@ {
        "请求网络资源"@
    } else if h == "env"@ || h == "printenv"@ || h == "uname"@ {
        "查看系统环境"@
    } else if h.len() == 0 {
        "执行终端命令"@
    } else if starts_with_spec(h, "termux-"@) {
        "调用 Termux API"@
    } else {
        "执行终端命令"@
    }
}

pub fn derive_exec_command_brief(cmd: &str) -> (r: String)
    ensures
        r@ == exec_brief_spec(cmd@),
{
    let lower = lower_chars(&trim_str_chars(cmd));
    let h = command_head_exec(&lower);
    let out: &str = if chars_eq_str(&h, "adb") {
        "执行 ADB 命令"
    } else if chars_eq_str(&h, "pwd") {
        "查看当前目录"
    } else if chars_eq_str(&h, "ls") || chars_eq_str(&h, "tree") || chars_eq_str(&h, "find") || chars_eq_str(&h, "fd") {
        "查看目录与文件"
    } else if chars_eq_str(&h, "rg") || chars_eq_str(&h, "grep") {
        "搜索文本内容"
    } else if chars_eq_str(&h, "cat") || chars_eq_str(&h, "sed") || chars_eq_str(&h, "head") || chars_eq_str(&h, "tail")
        || chars_eq_str(&h, "awk") || chars_eq_str(&h, "cut") || chars_eq_str(&h, "sort") || chars_eq_str(&h, "uniq")
        || chars_eq_str(&h, "wc") {
        "查看文件内容"
    } else if chars_eq_str(&h, "git") {
        derive_git_brief(&lower)
    } else if chars_eq_str(&h, "cargo") {
        derive_cargo_brief(&lower)
    } else if chars_eq_str(&h, "npm") || chars_eq_str(&h, "pnpm") || chars_eq_str(&h, "yarn") || chars_eq_str(&h, "bun") {
        "执行项目脚本"
    } else if chars_eq_str(&h, "python") || chars_eq_str(&h, "python3") || chars_eq_str(&h, "node") || chars_eq_str(
        &h,
        "bash",
    ) || chars_eq_str(&h, "sh") || chars_eq_str(&h, "zsh") {
        "执行脚本"
    } else if chars_eq_str(&h, "mkdir") || chars_eq_str(&h, "cp") || chars_eq_str(&h, "mv") || chars_eq_str(&h, "rm")
        || chars_eq_str(&h, "touch") || chars_eq_str(&h, "chmod") || chars_eq_str(&h, "chown") {
        "整理文件"
    } else if chars_eq_str(&h, "ps") || chars_eq_str(&h, "pgrep") || chars_eq_str(&h, "top") || chars_eq_str(&h, "htop")
        || chars_eq_str(&h, "kill") || chars_eq_str(&h, "pkill") {
        "检查系统进程"
    } else if chars_eq_str(&h, "curl") || chars_eq_str(&h, "wget") {
        "请求网络资源"
    } else if chars_eq_str(&h, "env") || chars_eq_str(&h, "printenv") || chars_eq_str(&h, "uname") {
        "查看系统环境"
    } else if h.len() == 0 {
        "执行终端命令"
    } else if starts_with_str(&h, "termux-") {
        "调用 Termux API"
    } else {
        "执行终端命令"
    };
    chars_to_string(&str_chars(out))
}

/// Whitespace runs read as one space, scanned from `i` with `prev` telling
/// whether the last character kept was a space.
pub open spec fn collapse_run(s: Seq<char>, i: int, out: Seq<char>, prev: bool) -> Seq<char>
    decreases s.len() - i,
{
    if i < 0 || i >= s.len() {
        out
    } else if is_ws(s[i]) {
        if prev {
            collapse_run(s, i + 1, out, true)
        } else {
            collapse_run(s, i + 1, out.push(' '), true)
        }
    } else {
        collapse_run(s, i + 1, out.push(s[i]), false)
    }
}

/// Every whitespace run replaced by one space.
pub open spec fn collapse_ws(s: Seq<char>) -> Seq<char> {
    collapse_run(s, 0, Seq::empty(), false)
}

fn collapse_ws_exec(s: &[char]) -> (r: Vec<char>)
    ensures
        r@ == collapse_ws(s@),
{
    let mut out: Vec<char> = Vec::new();
    let mut prev = false;
    let mut i: usize = 0;
    assert(out@ =~= Seq::<char>::empty());
    while i < s.len()
        invariant
            i <= s.len(),
            collapse_run(s@, i as int, out@, prev) == collapse_ws(s@),
        decreases s.len() - i,
    {
        if is_whitespace(s[i]) {
            if !prev {
                out.push(' ');
            }
            prev = true;
        } else {
            out.push(s[i]);
            prev = false;
        }
        i += 1;
    }
    out
}

/// A line trimmed with its whitespace runs collapsed; `None` when nothing
/// is left.
pub open spec fn plan_line_spec(raw: Option<Seq<char>>) -> Option<Seq<char>> {
    match raw {
        Some(r) => {
            let out = trim_spec(collapse_ws(trim_spec(r)));
            if out.len() == 0 {
                None
            } else {
                Some(out)
            }
        },
        None => None,
    }
}

pub open spec fn opt_str_view(o: Option<&str>) -> Option<Seq<char>> {
    match o {
        Some(s) => Some(s@),
        None => None,
    }
}

pub open spec fn opt_string_view(o: Option<String>) -> Option<Seq<char>> {
    match o {
        Some(s) => Some(s@),
        None => None,
    }
}

pub fn normalize_plan_line(raw: Option<&str>) -> (r: Option<String>)
    ensures
        opt_string_view(r) == plan_line_spec(opt_str_view(raw)),
{
    match raw {
        Some(text) => {
            let c = collapse_ws_exec(&trim_str_chars(text));
            let out = trim_chars(&c);
            if out.len() == 0 {
                None
            } else {
                Some(chars_to_string(&out))
            }
        },
        None => None,
    }
}

/// A brief is a plan line cut to 24 characters.
pub open spec fn brief_spec(raw: Option<Seq<char>>) -> Option<Seq<char>> {
    match plan_line_spec(raw) {
        Some(out) => Some(ellipsis_spec(out, 24)),
        None => None,
    }
}

pub fn normalize_brief(raw: Option<&str>) -> (r: Option<String>)
    ensures
        opt_string_view(r) == brief_spec(opt_str_view(raw)),
{
    match normalize_plan_line(raw) {
        Some(line) => Some(truncate_chars(line.as_str(), 24)),
        None => None,
    }
}

/// At most `max_chars` characters, the last of them `'…'` when cut.
pub fn truncate_chars(text: &str, max_chars: usize) -> (r: String)
    ensures
        r@ == ellipsis_spec(text@, max_chars as nat),
{
    chars_to_string(&ellipsis_chars(&str_chars(text), max_chars))
}

/// The given brief when it has any content, else one derived from the
/// command.
pub fn resolve_exec_command_brief(raw: Option<&str>, cmd: &str) -> (r: String)
    ensures
        r@ == (match brief_spec(opt_str_view(raw)) {
            Some(b) => b,
            None => exec_brief_spec(cmd@),
        }),
{
    match normalize_brief(raw) {
        Some(b) => b,
        None => derive_exec_command_brief(cmd),
    }
}

// ---------------------------------------------------------------------------
// Terminal input
// ---------------------------------------------------------------------------

/// Blank input polls the terminal; anything else is injected.
pub open spec fn interaction_action_spec(chars: Seq<char>) -> Seq<char> {
    if trim_spec(chars).len() == 0 {
        "轮询"@
    } else {
        "注入"@
    }
}

pub fn terminal_interaction_action(chars: &str) -> (r: &'static str)
    ensures
        r@ == interaction_action_spec(chars@),
{
    if trim_str_chars(chars).len() == 0 {
        "轮询"
    } else {
        "注入"
    }
}

pub open spec fn input_action_label_spec(chars: Seq<char>, failed: bool) -> Seq<char> {
    if trim_spec(chars).len() == 0 {
        if failed {
            "轮询失败"@
        } else {
            "轮询完成"@
        }
    } else if failed {
        "注入失败"@
    } else {
        "注入成功"@
    }
}

pub fn terminal_input_action_label(chars: &str, failed: bool) -> (r: String)
    ensures
        r@ == input_action_label_spec(chars@, failed),
{
    let polled = trim_str_chars(chars).len() == 0;
    let out: &str = if polled {
        if failed {
            "轮询失败"
        } else {
            "轮询完成"
        }
    } else if failed {
        "注入失败"
    } else {
        "注入成功"
    };
    chars_to_string(&str_chars(out))
}

pub fn terminal_input_pending_action_label(chars: &str) -> (r: String)
    ensures
        r@ == interaction_action_spec(chars@) + "中"@,
{
    let mut out = str_chars(terminal_interaction_action(chars));
    push_str(&mut out, "中");
    chars_to_string(&out)
}

/// A line that looks like a submitted command: not empty, not an escape
/// sequence, and holding a letter, a digit or one of `/.-_`.
pub open spec fn looks_like_command(line: Seq<char>) -> bool {
    &&& line.len() > 0
    &&& line[0] != '\u{1b}'
    &&& exists|i: int|
        0 <= i < line.len() && (char_is_alphanumeric(#[trigger] line[i]) || line[i] == '/' || line[i] == '.'
            || line[i] == '-' || line[i] == '_')
}

/// The last line, trimmed, that looks like a command.
pub open spec fn last_command_line(ls: Seq<Seq<char>>) -> Option<Seq<char>>
    decreases ls.len(),
{
    if ls.len() == 0 {
        None
    } else if looks_like_command(trim_spec(ls.last())) {
        Some(trim_spec(ls.last()))
    } else {
        last_command_line(ls.drop_last())
    }
}

/// The command a write to a terminal submits: only input with a line break
/// submits one.
pub open spec fn submitted_command_spec(chars: Seq<char>) -> Option<Seq<char>> {
    let n = cr_to_nl(chars);
    if !n.contains('\n') {
        None
    } else {
        last_command_line(lines_spec(n))
    }
}

fn looks_like_command_exec(line: &[char]) -> (r: bool)
    ensures
        r == looks_like_command(line@),
{
    if line.len() == 0 || line[0] == '\u{1b}' {
        return false;
    }
    let mut i: usize = 0;
    while i < line.len()
        invariant
            i <= line.len(),
            line@.len() > 0,
            line@[0] != '\u{1b}',
            forall|j: int|
                0 <= j < i ==> !(char_is_alphanumeric(#[trigger] line@[j]) || line@[j] == '/' || line@[j] == '.'
                    || line@[j] == '-' || line@[j] == '_'),
        decreases line.len() - i,
    {
        let c = line[i];
        if is_alphanumeric(c) || c == '/' || c == '.' || c == '-' || c == '_' {
            assert(line@[i as int] == c);
            return true;
        }
        i += 1;
    }
    false
}

pub fn extract_submitted_stdin_command(chars: &str) -> (r: Option<String>)
    ensures
        opt_string_view(r) == submitted_command_spec(chars@),
{
    let n = cr_to_nl_exec(&str_chars(chars));
    if !has_char(&n, '\n') {
        return None;
    }
    let ls = lines_chars(&n);
    let ghost v = views(ls@);
    let mut i: usize = ls.len();
    assert(v.take(v.len() as int) =~= v);
    while i > 0
        invariant
            i <= ls.len(),
            v == views(ls@),
            v == lines_spec(cr_to_nl(chars@)),
            cr_to_nl(chars@).contains('\n'),
            last_command_line(v) == last_command_line(v.take(i as int)),
        decreases i,
    {
        let t = trim_chars(&ls[i - 1]);
        let ghost w = v.take(i as int);
        assert(w.last() == v[i - 1]);
        assert(w.drop_last() =~= v.take(i - 1));
        assert(v[i - 1] == ls@[i - 1]@);
        if looks_like_command_exec(&t) {
            return Some(chars_to_string(&t));
        }
        i -= 1;
    }
    None
}

/// A word quoted for the shell: inside single quotes, each single quote
/// written as `'\''`.
pub open spec fn shell_escape(s: Seq<char>) -> Seq<char>
    decreases s.len(),
{
    if s.len() == 0 {
        Seq::empty()
    } else {
        shell_escape(s.drop_last()) + if s.last() == '\'' {
            seq!['\'', '\\', '\'', '\'']
        } else {
            seq![s.last()]
        }
    }
}

pub open spec fn shell_quote_spec(s: Seq<char>) -> Seq<char> {
    if s.len() == 0 {
        seq!['\'', '\'']
    } else {
        seq!['\''] + shell_escape(s) + seq!['\'']
    }
}

pub fn shell_quote(text: &str) -> (r: String)
    ensures
        r@ == shell_quote_spec(text@),
{
    let t = str_chars(text);
    let mut out: Vec<char> = Vec::new();
    out.push('\'');
    if t.len() == 0 {
        out.push('\'');
        assert(out@ =~= seq!['\'', '\'']);
        return chars_to_string(&out);
    }
    let mut i: usize = 0;
    while i < t.len()
        invariant
            i <= t.len(),
            out@ =~= seq!['\''] + shell_escape(t@.take(i as int)),
        decreases t.len() - i,
    {
        proof {
            assert(t@.take(i + 1).drop_last() =~= t@.take(i as int));
        }
        if t[i] == '\'' {
            out.push('\'');
            out.push('\\');
            out.push('\'');
            out.push('\'');
        } else {
            out.push(t[i]);
        }
        i += 1;
    }
    out.push('\'');
    assert(t@.take(t@.len() as int) =~= t@);
    chars_to_string(&out)
}

} // verus!
