//! Tool output and image settings, and the budgets that decide how much of a
//! command's output is shown inline and when it is archived instead.
use vstd::prelude::*;

use crate::text::{dec_spec, push_dec, push_str, str_chars, chars_to_string};

verus! {

pub const COMMAND_OUTPUT_BUDGET_CHARS_PER_LINE: usize = 300;
pub const COMMAND_OUTPUT_LEVEL_LOW_LINES: usize = 120;
pub const COMMAND_OUTPUT_LEVEL_MEDIUM_LINES: usize = 320;
pub const COMMAND_OUTPUT_LEVEL_HIGH_LINES: usize = 520;
/// Low lines times the characters allowed per line.
pub const COMMAND_OUTPUT_LEVEL_LOW_CHARS: usize = 36000;
/// Medium lines times the characters allowed per line.
pub const COMMAND_OUTPUT_LEVEL_MEDIUM_CHARS: usize = 96000;
/// High lines times the characters allowed per line.
pub const COMMAND_OUTPUT_LEVEL_HIGH_CHARS: usize = 156000;
pub const COMMAND_OUTPUT_SYSTEM_INLINE_MAX_LINES: usize = 1200;
/// 5 MiB.
pub const COMMAND_OUTPUT_SYSTEM_INLINE_MAX_BYTES: usize = 5242880;
/// 5 Mi characters.
pub const COMMAND_OUTPUT_SYSTEM_INLINE_MAX_CHARS: usize = 5242880;
pub const COMMAND_OUTPUT_PREVIEW_MAX_LINES: usize = 150;
pub const COMMAND_OUTPUT_PREVIEW_MAX_CHARS: usize = 12000;
/// 32 MiB.
pub const VIEW_IMAGE_SOURCE_MAX_BYTES: usize = 33554432;
/// 4 MiB.
pub const VIEW_IMAGE_UPLOAD_HARD_MAX_BYTES: usize = 4194304;
/// 2 MiB.
pub const VIEW_IMAGE_UPLOAD_TARGET_UI_BYTES: usize = 2097152;
/// 1280 KiB.
pub const VIEW_IMAGE_UPLOAD_TARGET_PHOTO_BYTES: usize = 1310720;
pub const MIN_AGENT_RETENTION_LIMIT: usize = 10;
pub const MAX_AGENT_RETENTION_LIMIT: usize = 100;
pub const DEFAULT_AGENT_RETENTION_LIMIT: usize = 20;
pub const TOOL_OUTPUT_LINES_MIN: usize = 20;
pub const TOOL_OUTPUT_LINES_MAX: usize = 2000;
pub const TOOL_OUTPUT_CHARS_MIN: usize = 1000;
pub const TOOL_OUTPUT_CHARS_MAX: usize = 1000000;
pub const VIEW_IMAGE_UPLOAD_MAX_MB_MIN: u64 = 1;
pub const VIEW_IMAGE_UPLOAD_MAX_MB_MAX: u64 = 32;
pub const TERMINAL_AUDIT_INTERVAL_SECS_MIN: u64 = 30;
pub const TERMINAL_AUDIT_INTERVAL_SECS_MAX: u64 = 3600;
/// Five minutes between reports on a running command.
pub const RUNNING_SNAPSHOT_INTERVAL_SECS: u64 = 300;

/// `v` brought into `[lo, hi]`.
pub open spec fn clamp_spec(v: int, lo: int, hi: int) -> int {
    if v < lo {
        lo
    } else if v > hi {
        hi
    } else {
        v
    }
}

pub open spec fn min_spec(a: int, b: int) -> int {
    if a <= b {
        a
    } else {
        b
    }
}

// ---------------------------------------------------------------------------
// Image settings
// ---------------------------------------------------------------------------

#[derive(Debug, Clone, Copy, PartialEq, Eq, Structural)]
pub enum ImageCompressionQuality {
    Low,
    Medium,
    High,
}

impl Default for ImageCompressionQuality {
    fn default() -> (r: Self)
        ensures
            r == ImageCompressionQuality::Medium,
    {
        ImageCompressionQuality::Medium
    }
}

pub open spec fn quality_label_spec(q: ImageCompressionQuality) -> Seq<char> {
    match q {
        ImageCompressionQuality::Low => "Low Quality"@,
        ImageCompressionQuality::Medium => "Medium Quality"@,
        ImageCompressionQuality::High => "High Quality"@,
    }
}

impl ImageCompressionQuality {
    pub fn label(self) -> (r: &'static str)
        ensures
            r@ == quality_label_spec(self),
    {
        match self {
            ImageCompressionQuality::Low => "Low Quality",
            ImageCompressionQuality::Medium => "Medium Quality",
            ImageCompressionQuality::High => "High Quality",
        }
    }
}

#[derive(Debug, Clone, Copy, PartialEq, Eq, Structural)]
pub struct ViewImageSettings {
    pub quality: ImageCompressionQuality,
    pub upload_max_mb: u64,
}

impl Default for ViewImageSettings {
    /// Medium quality and the hard upload limit in whole MiB.
    fn default() -> (r: Self)
        ensures
            r.quality == ImageCompressionQuality::Medium,
            r.upload_max_mb == 4,
    {
        ViewImageSettings { quality: ImageCompressionQuality::Medium, upload_max_mb: 4 }
    }
}

/// The upload limit in bytes: the sanitized MiB count, never above the
/// largest source image.
pub open spec fn upload_hard_max_spec(mb: u64) -> int {
    min_spec(
        clamp_spec(mb as int, VIEW_IMAGE_UPLOAD_MAX_MB_MIN as int, VIEW_IMAGE_UPLOAD_MAX_MB_MAX as int) * 1048576,
        VIEW_IMAGE_SOURCE_MAX_BYTES as int,
    )
}

pub open spec fn ui_target_spec(s: ViewImageSettings) -> int {
    let target = match s.quality {
        ImageCompressionQuality::Low => 1048576,
        ImageCompressionQuality::Medium => VIEW_IMAGE_UPLOAD_TARGET_UI_BYTES as int,
        ImageCompressionQuality::High => 3145728,
    };
    min_spec(target, upload_hard_max_spec(s.upload_max_mb))
}

pub open spec fn photo_target_spec(s: ViewImageSettings) -> int {
    let target = match s.quality {
        ImageCompressionQuality::Low => 786432,
        ImageCompressionQuality::Medium => VIEW_IMAGE_UPLOAD_TARGET_PHOTO_BYTES as int,
        ImageCompressionQuality::High => 1835008,
    };
    min_spec(target, upload_hard_max_spec(s.upload_max_mb))
}

impl ViewImageSettings {
    pub fn upload_hard_max_bytes(&self) -> (r: usize)
        ensures
            r == upload_hard_max_spec(self.upload_max_mb),
    {
        let mb = sanitize_view_image_upload_max_mb(self.upload_max_mb);
        let bytes: u64 = mb * 1048576;
        let b = bytes as usize;
        if b < VIEW_IMAGE_SOURCE_MAX_BYTES {
            b
        } else {
            VIEW_IMAGE_SOURCE_MAX_BYTES
        }
    }

    /// The byte size a screenshot is compressed towards.
    pub fn ui_target_bytes(&self) -> (r: usize)
        ensures
            r == ui_target_spec(*self),
    {
        let target: usize = match self.quality {
            ImageCompressionQuality::Low => 1048576,
            ImageCompressionQuality::Medium => VIEW_IMAGE_UPLOAD_TARGET_UI_BYTES,
            ImageCompressionQuality::High => 3145728,
        };
        let hard = self.upload_hard_max_bytes();
        if target <= hard {
            target
        } else {
            hard
        }
    }

    /// The byte size a photo is compressed towards.
    pub fn photo_target_bytes(&self) -> (r: usize)
        ensures
            r == photo_target_spec(*self),
    {
        let target: usize = match self.quality {
            ImageCompressionQuality::Low => 786432,
            ImageCompressionQuality::Medium => VIEW_IMAGE_UPLOAD_TARGET_PHOTO_BYTES,
            ImageCompressionQuality::High => 1835008,
        };
        let hard = self.upload_hard_max_bytes();
        if target <= hard {
            target
        } else {
            hard
        }
    }

    /// The first JPEG quality tried on a photo.
    pub fn initial_photo_quality(&self) -> (r: u8)
        ensures
            r == (match self.quality {
                ImageCompressionQuality::Low => 82u8,
                ImageCompressionQuality::Medium => 86u8,
                ImageCompressionQuality::High => 90u8,
            }),
    {
        match self.quality {
            ImageCompressionQuality::Low => 82,
            ImageCompressionQuality::Medium => 86,
            ImageCompressionQuality::High => 90,
        }
    }

    /// The lowest JPEG quality tried on a photo at its first size.
    pub fn initial_photo_min_quality(&self) -> (r: u8)
        ensures
            r == (match self.quality {
                ImageCompressionQuality::Low => 68u8,
                ImageCompressionQuality::Medium => 74u8,
                ImageCompressionQuality::High => 80u8,
            }),
    {
        match self.quality {
            ImageCompressionQuality::Low => 68,
            ImageCompressionQuality::Medium => 74,
            ImageCompressionQuality::High => 80,
        }
    }

    /// The first JPEG quality tried on a photo after a resize.
    pub fn resized_photo_quality(&self) -> (r: u8)
        ensures
            r == (match self.quality {
                ImageCompressionQuality::Low => 78u8,
                ImageCompressionQuality::Medium => 84u8,
                ImageCompressionQuality::High => 88u8,
            }),
    {
        match self.quality {
            ImageCompressionQuality::Low => 78,
            ImageCompressionQuality::Medium => 84,
            ImageCompressionQuality::High => 88,
        }
    }

    /// The lowest JPEG quality tried on a photo after a resize.
    pub fn resized_photo_min_quality(&self) -> (r: u8)
        ensures
            r == (match self.quality {
                ImageCompressionQuality::Low => 64u8,
                ImageCompressionQuality::Medium => 72u8,
                ImageCompressionQuality::High => 78u8,
            }),
    {
        match self.quality {
            ImageCompressionQuality::Low => 64,
            ImageCompressionQuality::Medium => 72,
            ImageCompressionQuality::High => 78,
        }
    }
}

pub fn default_view_image_settings() -> (r: ViewImageSettings)
    ensures
        r.quality == ImageCompressionQuality::Medium,
        r.upload_max_mb == 4,
{
    ViewImageSettings::default()
}

pub fn sanitize_view_image_upload_max_mb(value: u64) -> (r: u64)
    ensures
        r == clamp_spec(value as int, VIEW_IMAGE_UPLOAD_MAX_MB_MIN as int, VIEW_IMAGE_UPLOAD_MAX_MB_MAX as int),
{
    if value < VIEW_IMAGE_UPLOAD_MAX_MB_MIN {
        VIEW_IMAGE_UPLOAD_MAX_MB_MIN
    } else if value > VIEW_IMAGE_UPLOAD_MAX_MB_MAX {
        VIEW_IMAGE_UPLOAD_MAX_MB_MAX
    } else {
        value
    }
}

// ---------------------------------------------------------------------------
// Tool output settings
// ---------------------------------------------------------------------------

#[derive(Debug, Clone, Copy, PartialEq, Eq, Structural)]
pub struct ToolOutputSettings {
    pub low_lines: usize,
    pub low_chars: usize,
    pub medium_lines: usize,
    pub medium_chars: usize,
    pub high_lines: usize,
    pub high_chars: usize,
}

pub open spec fn default_tool_output_spec() -> ToolOutputSettings {
    ToolOutputSettings {
        low_lines: COMMAND_OUTPUT_LEVEL_LOW_LINES,
        low_chars: COMMAND_OUTPUT_LEVEL_LOW_CHARS,
        medium_lines: COMMAND_OUTPUT_LEVEL_MEDIUM_LINES,
        medium_chars: COMMAND_OUTPUT_LEVEL_MEDIUM_CHARS,
        high_lines: COMMAND_OUTPUT_LEVEL_HIGH_LINES,
        high_chars: COMMAND_OUTPUT_LEVEL_HIGH_CHARS,
    }
}

impl Default for ToolOutputSettings {
    fn default() -> (r: Self)
        ensures
            r == default_tool_output_spec(),
    {
        ToolOutputSettings {
            low_lines: COMMAND_OUTPUT_LEVEL_LOW_LINES,
            low_chars: COMMAND_OUTPUT_LEVEL_LOW_CHARS,
            medium_lines: COMMAND_OUTPUT_LEVEL_MEDIUM_LINES,
            medium_chars: COMMAND_OUTPUT_LEVEL_MEDIUM_CHARS,
            high_lines: COMMAND_OUTPUT_LEVEL_HIGH_LINES,
            high_chars: COMMAND_OUTPUT_LEVEL_HIGH_CHARS,
        }
    }
}

pub fn default_tool_output_settings() -> (r: ToolOutputSettings)
    ensures
        r == default_tool_output_spec(),
{
    ToolOutputSettings::default()
}

pub fn sanitize_tool_output_lines(value: usize) -> (r: usize)
    ensures
        r == clamp_spec(value as int, TOOL_OUTPUT_LINES_MIN as int, TOOL_OUTPUT_LINES_MAX as int),
{
    if value < TOOL_OUTPUT_LINES_MIN {
        TOOL_OUTPUT_LINES_MIN
    } else if value > TOOL_OUTPUT_LINES_MAX {
        TOOL_OUTPUT_LINES_MAX
    } else {
        value
    }
}

pub fn sanitize_tool_output_chars(value: usize) -> (r: usize)
    ensures
        r == clamp_spec(value as int, TOOL_OUTPUT_CHARS_MIN as int, TOOL_OUTPUT_CHARS_MAX as int),
{
    if value < TOOL_OUTPUT_CHARS_MIN {
        TOOL_OUTPUT_CHARS_MIN
    } else if value > TOOL_OUTPUT_CHARS_MAX {
        TOOL_OUTPUT_CHARS_MAX
    } else {
        value
    }
}

pub fn sanitize_terminal_audit_interval_secs(value: u64) -> (r: u64)
    ensures
        r == clamp_spec(value as int, TERMINAL_AUDIT_INTERVAL_SECS_MIN as int, TERMINAL_AUDIT_INTERVAL_SECS_MAX as int),
{
    if value < TERMINAL_AUDIT_INTERVAL_SECS_MIN {
        TERMINAL_AUDIT_INTERVAL_SECS_MIN
    } else if value > TERMINAL_AUDIT_INTERVAL_SECS_MAX {
        TERMINAL_AUDIT_INTERVAL_SECS_MAX
    } else {
        value
    }
}

pub fn default_terminal_audit_interval_secs() -> (r: u64)
    ensures
        r == RUNNING_SNAPSHOT_INTERVAL_SECS,
{
    RUNNING_SNAPSHOT_INTERVAL_SECS
}

pub fn sanitize_agent_retention_limit(limit: usize) -> (r: usize)
    ensures
        r == clamp_spec(limit as int, MIN_AGENT_RETENTION_LIMIT as int, MAX_AGENT_RETENTION_LIMIT as int),
{
    if limit < MIN_AGENT_RETENTION_LIMIT {
        MIN_AGENT_RETENTION_LIMIT
    } else if limit > MAX_AGENT_RETENTION_LIMIT {
        MAX_AGENT_RETENTION_LIMIT
    } else {
        limit
    }
}

/// Each sanitizer lands in its range and leaves values already in range
/// unchanged, so sanitizing twice is sanitizing once.
pub proof fn lemma_sanitize_idempotent(v: int, lo: int, hi: int)
    requires
        lo <= hi,
    ensures
        lo <= clamp_spec(v, lo, hi) <= hi,
        lo <= v <= hi ==> clamp_spec(v, lo, hi) == v,
        clamp_spec(clamp_spec(v, lo, hi), lo, hi) == clamp_spec(v, lo, hi),
{
}

// ---------------------------------------------------------------------------
// Permission mode
// ---------------------------------------------------------------------------

#[derive(Debug, Clone, Copy, PartialEq, Eq, Structural)]
pub enum PermissionMode {
    Full,
    Safe,
}

impl Default for PermissionMode {
    fn default() -> (r: Self)
        ensures
            r == PermissionMode::Full,
    {
        PermissionMode::Full
    }
}

impl PermissionMode {
    pub fn label(self) -> (r: &'static str)
        ensures
            r@ == (match self {
                PermissionMode::Full => "全权"@,
                PermissionMode::Safe => "安全"@,
            }),
    {
        match self {
            PermissionMode::Full => "全权",
            PermissionMode::Safe => "安全",
        }
    }
}

// ---------------------------------------------------------------------------
// Output budgets
// ---------------------------------------------------------------------------

/// Commands whose output is archived in a directory of its own.
#[derive(Debug, Clone, Copy, PartialEq, Eq, Structural)]
pub enum ExecCommandFamily {
    Generic,
    Adb,
    TermuxApi,
}

#[derive(Debug, Clone, Copy, PartialEq, Eq, Structural)]
pub enum CommandOutputLevel {
    Low,
    Medium,
    High,
}

impl Default for CommandOutputLevel {
    fn default() -> (r: Self)
        ensures
            r == CommandOutputLevel::Medium,
    {
        CommandOutputLevel::Medium
    }
}

#[derive(Debug, Clone, PartialEq, Eq)]
pub struct CommandOutputBudget {
    pub label: String,
    pub inline_lines: usize,
    pub inline_chars: usize,
}

pub open spec fn level_name(level: CommandOutputLevel) -> Seq<char> {
    match level {
        CommandOutputLevel::Low => "low"@,
        CommandOutputLevel::Medium => "medium"@,
        CommandOutputLevel::High => "high"@,
    }
}

pub open spec fn level_lines(s: ToolOutputSettings, level: CommandOutputLevel) -> usize {
    match level {
        CommandOutputLevel::Low => s.low_lines,
        CommandOutputLevel::Medium => s.medium_lines,
        CommandOutputLevel::High => s.high_lines,
    }
}

pub open spec fn level_chars(s: ToolOutputSettings, level: CommandOutputLevel) -> usize {
    match level {
        CommandOutputLevel::Low => s.low_chars,
        CommandOutputLevel::Medium => s.medium_chars,
        CommandOutputLevel::High => s.high_chars,
    }
}

/// `"{level} ({lines} lines · {chars} chars)"`.
pub open spec fn budget_label_spec(s: ToolOutputSettings, level: CommandOutputLevel) -> Seq<char> {
    level_name(level) + " ("@ + dec_spec(level_lines(s, level) as nat) + " lines · "@ + dec_spec(
        level_chars(s, level) as nat,
    ) + " chars)"@
}

/// The budget of a level is its line and character limits and a label that
/// names both.
pub open spec fn is_budget_for(b: CommandOutputBudget, s: ToolOutputSettings, level: CommandOutputLevel) -> bool {
    &&& b.label@ == budget_label_spec(s, level)
    &&& b.inline_lines == level_lines(s, level)
    &&& b.inline_chars == level_chars(s, level)
}

fn level_name_str(level: CommandOutputLevel) -> (r: &'static str)
    ensures
        r@ == level_name(level),
{
    match level {
        CommandOutputLevel::Low => "low",
        CommandOutputLevel::Medium => "medium",
        CommandOutputLevel::High => "high",
    }
}

impl ToolOutputSettings {
    pub fn budget_for_level(&self, level: CommandOutputLevel) -> (r: CommandOutputBudget)
        ensures
            is_budget_for(r, *self, level),
    {
        let (lines, chars) = match level {
            CommandOutputLevel::Low => (self.low_lines, self.low_chars),
            CommandOutputLevel::Medium => (self.medium_lines, self.medium_chars),
            CommandOutputLevel::High => (self.high_lines, self.high_chars),
        };
        let mut label = str_chars(level_name_str(level));
        push_str(&mut label, " (");
        push_dec(&mut label, lines as u64);
        push_str(&mut label, " lines · ");
        push_dec(&mut label, chars as u64);
        push_str(&mut label, " chars)");
        CommandOutputBudget { label: chars_to_string(&label), inline_lines: lines, inline_chars: chars }
    }
}

/// The budget of the chosen level; every level has one.
pub fn resolve_command_output_budget(output_level: CommandOutputLevel, settings: &ToolOutputSettings) -> (r: Result<
    CommandOutputBudget,
    String,
>)
    ensures
        r matches Ok(b) && is_budget_for(b, *settings, output_level),
{
    Ok(settings.budget_for_level(output_level))
}

#[derive(Debug, Clone, PartialEq, Eq)]
pub enum CommandOutputSaveReason {
    SelectedBudget(String),
    SystemSafety(String),
}

/// Why an output is archived rather than shown inline, as plain values.
pub enum SaveReasonModel {
    SelectedBudget(Seq<char>),
    SystemSafety(Seq<char>),
}

pub open spec fn save_reason_model(r: CommandOutputSaveReason) -> SaveReasonModel {
    match r {
        CommandOutputSaveReason::SelectedBudget(t) => SaveReasonModel::SelectedBudget(t@),
        CommandOutputSaveReason::SystemSafety(t) => SaveReasonModel::SystemSafety(t@),
    }
}

pub open spec fn save_reason_text(r: SaveReasonModel) -> Seq<char> {
    match r {
        SaveReasonModel::SelectedBudget(t) => t,
        SaveReasonModel::SystemSafety(t) => t,
    }
}

/// `"system safety cap: {value} {unit} > {cap}"`.
pub open spec fn cap_text(value: nat, unit: Seq<char>, cap: nat) -> Seq<char> {
    "system safety cap: "@ + dec_spec(value) + " "@ + unit + " > "@ + dec_spec(cap)
}

/// The selected budget comes first; then the system caps on bytes, lines and
/// characters, in that order.
pub open spec fn save_reason_spec(bytes: nat, lines: nat, chars: nat, budget: CommandOutputBudget) -> Option<SaveReasonModel> {
    if lines > budget.inline_lines || chars > budget.inline_chars {
        Some(SaveReasonModel::SelectedBudget("selected budget: "@ + budget.label@))
    } else if bytes > COMMAND_OUTPUT_SYSTEM_INLINE_MAX_BYTES {
        Some(SaveReasonModel::SystemSafety(cap_text(bytes, "bytes"@, COMMAND_OUTPUT_SYSTEM_INLINE_MAX_BYTES as nat)))
    } else if lines > COMMAND_OUTPUT_SYSTEM_INLINE_MAX_LINES {
        Some(SaveReasonModel::SystemSafety(cap_text(lines, "lines"@, COMMAND_OUTPUT_SYSTEM_INLINE_MAX_LINES as nat)))
    } else if chars > COMMAND_OUTPUT_SYSTEM_INLINE_MAX_CHARS {
        Some(SaveReasonModel::SystemSafety(cap_text(chars, "chars"@, COMMAND_OUTPUT_SYSTEM_INLINE_MAX_CHARS as nat)))
    } else {
        None
    }
}

pub open spec fn opt_reason_model(r: Option<CommandOutputSaveReason>) -> Option<SaveReasonModel> {
    match r {
        Some(x) => Some(save_reason_model(x)),
        None => None,
    }
}

impl CommandOutputSaveReason {
    pub fn display_text(&self) -> (r: &str)
        ensures
            r@ == save_reason_text(save_reason_model(*self)),
    {
        match self {
            CommandOutputSaveReason::SelectedBudget(text) => text.as_str(),
            CommandOutputSaveReason::SystemSafety(text) => text.as_str(),
        }
    }
}

fn cap_text_exec(value: usize, unit: &str, cap: usize) -> (r: String)
    ensures
        r@ == cap_text(value as nat, unit@, cap as nat),
{
    let mut out = str_chars("system safety cap: ");
    push_dec(&mut out, value as u64);
    push_str(&mut out, " ");
    push_str(&mut out, unit);
    push_str(&mut out, " > ");
    push_dec(&mut out, cap as u64);
    chars_to_string(&out)
}

/// Why an output of this size is archived, or `None` when it fits inline.
pub fn command_output_save_reason(bytes: usize, lines: usize, chars: usize, budget: &CommandOutputBudget) -> (r:
    Option<CommandOutputSaveReason>)
    ensures
        opt_reason_model(r) == save_reason_spec(bytes as nat, lines as nat, chars as nat, *budget),
{
    if lines > budget.inline_lines || chars > budget.inline_chars {
        let mut t = str_chars("selected budget: ");
        push_str(&mut t, budget.label.as_str());
        return Some(CommandOutputSaveReason::SelectedBudget(chars_to_string(&t)));
    }
    if bytes > COMMAND_OUTPUT_SYSTEM_INLINE_MAX_BYTES {
        return Some(
            CommandOutputSaveReason::SystemSafety(cap_text_exec(bytes, "bytes", COMMAND_OUTPUT_SYSTEM_INLINE_MAX_BYTES)),
        );
    }
    if lines > COMMAND_OUTPUT_SYSTEM_INLINE_MAX_LINES {
        return Some(
            CommandOutputSaveReason::SystemSafety(cap_text_exec(lines, "lines", COMMAND_OUTPUT_SYSTEM_INLINE_MAX_LINES)),
        );
    }
    if chars > COMMAND_OUTPUT_SYSTEM_INLINE_MAX_CHARS {
        return Some(
            CommandOutputSaveReason::SystemSafety(cap_text_exec(chars, "chars", COMMAND_OUTPUT_SYSTEM_INLINE_MAX_CHARS)),
        );
    }
    None
}

} // verus!
