//! The reply of `view_image`: the image goes to the model as a base64 data
//! URL beside a short note, and the tool's texts describe how it was made
//! ready. Reading the file and reshaping the image happen outside; byte
//! sizes for people arrive already written.
use vstd::prelude::*;

use base64::Engine;

use crate::image_kind::{dims_human_spec, dims_machine_spec, format_dimensions_human, format_dimensions_machine};
use crate::text::{chars_to_string, dec_spec, push_dec, push_str, str_chars};

verus! {

/// The character of a six-bit value in the standard base64 alphabet.
pub open spec fn base64_char(v: int) -> char {
    if v < 26 {
        ('A' as int + v) as char
    } else if v < 52 {
        ('a' as int + (v - 26)) as char
    } else if v < 62 {
        ('0' as int + (v - 52)) as char
    } else if v == 62 {
        '+'
    } else {
        '/'
    }
}

/// The standard base64 text of these bytes: each group of three bytes
/// becomes four characters, six bits each from the high bits down; a last
/// group of one or two bytes is filled with zero bits and padded with `=`.
pub open spec fn base64_standard(b: Seq<u8>) -> Seq<char>
    decreases b.len(),
{
    if b.len() == 0 {
        Seq::empty()
    } else if b.len() == 1 {
        let n = b[0] as int * 65536;
        seq![base64_char(n / 262144), base64_char((n / 4096) % 64), '=', '=']
    } else if b.len() == 2 {
        let n = b[0] as int * 65536 + b[1] as int * 256;
        seq![base64_char(n / 262144), base64_char((n / 4096) % 64), base64_char((n / 64) % 64), '=']
    } else {
        let n = b[0] as int * 65536 + b[1] as int * 256 + b[2] as int;
        seq![base64_char(n / 262144), base64_char((n / 4096) % 64), base64_char((n / 64) % 64), base64_char(n % 64)]
            + base64_standard(b.skip(3))
    }
}

/// `base64::engine::general_purpose::STANDARD.encode`: the bytes in the
/// standard alphabet with padding, as `base64_standard` states it. The
/// length bound keeps the crate's size computation from overflowing, where
/// it panics.
#[verifier::external_body]
fn base64_encode(bytes: &[u8]) -> (r: String)
    requires
        bytes@.len() <= usize::MAX / 2,
    ensures
        r@ == base64_standard(bytes@),
{
    base64::engine::general_purpose::STANDARD.encode(bytes)
}

/// The image as a data URL: its MIME type, then its bytes in base64.
pub fn view_image_data_url(mime: &str, upload: &[u8]) -> (r: String)
    requires
        upload@.len() <= usize::MAX / 2,
    ensures
        r@ == "data:"@ + mime@ + ";base64,"@ + base64_standard(upload@),
{
    let mut out = str_chars("data:");
    push_str(&mut out, mime);
    push_str(&mut out, ";base64,");
    let encoded = base64_encode(upload);
    push_str(&mut out, encoded.as_str());
    chars_to_string(&out)
}

/// An image made ready for the model.
pub struct PreparedViewImage {
    pub original_mime: String,
    pub upload_mime: String,
    pub original_bytes: usize,
    pub upload_bytes: Vec<u8>,
    pub original_dimensions: Option<(u32, u32)>,
    pub upload_dimensions: Option<(u32, u32)>,
    pub mode_label: String,
    pub mode_source_label: String,
    pub strategy_label: String,
}

/// What the tool hands back: the texts, and the note and data URL that go
/// to the model as a user message.
pub struct ViewImageExecution {
    pub brief: String,
    pub kind_label: String,
    pub action_label: String,
    pub model_output: String,
    pub command_preview: String,
    pub output_preview: String,
    pub exit_code: Option<i32>,
    pub input_text: String,
    pub data_url: String,
}

/// Sizes already written for people: the upload limit, the original file
/// and the upload.
pub struct ViewImageByteLabels {
    pub upload_limit: String,
    pub original: String,
    pub upload: String,
}

pub open spec fn mode_line(p: PreparedViewImage) -> Seq<char> {
    "模式："@ + p.mode_label@ + "（"@ + p.mode_source_label@ + "）"@
}

pub open spec fn original_line(p: PreparedViewImage, human: Seq<char>) -> Seq<char> {
    "原始："@ + p.original_mime@ + " · "@ + dims_human_spec(p.original_dimensions) + " · "@ + human
}

pub open spec fn upload_line(p: PreparedViewImage, human: Seq<char>) -> Seq<char> {
    "上传："@ + p.upload_mime@ + " · "@ + dims_human_spec(p.upload_dimensions) + " · "@ + human
}

pub open spec fn view_output_preview_spec(
    resolved: Seq<char>,
    p: PreparedViewImage,
    quality: Seq<char>,
    sizes: ViewImageByteLabels,
) -> Seq<char> {
    "路径："@ + resolved + "\n"@ + mode_line(p) + "\n"@ + "质量："@ + quality + "\n"@ + "上限："@
        + sizes.upload_limit@ + "\n"@ + original_line(p, sizes.original@) + "\n"@ + upload_line(p, sizes.upload@)
        + "\n"@ + "处理："@ + p.strategy_label@
}

pub open spec fn view_command_preview_spec(
    requested: Seq<char>,
    resolved: Seq<char>,
    p: PreparedViewImage,
    sizes: ViewImageByteLabels,
) -> Seq<char> {
    requested + "\n"@ + "解析："@ + resolved + "\n"@ + mode_line(p) + "\n"@ + original_line(p, sizes.original@)
        + "\n"@ + upload_line(p, sizes.upload@)
}

pub open spec fn view_model_output_spec(
    resolved: Seq<char>,
    p: PreparedViewImage,
    quality: Seq<char>,
    upload_limit_bytes: usize,
) -> Seq<char> {
    "Image attached for analysis."@ + "\n"@ + "path="@ + resolved + "\n"@ + "mode="@ + p.mode_label@ + "\n"@
        + "mode_source="@ + p.mode_source_label@ + "\n"@ + "quality="@ + quality + "\n"@ + "upload_limit_bytes="@
        + dec_spec(upload_limit_bytes as nat) + "\n"@ + "original_mime="@ + p.original_mime@ + "\n"@
        + "original_dimensions="@ + dims_machine_spec(p.original_dimensions) + "\n"@ + "original_bytes="@
        + dec_spec(p.original_bytes as nat) + "\n"@ + "upload_mime="@ + p.upload_mime@ + "\n"@
        + "upload_dimensions="@ + dims_machine_spec(p.upload_dimensions) + "\n"@ + "upload_bytes="@ + dec_spec(
        p.upload_bytes@.len(),
    ) + "\n"@ + "processing="@ + p.strategy_label@
}

pub open spec fn view_input_text_spec(path: Seq<char>, p: PreparedViewImage) -> Seq<char> {
    "[tool:view_image] 以下图片由本地工具读取并附加到当前轮次，用于视觉分析。路径："@ + path + "；模式："@
        + p.mode_label@ + "（"@ + p.mode_source_label@ + "）；原始："@ + p.original_mime@ + " / "@
        + dims_human_spec(p.original_dimensions) + "；上传："@ + p.upload_mime@ + " / "@ + dims_human_spec(
        p.upload_dimensions,
    ) + "。如需估算点击位置，请按上传尺寸映射回原始尺寸。"@
}

fn push_mode_line(out: &mut Vec<char>, p: &PreparedViewImage)
    ensures
        final(out)@ == old(out)@ + mode_line(*p),
{
    let ghost o = out@;
    push_str(out, "模式：");
    push_str(out, p.mode_label.as_str());
    push_str(out, "（");
    push_str(out, p.mode_source_label.as_str());
    push_str(out, "）");
    assert(out@ =~= o + mode_line(*p));
}

fn push_original_line(out: &mut Vec<char>, p: &PreparedViewImage, human: &str)
    ensures
        final(out)@ == old(out)@ + original_line(*p, human@),
{
    let ghost o = out@;
    push_str(out, "原始：");
    push_str(out, p.original_mime.as_str());
    push_str(out, " · ");
    push_str(out, format_dimensions_human(p.original_dimensions).as_str());
    push_str(out, " · ");
    push_str(out, human);
    assert(out@ =~= o + original_line(*p, human@));
}

fn push_upload_line(out: &mut Vec<char>, p: &PreparedViewImage, human: &str)
    ensures
        final(out)@ == old(out)@ + upload_line(*p, human@),
{
    let ghost o = out@;
    push_str(out, "上传：");
    push_str(out, p.upload_mime.as_str());
    push_str(out, " · ");
    push_str(out, format_dimensions_human(p.upload_dimensions).as_str());
    push_str(out, " · ");
    push_str(out, human);
    assert(out@ =~= o + upload_line(*p, human@));
}

/// The tool's own view of the result: path, mode, quality, limit, the two
/// versions of the image and how it was processed, one per line.
pub fn view_image_output_preview(
    resolved: &str,
    p: &PreparedViewImage,
    quality: &str,
    sizes: &ViewImageByteLabels,
) -> (r: String)
    ensures
        r@ == view_output_preview_spec(resolved@, *p, quality@, *sizes),
{
    let mut out = str_chars("路径：");
    push_str(&mut out, resolved);
    push_str(&mut out, "\n");
    push_mode_line(&mut out, p);
    push_str(&mut out, "\n");
    push_str(&mut out, "质量：");
    push_str(&mut out, quality);
    push_str(&mut out, "\n");
    push_str(&mut out, "上限：");
    push_str(&mut out, sizes.upload_limit.as_str());
    push_str(&mut out, "\n");
    push_original_line(&mut out, p, sizes.original.as_str());
    push_str(&mut out, "\n");
    push_upload_line(&mut out, p, sizes.upload.as_str());
    push_str(&mut out, "\n");
    push_str(&mut out, "处理：");
    push_str(&mut out, p.strategy_label.as_str());
    chars_to_string(&out)
}

/// The call as shown: the path asked for, where it led, the mode and the
/// two versions of the image.
pub fn view_image_command_preview(
    requested: &str,
    resolved: &str,
    p: &PreparedViewImage,
    sizes: &ViewImageByteLabels,
) -> (r: String)
    ensures
        r@ == view_command_preview_spec(requested@, resolved@, *p, *sizes),
{
    let mut out = str_chars(requested);
    push_str(&mut out, "\n");
    push_str(&mut out, "解析：");
    push_str(&mut out, resolved);
    push_str(&mut out, "\n");
    push_mode_line(&mut out, p);
    push_str(&mut out, "\n");
    push_original_line(&mut out, p, sizes.original.as_str());
    push_str(&mut out, "\n");
    push_upload_line(&mut out, p, sizes.upload.as_str());
    chars_to_string(&out)
}

fn push_line_key(out: &mut Vec<char>, key: &str, value: &str)
    ensures
        final(out)@ == old(out)@ + "\n"@ + key@ + value@,
{
    push_str(out, "\n");
    push_str(out, key);
    push_str(out, value);
}

fn push_line_dec(out: &mut Vec<char>, key: &str, value: usize)
    ensures
        final(out)@ == old(out)@ + "\n"@ + key@ + dec_spec(value as nat),
{
    push_str(out, "\n");
    push_str(out, key);
    push_dec(out, value as u64);
}

/// What the model reads: one `key=value` line per fact of the image.
pub fn view_image_model_output(resolved: &str, p: &PreparedViewImage, quality: &str, upload_limit_bytes: usize) -> (r:
    String)
    ensures
        r@ == view_model_output_spec(resolved@, *p, quality@, upload_limit_bytes),
{
    let mut out = str_chars("Image attached for analysis.");
    push_line_key(&mut out, "path=", resolved);
    push_line_key(&mut out, "mode=", p.mode_label.as_str());
    push_line_key(&mut out, "mode_source=", p.mode_source_label.as_str());
    push_line_key(&mut out, "quality=", quality);
    push_line_dec(&mut out, "upload_limit_bytes=", upload_limit_bytes);
    push_line_key(&mut out, "original_mime=", p.original_mime.as_str());
    push_line_key(&mut out, "original_dimensions=", format_dimensions_machine(p.original_dimensions).as_str());
    push_line_dec(&mut out, "original_bytes=", p.original_bytes);
    push_line_key(&mut out, "upload_mime=", p.upload_mime.as_str());
    push_line_key(&mut out, "upload_dimensions=", format_dimensions_machine(p.upload_dimensions).as_str());
    push_line_dec(&mut out, "upload_bytes=", p.upload_bytes.len());
    push_line_key(&mut out, "processing=", p.strategy_label.as_str());
    chars_to_string(&out)
}

/// The note sent with the image: where it came from, how it was prepared,
/// and that clicks map back from the upload size to the original.
pub fn view_image_input_text(path: &str, p: &PreparedViewImage) -> (r: String)
    ensures
        r@ == view_input_text_spec(path@, *p),
{
    let mut out = str_chars("[tool:view_image] 以下图片由本地工具读取并附加到当前轮次，用于视觉分析。路径：");
    push_str(&mut out, path);
    push_str(&mut out, "；模式：");
    push_str(&mut out, p.mode_label.as_str());
    push_str(&mut out, "（");
    push_str(&mut out, p.mode_source_label.as_str());
    push_str(&mut out, "）；原始：");
    push_str(&mut out, p.original_mime.as_str());
    push_str(&mut out, " / ");
    push_str(&mut out, format_dimensions_human(p.original_dimensions).as_str());
    push_str(&mut out, "；上传：");
    push_str(&mut out, p.upload_mime.as_str());
    push_str(&mut out, " / ");
    push_str(&mut out, format_dimensions_human(p.upload_dimensions).as_str());
    push_str(&mut out, "。如需估算点击位置，请按上传尺寸映射回原始尺寸。");
    chars_to_string(&out)
}

/// The whole reply of `view_image` for an image made ready: an "Image ·
/// View" call that succeeded, with the data URL of the upload.
pub fn build_view_image_execution(
    brief: String,
    requested_display: &str,
    resolved_display: &str,
    p: &PreparedViewImage,
    quality: &str,
    upload_limit_bytes: usize,
    sizes: &ViewImageByteLabels,
) -> (r: ViewImageExecution)
    requires
        p.upload_bytes@.len() <= usize::MAX / 2,
    ensures
        r.brief@ == brief@,
        r.kind_label@ == "Image"@,
        r.action_label@ == "View"@,
        r.model_output@ == view_model_output_spec(resolved_display@, *p, quality@, upload_limit_bytes),
        r.command_preview@ == view_command_preview_spec(requested_display@, resolved_display@, *p, *sizes),
        r.output_preview@ == view_output_preview_spec(resolved_display@, *p, quality@, *sizes),
        r.exit_code == Some(0i32),
        r.input_text@ == view_input_text_spec(resolved_display@, *p),
        r.data_url@ == "data:"@ + p.upload_mime@ + ";base64,"@ + base64_standard(p.upload_bytes@),
{
    let data_url = view_image_data_url(p.upload_mime.as_str(), p.upload_bytes.as_slice());
    ViewImageExecution {
        brief,
        kind_label: chars_to_string(&str_chars("Image")),
        action_label: chars_to_string(&str_chars("View")),
        model_output: view_image_model_output(resolved_display, p, quality, upload_limit_bytes),
        command_preview: view_image_command_preview(requested_display, resolved_display, p, sizes),
        output_preview: view_image_output_preview(resolved_display, p, quality, sizes),
        exit_code: Some(0),
        input_text: view_image_input_text(resolved_display, p),
        data_url,
    }
}

} // verus!
