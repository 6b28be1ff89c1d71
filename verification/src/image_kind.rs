//! Whether an image is a screen (kept sharp) or a photo (compressed), and
//! how its resizing is described. What is measured on the pixels comes in
//! as plain facts: the shape checks, transparency, and how varied the
//! colours are.
use vstd::prelude::*;

use crate::text::{
    chars_to_string, contains_chars, contains_spec, dec_spec, lower_chars, lower_spec, push_dec, push_str, str_chars,
};

verus! {

/// The mode a call asks for.
#[derive(Debug, Clone, Copy, PartialEq, Eq, Structural)]
pub enum ViewImageMode {
    Auto,
    Ui,
    Photo,
    Original,
}

#[derive(Debug, Clone, Copy, PartialEq, Eq, Structural)]
pub enum ViewImageKind {
    Ui,
    Photo,
}

/// How varied a thumbnail's colours are: few (at most 0.40 of the
/// palette), many (at least 0.62), or in between.
#[derive(Debug, Clone, Copy, PartialEq, Eq, Structural)]
pub enum ColorDiversity {
    Low,
    Mid,
    High,
}

/// What was measured on the image.
#[derive(Debug, Clone, Copy, PartialEq, Eq, Structural)]
pub struct ImageTraits {
    pub looks_like_phone_screenshot: bool,
    pub looks_like_camera_photo: bool,
    pub has_alpha: bool,
    pub diversity: ColorDiversity,
}

pub open spec fn screen_words() -> Seq<Seq<char>> {
    seq![
        "screenshot"@,
        "screen_shot"@,
        "screen-shot"@,
        "screen_capture"@,
        "screencap"@,
        "screenshots"@,
        "截图"@,
        "截屏"@,
        "录屏"@,
        "screenrecord"@,
        "game_space_screenshots"@,
    ]
}

pub open spec fn photo_words() -> Seq<Seq<char>> {
    seq!["/dcim/"@, "/camera/"@, "/photos/"@, "/photo/"@, "camera"@, "相机"@, "照片"@, "相册"@]
}

/// Some word of the list occurs in the text.
pub open spec fn has_any(text: Seq<char>, words: Seq<Seq<char>>) -> bool {
    exists|i: int| 0 <= i < words.len() && contains_spec(text, #[trigger] words[i])
}

pub fn contains_any_keyword(text: &str, keywords: &Vec<&str>) -> (r: bool)
    ensures
        r == has_any(text@, keywords@.map_values(|k: &str| k@)),
{
    let t = str_chars(text);
    let ghost ws = keywords@.map_values(|k: &str| k@);
    let mut i: usize = 0;
    while i < keywords.len()
        invariant
            i <= keywords@.len(),
            t@ == text@,
            ws == keywords@.map_values(|k: &str| k@),
            forall|j: int| 0 <= j < i ==> !contains_spec(text@, #[trigger] ws[j]),
        decreases keywords@.len() - i,
    {
        if contains_chars(&t, &str_chars(keywords[i])) {
            assert(contains_spec(text@, ws[i as int]));
            return true;
        }
        i += 1;
    }
    false
}

pub open spec fn screen_score(path: Seq<char>, mime: Seq<char>, t: ImageTraits) -> int {
    let p = lower_spec(path);
    (if has_any(p, screen_words()) { 5int } else { 0 }) + (if mime == "image/png"@ || mime == "image/bmp"@ || mime
        == "image/gif"@ {
        2int
    } else {
        0
    }) + (if t.looks_like_phone_screenshot { 3int } else { 0 }) + (if t.has_alpha { 1int } else { 0 }) + (if t.diversity
        is Low {
        2int
    } else {
        0
    })
}

pub open spec fn photo_score(path: Seq<char>, mime: Seq<char>, t: ImageTraits) -> int {
    let p = lower_spec(path);
    (if has_any(p, photo_words()) { 4int } else { 0 }) + (if mime == "image/jpeg"@ || mime == "image/heic"@ || mime
        == "image/heif"@ {
        2int
    } else {
        0
    }) + (if t.looks_like_camera_photo { 2int } else { 0 }) + (if t.diversity is High { 2int } else { 0 })
}

/// The kind an image is treated as, and whether that was asked for or
/// found: a mode that names a kind decides; else the screen signs must
/// weigh at least as much as the photo signs.
pub open spec fn image_kind_spec(path: Seq<char>, mime: Seq<char>, t: ImageTraits, mode: ViewImageMode) -> (
    ViewImageKind,
    Seq<char>,
) {
    match mode {
        ViewImageMode::Ui => (ViewImageKind::Ui, "手动指定"@),
        ViewImageMode::Photo => (ViewImageKind::Photo, "手动指定"@),
        _ => if screen_score(path, mime, t) >= photo_score(path, mime, t) {
            (ViewImageKind::Ui, "自动识别"@)
        } else {
            (ViewImageKind::Photo, "自动识别"@)
        },
    }
}

/// The kind of an image at `path` (as text) with this MIME type; the
/// original mode is handled before any kind is needed.
pub fn decide_view_image_kind(path: &str, original_mime: &str, traits: ImageTraits, requested_mode: ViewImageMode) -> (r:
    (ViewImageKind, &'static str))
    requires
        requested_mode != ViewImageMode::Original,
    ensures
        (r.0, r.1@) == image_kind_spec(path@, original_mime@, traits, requested_mode),
{
    match requested_mode {
        ViewImageMode::Ui => return (ViewImageKind::Ui, "手动指定"),
        ViewImageMode::Photo => return (ViewImageKind::Photo, "手动指定"),
        _ => {},
    }
    let p = chars_to_string(&lower_chars(&str_chars(path)));
    let screens: Vec<&str> = vec![
        "screenshot",
        "screen_shot",
        "screen-shot",
        "screen_capture",
        "screencap",
        "screenshots",
        "截图",
        "截屏",
        "录屏",
        "screenrecord",
        "game_space_screenshots",
    ];
    assert(screens@.map_values(|k: &str| k@) =~= screen_words());
    let photos: Vec<&str> = vec!["/dcim/", "/camera/", "/photos/", "/photo/", "camera", "相机", "照片", "相册"];
    assert(photos@.map_values(|k: &str| k@) =~= photo_words());
    let mut ui: i32 = 0;
    let mut photo: i32 = 0;
    if contains_any_keyword(p.as_str(), &screens) {
        ui += 5;
    }
    if contains_any_keyword(p.as_str(), &photos) {
        photo += 4;
    }
    let m = str_chars(original_mime);
    if crate::text::chars_eq_str(&m, "image/png") || crate::text::chars_eq_str(&m, "image/bmp")
        || crate::text::chars_eq_str(&m, "image/gif") {
        ui += 2;
    }
    if crate::text::chars_eq_str(&m, "image/jpeg") || crate::text::chars_eq_str(&m, "image/heic")
        || crate::text::chars_eq_str(&m, "image/heif") {
        photo += 2;
    }
    if traits.looks_like_phone_screenshot {
        ui += 3;
    }
    if traits.looks_like_camera_photo {
        photo += 2;
    }
    if traits.has_alpha {
        ui += 1;
    }
    match traits.diversity {
        ColorDiversity::Low => ui += 2,
        ColorDiversity::High => photo += 2,
        ColorDiversity::Mid => {},
    }
    assert(ui == screen_score(path@, original_mime@, traits));
    assert(photo == photo_score(path@, original_mime@, traits));
    if ui >= photo {
        (ViewImageKind::Ui, "自动识别")
    } else {
        (ViewImageKind::Photo, "自动识别")
    }
}

// ---------------------------------------------------------------------------
// Labels
// ---------------------------------------------------------------------------

pub open spec fn dims_human_spec(d: Option<(u32, u32)>) -> Seq<char> {
    match d {
        Some((w, h)) => dec_spec(w as nat) + "×"@ + dec_spec(h as nat),
        None => "未知"@,
    }
}

/// Dimensions for people: `{w}×{h}`, or unknown.
pub fn format_dimensions_human(dimensions: Option<(u32, u32)>) -> (r: String)
    ensures
        r@ == dims_human_spec(dimensions),
{
    match dimensions {
        Some((w, h)) => {
            let mut out: Vec<char> = Vec::new();
            push_dec(&mut out, w as u64);
            push_str(&mut out, "×");
            push_dec(&mut out, h as u64);
            chars_to_string(&out)
        },
        None => chars_to_string(&str_chars("未知")),
    }
}

pub open spec fn dims_machine_spec(d: Option<(u32, u32)>) -> Seq<char> {
    match d {
        Some((w, h)) => dec_spec(w as nat) + "x"@ + dec_spec(h as nat),
        None => "unknown"@,
    }
}

/// Dimensions for the model: `{w}x{h}`, or unknown.
pub fn format_dimensions_machine(dimensions: Option<(u32, u32)>) -> (r: String)
    ensures
        r@ == dims_machine_spec(dimensions),
{
    match dimensions {
        Some((w, h)) => {
            let mut out: Vec<char> = Vec::new();
            push_dec(&mut out, w as u64);
            push_str(&mut out, "x");
            push_dec(&mut out, h as u64);
            chars_to_string(&out)
        },
        None => chars_to_string(&str_chars("unknown")),
    }
}

pub open spec fn resize_label_spec(
    kind_label: Seq<char>,
    original: Option<(u32, u32)>,
    upload: Option<(u32, u32)>,
    encoding_label: Seq<char>,
) -> Seq<char> {
    if original == upload {
        "按 "@ + kind_label + " 策略压缩；"@ + encoding_label
    } else {
        "按 "@ + kind_label + " 策略缩放 "@ + dims_human_spec(original) + " → "@ + dims_human_spec(upload) + "；"@
            + encoding_label
    }
}

/// How an image was made ready: compressed as it was, or scaled from one
/// size to another; then how it was encoded.
pub fn build_resize_strategy_label(
    kind_label: &str,
    original_dimensions: Option<(u32, u32)>,
    upload_dimensions: Option<(u32, u32)>,
    encoding_label: &str,
) -> (r: String)
    ensures
        r@ == resize_label_spec(kind_label@, original_dimensions, upload_dimensions, encoding_label@),
{
    let same = match (original_dimensions, upload_dimensions) {
        (Some((a, b)), Some((c, d))) => a == c && b == d,
        (None, None) => true,
        _ => false,
    };
    let mut out = str_chars("按 ");
    push_str(&mut out, kind_label);
    if same {
        push_str(&mut out, " 策略压缩；");
    } else {
        push_str(&mut out, " 策略缩放 ");
        push_str(&mut out, format_dimensions_human(original_dimensions).as_str());
        push_str(&mut out, " → ");
        push_str(&mut out, format_dimensions_human(upload_dimensions).as_str());
        push_str(&mut out, "；");
    }
    push_str(&mut out, encoding_label);
    chars_to_string(&out)
}

} // verus!
