//! How an image is squeezed under the upload budget, one encoding at a
//! time: after each encoding the step here says whether to encode again at
//! a lower quality, to shrink the image and encode it, or to stop; at the
//! end it says whether the encoding, the untouched original, or a refusal
//! stands. Decoding, scaling and encoding pixels happen outside.
use vstd::prelude::*;

use crate::settings::{photo_target_spec, ui_target_spec, upload_hard_max_spec, ViewImageSettings};
use crate::text::{chars_to_string, dec_spec, push_dec, str_chars};

verus! {

/// The longest edge a photo is first scaled down to.
pub const VIEW_IMAGE_PHOTO_MAX_EDGE: u32 = 1600;

/// A photo is not shrunk once its longest edge is this short.
pub const VIEW_IMAGE_PHOTO_MIN_EDGE: u32 = 960;

/// A screenshot is not shrunk once it is this narrow.
pub const VIEW_IMAGE_UI_MIN_WIDTH: u32 = 900;

/// How much a JPEG quality drops between tries.
pub const PHOTO_QUALITY_STEP: u8 = 4;

/// Whether a photo is still at its first size or has been shrunk.
#[derive(Debug, Clone, Copy, PartialEq, Eq, Structural)]
pub enum PhotoPhase {
    FirstSize,
    Resized,
}

/// Where a photo's compression stands: its phase, the quality of its last
/// encoding, and whether it keeps transparency (and so is encoded
/// losslessly, where quality plays no part).
#[derive(Debug, Clone, Copy, PartialEq, Eq, Structural)]
pub struct PhotoCompression {
    pub phase: PhotoPhase,
    pub quality: u8,
    pub has_alpha: bool,
}

/// What to do after an encoding.
#[derive(Debug, Clone, Copy, PartialEq, Eq, Structural)]
pub enum PhotoAction {
    /// Encode the same image again at this quality.
    Encode { quality: u8 },
    /// Shrink the image to nine tenths and encode it at this quality.
    Shrink { quality: u8 },
    /// Stop: the last encoding stands.
    Finish,
}

pub open spec fn initial_quality_spec(s: ViewImageSettings) -> u8 {
    match s.quality {
        crate::settings::ImageCompressionQuality::Low => 82u8,
        crate::settings::ImageCompressionQuality::Medium => 86u8,
        crate::settings::ImageCompressionQuality::High => 90u8,
    }
}

pub open spec fn min_quality_spec(s: ViewImageSettings, phase: PhotoPhase) -> u8 {
    match (phase, s.quality) {
        (PhotoPhase::FirstSize, crate::settings::ImageCompressionQuality::Low) => 68u8,
        (PhotoPhase::FirstSize, crate::settings::ImageCompressionQuality::Medium) => 74u8,
        (PhotoPhase::FirstSize, crate::settings::ImageCompressionQuality::High) => 80u8,
        (PhotoPhase::Resized, crate::settings::ImageCompressionQuality::Low) => 64u8,
        (PhotoPhase::Resized, crate::settings::ImageCompressionQuality::Medium) => 72u8,
        (PhotoPhase::Resized, crate::settings::ImageCompressionQuality::High) => 78u8,
    }
}

pub open spec fn resized_quality_spec(s: ViewImageSettings) -> u8 {
    match s.quality {
        crate::settings::ImageCompressionQuality::Low => 78u8,
        crate::settings::ImageCompressionQuality::Medium => 84u8,
        crate::settings::ImageCompressionQuality::High => 88u8,
    }
}

/// A photo's compression before its first encoding: at its first size, at
/// the first quality of the settings.
pub fn start_photo_compression(settings: &ViewImageSettings, has_alpha: bool) -> (r: PhotoCompression)
    ensures
        r == (PhotoCompression {
            phase: PhotoPhase::FirstSize,
            quality: initial_quality_spec(*settings),
            has_alpha,
        }),
{
    PhotoCompression { phase: PhotoPhase::FirstSize, quality: settings.initial_photo_quality(), has_alpha }
}

/// The quality lowered by one step, not below zero.
pub open spec fn lowered(q: u8) -> u8 {
    if q >= PHOTO_QUALITY_STEP {
        (q - PHOTO_QUALITY_STEP) as u8
    } else {
        0
    }
}

/// The step after an encoding of `encoded_len` bytes of an image of
/// `width` by `height`: while the encoding is over the photo target, the
/// quality drops a step as long as it stays above the phase's floor (not
/// for a transparent photo); past that the image is shrunk, at the resized
/// quality, as long as its longest edge is above the minimum; else stop.
pub open spec fn photo_step_spec(
    c: PhotoCompression,
    s: ViewImageSettings,
    encoded_len: nat,
    width: u32,
    height: u32,
) -> (PhotoCompression, PhotoAction) {
    let over = encoded_len > photo_target_spec(s);
    let edge = if width >= height { width } else { height };
    if over && c.quality > min_quality_spec(s, c.phase) && !c.has_alpha {
        let q = lowered(c.quality);
        (PhotoCompression { quality: q, ..c }, PhotoAction::Encode { quality: q })
    } else if over && edge > VIEW_IMAGE_PHOTO_MIN_EDGE {
        let q = resized_quality_spec(s);
        (PhotoCompression { phase: PhotoPhase::Resized, quality: q, ..c }, PhotoAction::Shrink { quality: q })
    } else {
        (c, PhotoAction::Finish)
    }
}

/// One step of a photo's compression (see `photo_step_spec`).
pub fn photo_compression_step(
    c: &mut PhotoCompression,
    settings: &ViewImageSettings,
    encoded_len: usize,
    width: u32,
    height: u32,
) -> (r: PhotoAction)
    ensures
        (*final(c), r) == photo_step_spec(*old(c), *settings, encoded_len as nat, width, height),
{
    let over = encoded_len > settings.photo_target_bytes();
    let edge = if width >= height {
        width
    } else {
        height
    };
    let floor = match c.phase {
        PhotoPhase::FirstSize => settings.initial_photo_min_quality(),
        PhotoPhase::Resized => settings.resized_photo_min_quality(),
    };
    if over && c.quality > floor && !c.has_alpha {
        c.quality = if c.quality >= PHOTO_QUALITY_STEP {
            c.quality - PHOTO_QUALITY_STEP
        } else {
            0
        };
        PhotoAction::Encode { quality: c.quality }
    } else if over && edge > VIEW_IMAGE_PHOTO_MIN_EDGE {
        c.phase = PhotoPhase::Resized;
        c.quality = settings.resized_photo_quality();
        PhotoAction::Shrink { quality: c.quality }
    } else {
        PhotoAction::Finish
    }
}

/// Whether a screenshot encoded in `encoded_len` bytes at `width` pixels
/// across is shrunk again: while it is over the screenshot target and
/// wider than the minimum.
pub fn ui_should_shrink(settings: &ViewImageSettings, encoded_len: usize, width: u32) -> (r: bool)
    ensures
        r == (encoded_len > ui_target_spec(*settings) && width > VIEW_IMAGE_UI_MIN_WIDTH),
{
    encoded_len > settings.ui_target_bytes() && width > VIEW_IMAGE_UI_MIN_WIDTH
}

/// What stands once compression has stopped.
#[derive(Debug, Clone, Copy, PartialEq, Eq, Structural)]
pub enum CompressionOutcome {
    /// Even the last encoding is over the hard upload limit.
    TooLarge,
    /// The original is as large as the image sent and no larger than the
    /// encoding (and within the limit): it is sent untouched.
    KeepOriginal,
    /// The last encoding is sent.
    UseEncoded,
}

/// Which bytes are sent: a refusal when the encoding is over the hard
/// limit; the original when the image was not resized and the original is
/// no larger than the encoding and within the limit; else the encoding.
pub open spec fn outcome_spec(
    s: ViewImageSettings,
    encoded_len: nat,
    source_len: nat,
    upload_dimensions: (u32, u32),
    original_dimensions: Option<(u32, u32)>,
) -> CompressionOutcome {
    let hard = upload_hard_max_spec(s.upload_max_mb);
    if encoded_len > hard {
        CompressionOutcome::TooLarge
    } else if original_dimensions == Some(upload_dimensions) && source_len <= encoded_len && source_len <= hard {
        CompressionOutcome::KeepOriginal
    } else {
        CompressionOutcome::UseEncoded
    }
}

/// Which bytes are sent once compression stopped (see `outcome_spec`).
pub fn compression_outcome(
    settings: &ViewImageSettings,
    encoded_len: usize,
    source_len: usize,
    upload_dimensions: (u32, u32),
    original_dimensions: Option<(u32, u32)>,
) -> (r: CompressionOutcome)
    ensures
        r == outcome_spec(*settings, encoded_len as nat, source_len as nat, upload_dimensions, original_dimensions),
{
    let hard = settings.upload_hard_max_bytes();
    if encoded_len > hard {
        return CompressionOutcome::TooLarge;
    }
    let same = match original_dimensions {
        Some((w, h)) => w == upload_dimensions.0 && h == upload_dimensions.1,
        None => false,
    };
    if same && source_len <= encoded_len && source_len <= hard {
        CompressionOutcome::KeepOriginal
    } else {
        CompressionOutcome::UseEncoded
    }
}

/// How a photo's last encoding is named: lossless WebP for a transparent
/// photo, else JPEG at its quality.
pub open spec fn photo_encoding_label_spec(c: PhotoCompression) -> Seq<char> {
    if c.has_alpha {
        "保留透明度并转为无损 WebP"@
    } else {
        "JPEG 质量 "@ + dec_spec(c.quality as nat)
    }
}

pub fn photo_encoding_label(c: &PhotoCompression) -> (r: String)
    ensures
        r@ == photo_encoding_label_spec(*c),
{
    if c.has_alpha {
        chars_to_string(&str_chars("保留透明度并转为无损 WebP"))
    } else {
        let mut out = str_chars("JPEG 质量 ");
        push_dec(&mut out, c.quality as u64);
        chars_to_string(&out)
    }
}

/// The MIME type of a photo's last encoding.
pub fn photo_upload_mime(c: &PhotoCompression) -> (r: &'static str)
    ensures
        r@ == (if c.has_alpha { "image/webp"@ } else { "image/jpeg"@ }),
{
    if c.has_alpha {
        "image/webp"
    } else {
        "image/jpeg"
    }
}

/// Every step moves on: a new encoding is at a strictly lower quality in
/// the same phase, and a shrink happens only to an image whose longest
/// edge is above the minimum, after which the photo is in its resized
/// phase.
pub proof fn lemma_photo_step_progress(
    c: PhotoCompression,
    s: ViewImageSettings,
    encoded_len: nat,
    width: u32,
    height: u32,
)
    ensures
        ({
            let (next, action) = photo_step_spec(c, s, encoded_len, width, height);
            &&& action matches PhotoAction::Encode { quality } ==> (quality == next.quality && next.quality < c.quality
                && next.phase == c.phase)
            &&& action matches PhotoAction::Shrink { quality } ==> (quality == next.quality && next.phase
                == PhotoPhase::Resized && (width > VIEW_IMAGE_PHOTO_MIN_EDGE || height > VIEW_IMAGE_PHOTO_MIN_EDGE))
            &&& action is Finish ==> next == c
        }),
{
}

} // verus!
