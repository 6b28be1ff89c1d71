use projectying::image_compress::{
    compression_outcome, photo_compression_step, photo_encoding_label, photo_upload_mime, start_photo_compression,
    ui_should_shrink, CompressionOutcome, PhotoAction, PhotoPhase,
};
use projectying::settings::default_view_image_settings;

#[test]
fn photo_quality_drops_then_shrinks_then_stops() {
    let s = default_view_image_settings();
    let mut c = start_photo_compression(&s, false);
    assert_eq!(c.quality, 86);
    assert_eq!(photo_compression_step(&mut c, &s, 2_000_000, 1600, 1200), PhotoAction::Encode { quality: 82 });
    assert_eq!(photo_compression_step(&mut c, &s, 2_000_000, 1600, 1200), PhotoAction::Encode { quality: 78 });
    assert_eq!(photo_compression_step(&mut c, &s, 2_000_000, 1600, 1200), PhotoAction::Encode { quality: 74 });
    assert_eq!(photo_compression_step(&mut c, &s, 2_000_000, 1600, 1200), PhotoAction::Shrink { quality: 84 });
    assert_eq!(c.phase, PhotoPhase::Resized);
    assert_eq!(photo_compression_step(&mut c, &s, 2_000_000, 1440, 1080), PhotoAction::Encode { quality: 80 });
    assert_eq!(photo_compression_step(&mut c, &s, 1_000_000, 1440, 1080), PhotoAction::Finish);
    assert_eq!(c.quality, 80);
    assert_eq!(photo_encoding_label(&c), "JPEG 质量 80");
    assert_eq!(photo_upload_mime(&c), "image/jpeg");
}

#[test]
fn photo_stops_at_the_minimum_edge() {
    let s = default_view_image_settings();
    let mut c = start_photo_compression(&s, false);
    c.quality = 74;
    assert_eq!(photo_compression_step(&mut c, &s, 2_000_000, 960, 720), PhotoAction::Finish);
}

#[test]
fn transparent_photo_only_shrinks() {
    let s = default_view_image_settings();
    let mut c = start_photo_compression(&s, true);
    assert_eq!(photo_compression_step(&mut c, &s, 2_000_000, 1600, 1600), PhotoAction::Shrink { quality: 84 });
    assert_eq!(photo_encoding_label(&c), "保留透明度并转为无损 WebP");
    assert_eq!(photo_upload_mime(&c), "image/webp");
}

#[test]
fn screenshot_shrinks_while_over_target_and_wide() {
    let s = default_view_image_settings();
    assert!(ui_should_shrink(&s, 3_000_000, 1200));
    assert!(!ui_should_shrink(&s, 3_000_000, 900));
    assert!(!ui_should_shrink(&s, 1_000_000, 1200));
}

#[test]
fn outcome_refuses_keeps_or_uses_encoding() {
    let s = default_view_image_settings();
    assert_eq!(compression_outcome(&s, 5_000_000, 100, (10, 10), Some((10, 10))), CompressionOutcome::TooLarge);
    assert_eq!(compression_outcome(&s, 2_000, 1_000, (10, 10), Some((10, 10))), CompressionOutcome::KeepOriginal);
    assert_eq!(compression_outcome(&s, 2_000, 1_000, (8, 8), Some((10, 10))), CompressionOutcome::UseEncoded);
    assert_eq!(compression_outcome(&s, 2_000, 3_000, (10, 10), Some((10, 10))), CompressionOutcome::UseEncoded);
}
