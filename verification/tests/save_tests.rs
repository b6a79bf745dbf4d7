use imgforge::processing::options::SaveOptions;
use imgforge::processing::save;
use imgforge::processing::save::format_max_dimension;

#[test]
fn test_webp_save_suffix_carries_encoder_options() {
    let mut options = SaveOptions::default();
    assert_eq!(
        save::save_suffix("webp", 80, &options, None).unwrap(),
        ".webp[Q=80,keep=all]"
    );

    options.webp.lossless = Some(true);
    options.webp.smart_subsample = Some(true);
    options.webp.preset = Some("photo".to_string());
    options.strip_metadata = Some(true);
    options.strip_color_profile = Some(true);
    assert_eq!(
        save::save_suffix("webp", 90, &options, None).unwrap(),
        ".webp[Q=90,lossless,smart-subsample,preset=photo,keep=none]"
    );
}

#[test]
fn test_webp_save_suffix_carries_the_animation_frame_height() {
    let options = SaveOptions::default();
    assert_eq!(
        save::save_suffix("webp", 80, &options, Some(40)).unwrap(),
        ".webp[Q=80,page-height=40,keep=all]"
    );

    assert_eq!(
        save::save_suffix("jpeg", 80, &options, Some(40)).unwrap(),
        ".jpg[Q=80,optimize-coding,quant-table=0,subsample-mode=auto,keep=all]"
    );
}

#[test]
fn test_webp_save_suffix_clamps_quality() {
    let options = SaveOptions::default();
    assert_eq!(
        save::save_suffix("webp", 0, &options, None).unwrap(),
        ".webp[Q=1,keep=all]"
    );
}

#[test]
fn test_webp_save_suffix_drops_unknown_preset() {
    let mut options = SaveOptions::default();
    options.webp.preset = Some("photo],lossless".to_string());
    assert_eq!(
        save::save_suffix("webp", 75, &options, None).unwrap(),
        ".webp[Q=75,keep=all]"
    );
}

#[test]
fn test_heif_save_suffix_carries_encoder_options() {
    let mut options = SaveOptions::default();
    assert_eq!(
        save::save_suffix("avif", 80, &options, None).unwrap(),
        ".avif[Q=80,compression=av1,effort=7,subsample-mode=auto,keep=all]"
    );

    options.avif.no_subsample = Some(true);
    options.strip_metadata = Some(true);
    options.strip_color_profile = Some(true);
    assert_eq!(
        save::save_suffix("heif", 100, &options, None).unwrap(),
        ".heif[Q=100,compression=hevc,effort=9,subsample-mode=off,keep=none]"
    );
}

#[test]
fn test_gif_save_suffix_carries_encoder_options() {
    let options = SaveOptions::default();
    assert_eq!(
        save::save_suffix("gif", 50, &options, None).unwrap(),
        ".gif[effort=5,keep=all]"
    );
    assert_eq!(
        save::save_suffix("gif", 1, &options, None).unwrap(),
        ".gif[effort=1,keep=all]"
    );
}

#[test]
fn format_ceilings_match_the_encoders_own_limits() {
    assert_eq!(format_max_dimension("jpeg"), Some(65_500));
    assert_eq!(format_max_dimension("jpg"), Some(65_500), "the alias shares the limit");
    assert_eq!(format_max_dimension("gif"), Some(65_535));
    assert_eq!(format_max_dimension("webp"), Some(16_383));
    assert_eq!(format_max_dimension("avif"), Some(16_384));
    assert_eq!(format_max_dimension("heif"), Some(16_384));
    assert_eq!(format_max_dimension("png"), None);
    assert_eq!(format_max_dimension("tiff"), None);
}
