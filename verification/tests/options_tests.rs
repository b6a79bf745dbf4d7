use imgforge::limits::{MaxResultDimension, MaxSourceFileSize, MaxSourceResolution};
use imgforge::numbers::Fixed;
use imgforge::processing::options::{
    parse_all_options, GravityType, OptionParseError, ProcessingOption, ResizingType,
    WatermarkPosition,
};
use imgforge::processing::presets::parse_options_string;

fn option(name: &str, args: &[&str]) -> ProcessingOption {
    ProcessingOption {
        name: name.to_string(),
        args: args.iter().map(|a| a.to_string()).collect(),
    }
}

fn one(name: &str, args: &[&str]) -> Vec<ProcessingOption> {
    vec![option(name, args)]
}

fn decimal(nanos: i64) -> Fixed {
    Fixed { nanos }
}

fn whole(n: i64) -> Fixed {
    decimal(n * 1_000_000_000)
}

#[test]
fn test_parse_all_options_empty() {
    let parsed = parse_all_options(vec![]).unwrap();
    assert!(parsed.resize.is_none());
    assert!(parsed.blur.is_none());
    assert!(parsed.crop.is_none());
}

#[test]
fn test_parse_resize_option() {
    let parsed = parse_all_options(one("resize", &["fill", "300", "200"])).unwrap();
    let resize = parsed.resize.unwrap();
    assert_eq!(resize.resizing_type, ResizingType::Fill);
    assert_eq!(resize.width, 300);
    assert_eq!(resize.height, 200);
}

#[test]
fn test_parse_quality_option() {
    let parsed = parse_all_options(one("quality", &["90"])).unwrap();
    assert_eq!(parsed.quality, Some(90));
}

#[test]
fn test_parse_blur_option() {
    let parsed = parse_all_options(one("blur", &["5"])).unwrap();
    assert_eq!(parsed.blur, Some(whole(5)));
}

#[test]
fn test_parse_blur_option_rejects_non_positive_value() {
    let err = parse_all_options(one("blur", &["0"])).unwrap_err();
    assert!(err.message().contains("blur must be a finite positive number"), "{}", err.message());
}

#[test]
fn test_parse_background_option() {
    let parsed = parse_all_options(one("background", &["ff0000"])).unwrap();
    assert_eq!(parsed.background, Some([255, 0, 0, 255]));
}

#[test]
fn test_parse_background_rgb_and_alpha_options() {
    let options = vec![option("background_alpha", &["0.5"]), option("bg", &["10", "20", "30"])];
    let parsed = parse_all_options(options).unwrap();
    assert_eq!(parsed.background, Some([10, 20, 30, 128]));
}

#[test]
fn test_parse_padding_option() {
    let parsed = parse_all_options(one("padding", &["10", "20"])).unwrap();
    assert_eq!(parsed.padding, Some((10, 20, 10, 20)));
}

#[test]
fn test_parse_rotation_option() {
    let parsed = parse_all_options(one("rotate", &["90"])).unwrap();
    assert_eq!(parsed.rotation, Some(90));
}

#[test]
fn test_parse_rotation_option_rejects_unsupported_angle() {
    let err = parse_all_options(one("rotate", &["45"])).unwrap_err();
    assert!(err.message().contains("rotation must be one of"), "{}", err.message());
}

#[test]
fn test_parse_enlarge_option() {
    let parsed = parse_all_options(one("enlarge", &["true"])).unwrap();
    assert!(parsed.enlarge);
}

#[test]
fn test_parse_extend_option() {
    let parsed = parse_all_options(one("extend", &["1"])).unwrap();
    assert!(parsed.extend.enabled);
}

#[test]
fn test_parse_gravity_option() {
    let parsed = parse_all_options(one("gravity", &["no"])).unwrap();
    assert_eq!(parsed.gravity.unwrap().kind, GravityType::North);
}

#[test]
fn test_parse_imgproxy_gravity_alias() {
    let parsed = parse_all_options(one("g", &["soea"])).unwrap();
    assert_eq!(parsed.gravity.unwrap().kind, GravityType::SouthEast);
}

#[test]
fn test_parse_gravity_option_rejects_invalid_value() {
    let err = parse_all_options(one("gravity", &["center"])).unwrap_err();
    assert!(err.message().contains("gravity must be one of"), "{}", err.message());
}

#[test]
fn test_parse_crop_option() {
    let parsed = parse_all_options(one("crop", &["100", "150", "soea"])).unwrap();
    let crop = parsed.crop.unwrap();
    assert_eq!(crop.width, whole(100));
    assert_eq!(crop.height, whole(150));
    assert_eq!(crop.gravity.unwrap().kind, GravityType::SouthEast);
}

#[test]
fn test_parse_crop_short_option() {
    let parsed = parse_all_options(one("c", &["3", "4"])).unwrap();
    assert!(parsed.crop.is_some());
}

#[test]
fn test_parse_format_option() {
    let parsed = parse_all_options(one("format", &["webp"])).unwrap();
    assert_eq!(parsed.format, Some("webp".to_string()));
}

#[test]
fn test_parse_format_aliases() {
    for name in ["f", "ext"] {
        let parsed = parse_all_options(one(name, &["webp"])).unwrap();
        assert_eq!(parsed.format, Some("webp".to_string()));
    }
}

#[test]
fn test_parse_dpr_option() {
    let parsed = parse_all_options(one("dpr", &["2.5"])).unwrap();
    assert_eq!(parsed.dpr, Some(decimal(2_500_000_000)));
}

#[test]
fn test_parse_auto_rotate_option() {
    let parsed = parse_all_options(one("auto_rotate", &["false"])).unwrap();
    assert!(!parsed.auto_rotate);
}

#[test]
fn test_parse_raw_option() {
    let parsed = parse_all_options(one("raw", &[])).unwrap();
    assert!(parsed.raw);
}

#[test]
fn test_parse_max_src_resolution_option() {
    let parsed = parse_all_options(one("max_src_resolution", &["10.5"])).unwrap();
    assert_eq!(parsed.max_src_resolution.map(MaxSourceResolution::pixels), Some(10_500_000));
}

#[test]
fn test_parse_max_result_dimension_option() {
    for name in ["max_result_dimension", "mrd"] {
        let parsed = parse_all_options(one(name, &["2048"])).unwrap();
        assert_eq!(
            parsed.max_result_dimension.map(MaxResultDimension::get),
            Some(2048),
            "{name} did not parse"
        );
    }
}

#[test]
fn test_parse_max_result_dimension_rejects_invalid_limits() {
    for value in ["0", "-1", "abc", "1.5"] {
        assert!(
            parse_all_options(one("max_result_dimension", &[value])).is_err(),
            "accepted invalid max_result_dimension {value}"
        );
    }
}

#[test]
fn test_parse_max_src_file_size_option() {
    let parsed = parse_all_options(one("max_src_file_size", &["1024"])).unwrap();
    assert_eq!(parsed.max_src_file_size.map(MaxSourceFileSize::get), Some(1024));
}

#[test]
fn test_parse_max_src_resolution_rejects_invalid_limits() {
    for value in ["invalid", "NaN", "inf", "0", "-1"] {
        assert!(
            matches!(
                parse_all_options(one("max_src_resolution", &[value])),
                Err(OptionParseError::SecurityLimit { ref option, .. }) if option == "max_src_resolution"
            ),
            "accepted {value}"
        );
    }
}

#[test]
fn test_parse_max_src_file_size_rejects_invalid_limits() {
    for value in ["invalid", "0", "-1"] {
        assert!(
            matches!(
                parse_all_options(one("max_src_file_size", &[value])),
                Err(OptionParseError::SecurityLimit { ref option, .. }) if option == "max_src_file_size"
            ),
            "accepted {value}"
        );
    }
}

#[test]
fn test_parse_cachebuster_option() {
    let parsed = parse_all_options(one("cachebuster", &["12345"])).unwrap();
    assert_eq!(parsed.cache_buster, Some("12345".to_string()));
}

#[test]
fn test_parse_cachebuster_short_option() {
    let parsed = parse_all_options(one("cb", &["v2"])).unwrap();
    assert_eq!(parsed.cache_buster, Some("v2".to_string()));
}

#[test]
fn test_parse_min_width_option() {
    let parsed = parse_all_options(one("min-width", &["500"])).unwrap();
    assert_eq!(parsed.min_width, Some(500));
}

#[test]
fn test_parse_min_height_option() {
    let parsed = parse_all_options(one("min-height", &["600"])).unwrap();
    assert_eq!(parsed.min_height, Some(600));
}

#[test]
fn test_parse_zoom_option() {
    let parsed = parse_all_options(one("zoom", &["1.5"])).unwrap();
    let zoom = parsed.zoom.unwrap();
    assert_eq!(zoom.x, decimal(1_500_000_000));
    assert_eq!(zoom.y, decimal(1_500_000_000));
}

#[test]
fn test_parse_zoom_option_rejects_non_positive_value() {
    let err = parse_all_options(one("zoom", &["0"])).unwrap_err();
    assert!(err.message().contains("zoom must be a finite positive number"), "{}", err.message());
}

#[test]
fn test_parse_sharpen_option() {
    let parsed = parse_all_options(one("sharpen", &["0.5"])).unwrap();
    assert_eq!(parsed.sharpen, Some(decimal(500_000_000)));
}

#[test]
fn test_parse_sharpen_option_rejects_nan() {
    let err = parse_all_options(one("sharpen", &["NaN"])).unwrap_err();
    assert!(err.message().contains("sharpen must be a finite positive number"), "{}", err.message());
}

#[test]
fn test_parse_pixelate_option() {
    let parsed = parse_all_options(one("pixelate", &["10"])).unwrap();
    assert_eq!(parsed.pixelate, Some(10));
}

#[test]
fn test_parse_pixelate_short_option() {
    let parsed = parse_all_options(one("pix", &["10"])).unwrap();
    assert_eq!(parsed.pixelate, Some(10));
}

#[test]
fn test_parse_flip_option() {
    let parsed = parse_all_options(one("fl", &["true", "1"])).unwrap();
    let flip = parsed.flip.unwrap();
    assert!(flip.horizontal);
    assert!(flip.vertical);
}

#[test]
fn test_parse_adjust_meta_option() {
    let parsed = parse_all_options(one("adjust", &["10", "1.2", "0.8"])).unwrap();
    let adjust = parsed.adjust.unwrap();
    assert_eq!(adjust.brightness, 10);
    assert_eq!(adjust.contrast, decimal(1_200_000_000));
    assert_eq!(adjust.saturation, decimal(800_000_000));
}

#[test]
fn test_parse_format_quality_option() {
    let parsed = parse_all_options(one("fq", &["webp", "80", "jpeg", "90"])).unwrap();
    assert_eq!(parsed.save.format_quality.get("webp"), Some(&80));
    assert_eq!(parsed.save.format_quality.get("jpeg"), Some(&90));
}

#[test]
fn test_parse_encoder_options() {
    let options = vec![
        option("jpgo", &["true", "true", "true", "false", "true", "2"]),
        option("pngo", &["true", "true", "128"]),
        option("webpo", &["true", "true", "photo"]),
        option("avifo", &["true"]),
    ];
    let parsed = parse_all_options(options).unwrap();
    assert_eq!(parsed.save.jpeg.progressive, Some(true));
    assert_eq!(parsed.save.jpeg.no_subsample, Some(true));
    assert_eq!(parsed.save.jpeg.quant_table, Some(2));
    assert_eq!(parsed.save.png.interlaced, Some(true));
    assert_eq!(parsed.save.png.quantization_colors, Some(128));
    assert_eq!(parsed.save.webp.lossless, Some(true));
    assert_eq!(parsed.save.webp.preset.as_deref(), Some("photo"));
    assert_eq!(parsed.save.avif.no_subsample, Some(true));
}

#[test]
fn test_parse_response_and_pagination_options() {
    // "image out.jpg" in URL-safe Base64 without padding.
    let options = vec![
        option("expires", &["1893456000"]),
        option("fn", &["aW1hZ2Ugb3V0LmpwZw", "true"]),
        option("att", &["true"]),
        option("pg", &["2"]),
        option("pgs", &["3"]),
        option("da", &["true"]),
        option("skp", &["jpg", "png"]),
    ];
    let parsed = parse_all_options(options).unwrap();
    assert_eq!(parsed.expires, Some(1_893_456_000));
    assert_eq!(parsed.filename.as_deref(), Some("image out.jpg"));
    assert!(parsed.return_attachment);
    assert_eq!(parsed.page, Some(2));
    assert_eq!(parsed.pages, Some(3));
    assert!(parsed.disable_animation);
    assert_eq!(parsed.skip_processing, vec!["jpg".to_string(), "png".to_string()]);
}

#[test]
fn test_parse_watermark_option() {
    let parsed = parse_all_options(one("watermark", &["0.5", "ce"])).unwrap();
    let watermark = parsed.watermark.unwrap();
    assert_eq!(watermark.opacity, decimal(500_000_000));
    assert_eq!(watermark.position, WatermarkPosition::Anchor(GravityType::Center));
}

#[test]
fn test_parse_resize_type_only() {
    let parsed = parse_all_options(one("resize", &["fill"])).unwrap();
    let resize = parsed.resize.unwrap();
    assert_eq!(resize.resizing_type, ResizingType::Fill);
    assert_eq!(resize.width, 0);
    assert_eq!(resize.height, 0);
}

#[test]
fn test_parse_resizing_type_accepts_supported_values() {
    for (value, expected) in [
        ("fill", ResizingType::Fill),
        ("fit", ResizingType::Fit),
        ("force", ResizingType::Force),
        ("auto", ResizingType::Auto),
    ] {
        let parsed = parse_all_options(one("resizing_type", &[value])).expect("supported resizing type");
        assert_eq!(parsed.resize.unwrap().resizing_type, expected);
    }
}

#[test]
fn test_parse_resizing_type_rejects_missing_or_empty_argument() {
    assert!(parse_all_options(one("resizing_type", &[])).is_err());
    assert!(parse_all_options(one("resizing_type", &[""])).is_err());
}

#[test]
fn test_parse_resizing_type_rejects_unsupported_value() {
    assert!(matches!(
        parse_all_options(one("resizing_type", &["bogus"])),
        Err(OptionParseError::InvalidValue(ref message))
            if message.contains("resizing_type must be one of")
    ));
}

#[test]
fn test_parse_resizing_type_from_malformed_preset_returns_error() {
    let options = parse_options_string("resizing_type").expect("preset syntax parses");
    assert!(matches!(
        parse_all_options(options),
        Err(OptionParseError::InvalidValue(ref message))
            if message.contains("resizing_type option requires one argument")
    ));
}

#[test]
fn test_parse_resize_meta_enlarge_extend() {
    let parsed = parse_all_options(one("resize", &["fit", "640", "480", "true", "true"])).unwrap();
    let resize = parsed.resize.unwrap();
    assert_eq!(resize.resizing_type, ResizingType::Fit);
    assert_eq!(resize.width, 640);
    assert_eq!(resize.height, 480);
    assert!(parsed.enlarge);
    assert!(parsed.extend.enabled);
}

#[test]
fn test_parse_resize_invalid_width() {
    assert!(matches!(
        parse_all_options(one("resize", &["fill", "abc", "200"])),
        Err(OptionParseError::Integer { ref option, ref value, .. })
            if option == "resize width" && value == "abc"
    ));
}

#[test]
fn test_parse_background_invalid_hex() {
    assert!(parse_all_options(one("background", &["gggggg"])).is_err());
}

#[test]
fn test_parse_background_short_hex() {
    assert!(parse_all_options(one("background", &["fff"])).is_err());
}

#[test]
fn test_parse_quality_clamping() {
    let parsed = parse_all_options(one("quality", &["150"])).unwrap();
    assert_eq!(parsed.quality, Some(100));
}

#[test]
fn test_parse_quality_zero() {
    let parsed = parse_all_options(one("quality", &["0"])).unwrap();
    assert_eq!(parsed.quality, Some(1));
}

#[test]
fn test_parse_dpr_out_of_range() {
    assert!(parse_all_options(one("dpr", &["10.0"])).is_err());
}

#[test]
fn test_parse_dpr_below_minimum() {
    assert!(parse_all_options(one("dpr", &["0.5"])).is_err());
}

#[test]
fn test_parse_crop_invalid_args() {
    assert!(parse_all_options(one("crop", &["10"])).is_err());
}

#[test]
fn test_parse_padding_invalid_count() {
    assert!(parse_all_options(one("padding", &["10", "20", "30"])).is_err());
}

#[test]
fn a_later_directive_overrides_an_earlier_one() {
    let parsed = parse_all_options(vec![option("quality", &["40"]), option("q", &["70"])]).unwrap();
    assert_eq!(parsed.quality, Some(70));
}

#[test]
fn an_unknown_directive_is_ignored() {
    let with = parse_all_options(vec![option("quality", &["40"]), option("bogus_directive", &["x"])]).unwrap();
    assert_eq!(with.quality, Some(40));
}

#[test]
fn a_width_alone_asks_for_a_fit() {
    let parsed = parse_all_options(one("width", &["300"])).unwrap();
    let resize = parsed.resize.unwrap();
    assert_eq!(resize.resizing_type, ResizingType::Fit);
    assert_eq!((resize.width, resize.height), (300, 0));
}

#[test]
fn integer_errors_quote_the_value() {
    let err = parse_all_options(one("quality", &["a\"b"])).unwrap_err();
    assert_eq!(err.message(), "invalid quality value \"a\\\"b\"");
}

#[test]
fn test_parse_resize_short() {
    let parsed = parse_all_options(one("rs", &["fill", "300", "200"])).unwrap();
    assert!(parsed.resize.is_some());
}

#[test]
fn test_parse_quality_short() {
    let parsed = parse_all_options(one("q", &["80"])).unwrap();
    assert_eq!(parsed.quality, Some(80));
}

#[test]
fn test_parse_blur_short() {
    let parsed = parse_all_options(one("bl", &["3.5"])).unwrap();
    assert_eq!(parsed.blur, Some(decimal(3_500_000_000)));
}

#[test]
fn test_parse_multiple_options() {
    let options = vec![
        option("resize", &["fill", "300", "200"]),
        option("quality", &["90"]),
        option("blur", &["2.0"]),
        option("format", &["webp"]),
    ];
    let parsed = parse_all_options(options).unwrap();
    assert!(parsed.resize.is_some());
    assert_eq!(parsed.quality, Some(90));
    assert_eq!(parsed.blur, Some(whole(2)));
    assert_eq!(parsed.format, Some("webp".to_string()));
}

#[test]
fn test_parse_size_option() {
    let parsed = parse_all_options(one("size", &["640", "480"])).unwrap();
    let resize = parsed.resize.unwrap();
    assert_eq!(resize.resizing_type, ResizingType::Fit);
    assert_eq!(resize.width, 640);
    assert_eq!(resize.height, 480);
}

#[test]
fn test_parse_size_short() {
    let parsed = parse_all_options(one("s", &["800", "600"])).unwrap();
    assert!(parsed.resize.is_some());
}

#[test]
fn test_parse_size_meta_full() {
    let parsed = parse_all_options(one("size", &["320", "240", "true", "true"])).unwrap();
    let resize = parsed.resize.unwrap();
    assert_eq!(resize.resizing_type, ResizingType::Fit);
    assert_eq!(resize.width, 320);
    assert_eq!(resize.height, 240);
    assert!(parsed.enlarge);
    assert!(parsed.extend.enabled);
}

#[test]
fn test_parse_size_short_alias_s() {
    let parsed = parse_all_options(one("s", &["1024", "", "true", "true"])).unwrap();
    let resize = parsed.resize.unwrap();
    assert_eq!(resize.resizing_type, ResizingType::Fit);
    assert_eq!(resize.width, 1024);
    assert_eq!(resize.height, 0);
    assert!(parsed.extend.enabled);
    assert!(parsed.enlarge);
}

#[test]
fn test_parse_width_default_zero() {
    let parsed = parse_all_options(one("width", &[])).unwrap();
    assert_eq!(parsed.width, Some(0));
    let resize = parsed.resize.unwrap();
    assert_eq!(resize.resizing_type, ResizingType::Fit);
    assert_eq!(resize.width, 0);
    assert_eq!(resize.height, 0);
}

#[test]
fn test_parse_width_blank_argument() {
    let parsed = parse_all_options(one("width", &[""])).unwrap();
    assert_eq!(parsed.width, Some(0));
}

#[test]
fn test_parse_width_short_blank_defaults() {
    let parsed = parse_all_options(one("w", &[])).unwrap();
    assert_eq!(parsed.width, Some(0));
}

#[test]
fn test_parse_height_default_zero() {
    let parsed = parse_all_options(one("height", &[])).unwrap();
    assert_eq!(parsed.height, Some(0));
}

#[test]
fn test_parse_height_blank_argument() {
    let parsed = parse_all_options(one("h", &[""])).unwrap();
    assert_eq!(parsed.height, Some(0));
}

#[test]
fn test_parse_resizing_algorithm_full() {
    let parsed = parse_all_options(one("resizing_algorithm", &["cubic"])).unwrap();
    assert_eq!(parsed.resizing_algorithm, Some("cubic".to_string()));
}

#[test]
fn test_parse_resizing_algorithm_short() {
    let parsed = parse_all_options(one("ra", &["linear"])).unwrap();
    assert_eq!(parsed.resizing_algorithm, Some("linear".to_string()));
}

#[test]
fn test_parse_resizing_algorithm_case_insensitive() {
    let parsed = parse_all_options(one("ra", &["LANCZOS3"])).unwrap();
    assert_eq!(parsed.resizing_algorithm, Some("lanczos3".to_string()));
}

#[test]
fn test_parse_resizing_algorithm_invalid() {
    let result = parse_all_options(one("resizing_algorithm", &["invalid"]));
    assert!(result.is_err());
}

#[test]
fn test_parse_size_meta_enlarge_only() {
    let parsed = parse_all_options(one("size", &["", "", "true"])).unwrap();
    assert!(parsed.resize.is_none());
    assert!(parsed.enlarge);
    assert!(!parsed.extend.enabled);
}

#[test]
fn test_parse_resize_meta_enlarge_only() {
    let parsed = parse_all_options(one("resize", &["", "", "", "true"])).unwrap();
    assert!(parsed.resize.is_none());
    assert!(parsed.enlarge);
    assert!(!parsed.extend.enabled);
}

#[test]
fn test_imgforge_only_spellings_are_not_accepted() {
    let parsed = parse_all_options(vec![
        option("cache_buster", &["legacy"]),
        option("min_width", &["500"]),
        option("min_height", &["600"]),
        option("px", &["10"]),
        option("sz", &["300", "200"]),
    ])
    .unwrap();

    assert_eq!(parsed.cache_buster, None);
    assert_eq!(parsed.min_width, None);
    assert_eq!(parsed.min_height, None);
    assert_eq!(parsed.pixelate, None);
    assert!(parsed.resize.is_none());
}

#[test]
fn refusals_carry_their_exact_messages() {
    let message = |options: Vec<ProcessingOption>| parse_all_options(options).unwrap_err().message();
    assert_eq!(
        message(one("resizing_algorithm", &["Bicubic"])),
        "Invalid resizing algorithm: bicubic. Must be one of: nearest, linear, cubic, lanczos2, lanczos3"
    );
    assert_eq!(message(one("padding", &["4", "x", "y"])), "invalid padding value \"x\"");
    assert_eq!(message(one("blur", &[])), "blur option requires one argument: sigma");
    assert_eq!(message(one("pages", &["0"])), "pages must be greater than zero");
    assert_eq!(message(one("extend", &["1", "sm"])), "extend gravity cannot be sm: it positions the image on a larger canvas, which has no content to choose from");
    assert!(message(one("max_src_file_size", &["lots"])).starts_with("invalid max_src_file_size: "));
}
