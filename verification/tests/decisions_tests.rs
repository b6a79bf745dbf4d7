use imgforge::processing::animation::join_height;
use imgforge::processing::transform::TransformError;
use imgforge::handlers::{bearer_permitted, bearer_token};
use imgforge::fetch::{admit_chunk, check_advertised_length, check_status, initial_buffer_capacity, FetchError};
use imgforge::handlers::{debug_header_values, error_body, is_not_modified};
use imgforge::middleware::effective_rate_limit;
use imgforge::numbers::Fixed;
use imgforge::processing::colorspace::{processing_interpretation, result_needs_srgb, Interpretation};
use imgforge::processing::options::{parse_all_options, ParsedOptions, ProcessingOption, Resize, ResizingType};
use imgforge::processing::pipeline::{frame_steps, FrameStep};
use imgforge::processing::scale_on_load::{load_shrink_factor, load_shrink_ratio};
use imgforge::processing::{apply_dpr, enforce_frame_limit, enforce_result_dimension, output_plan, ProcessingError};

fn option(name: &str, args: &[&str]) -> ProcessingOption {
    ProcessingOption {
        name: name.to_string(),
        args: args.iter().map(|a| a.to_string()).collect(),
    }
}

fn parsed(options: &[(&str, &[&str])]) -> ParsedOptions {
    parse_all_options(options.iter().map(|(n, a)| option(n, a)).collect()).expect("options parse")
}

#[test]
fn the_buffer_reserves_the_tightest_known_bound() {
    assert_eq!(initial_buffer_capacity(Some(100), Some(50)), 50);
    assert_eq!(initial_buffer_capacity(Some(100), None), 100);
    assert_eq!(initial_buffer_capacity(None, Some(10)), 10);
    assert_eq!(initial_buffer_capacity(None, Some(1 << 30)), 64 * 1024);
    assert_eq!(initial_buffer_capacity(None, None), 0);
}

#[test]
fn an_error_status_is_not_an_image() {
    assert!(check_status(200).is_ok());
    assert!(check_status(299).is_ok());
    assert!(matches!(check_status(404), Err(FetchError::UpstreamStatus { status: 404 })));
    assert!(matches!(check_status(199), Err(FetchError::UpstreamStatus { status: 199 })));
}

#[test]
fn an_advertised_length_over_the_limit_is_refused_up_front() {
    assert!(check_advertised_length(Some(10), Some(10)).is_ok());
    assert!(check_advertised_length(None, Some(10)).is_ok());
    assert!(matches!(
        check_advertised_length(Some(10), Some(11)),
        Err(FetchError::SourceTooLarge { limit: 10, actual: Some(11) })
    ));
}

#[test]
fn chunks_are_admitted_until_the_limit() {
    assert_eq!(admit_chunk(4, 6, Some(10)).unwrap(), 10);
    assert!(matches!(
        admit_chunk(4, 7, Some(10)),
        Err(FetchError::SourceTooLarge { limit: 10, actual: Some(11) })
    ));
    assert!(matches!(
        admit_chunk(usize::MAX, 1, Some(10)),
        Err(FetchError::SourceTooLarge { limit: 10, actual: None })
    ));
    assert_eq!(admit_chunk(4, 7, None).unwrap(), 11);
}

#[test]
fn unmeasured_debug_sizes_are_left_out() {
    assert_eq!(
        debug_header_values(0, 0, 0, 320, 240),
        vec![("x-result-width", 320), ("x-result-height", 240)]
    );
    assert_eq!(debug_header_values(10, 1, 2, 3, 4).len(), 5);
}

#[test]
fn if_none_match_takes_precedence_when_the_request_carries_it() {
    assert!(is_not_modified(true, true, true, false, false));
    assert!(!is_not_modified(true, false, true, true, true));
    assert!(is_not_modified(true, false, false, true, true));
    assert!(is_not_modified(false, false, false, true, true));
    assert!(!is_not_modified(false, false, true, true, true));
}

#[test]
fn development_mode_adds_the_cause() {
    assert_eq!(error_body("Bad request", "Parse", false), "Bad request");
    assert_eq!(error_body("Bad request", "Parse", true), "Bad request\n\nParse");
}

#[test]
fn a_zero_rate_limit_disables_limiting() {
    assert_eq!(effective_rate_limit(Some(60)), Some(60));
    assert_eq!(effective_rate_limit(Some(0)), None);
    assert_eq!(effective_rate_limit(None), None);
}

#[test]
fn colourspaces_are_chosen_for_the_output() {
    assert_eq!(processing_interpretation(None, false), Interpretation::Srgb);
    assert_eq!(processing_interpretation(Some(Interpretation::Rgb16), false), Interpretation::Srgb);
    assert_eq!(processing_interpretation(Some(Interpretation::Rgb16), true), Interpretation::Rgb16);
    assert_eq!(processing_interpretation(Some(Interpretation::Grey16), false), Interpretation::BW);
    assert_eq!(processing_interpretation(Some(Interpretation::Other), true), Interpretation::Rgb16);
    assert_eq!(processing_interpretation(Some(Interpretation::Other), false), Interpretation::Srgb);
    assert!(!result_needs_srgb(Some(Interpretation::Other), true));
    assert!(!result_needs_srgb(Some(Interpretation::BW), false));
    assert!(result_needs_srgb(Some(Interpretation::Rgb16), false));
    assert!(result_needs_srgb(None, false));
}

#[test]
fn dpr_scales_the_resize_target_and_the_padding() {
    let mut options = parsed(&[("resize", &["fit", "101", "50"]), ("padding", &["10"]), ("dpr", &["1.5"])]);
    apply_dpr(&mut options);
    let resize = options.resize.unwrap();
    assert_eq!((resize.width, resize.height), (152, 75));
    assert_eq!(options.padding, Some((15, 15, 15, 15)));

    let mut unscaled = parsed(&[("resize", &["fit", "101", "50"])]);
    apply_dpr(&mut unscaled);
    assert_eq!(unscaled.resize.unwrap().width, 101);
}

#[test]
fn a_frame_over_the_limit_is_refused_only_for_animations() {
    let options = parsed(&[("max_animation_frame_resolution", &["0.01"])]);
    assert!(enforce_frame_limit(&options, 1, Some((200, 200)), false).is_ok());
    assert!(matches!(
        enforce_frame_limit(&options, 1, Some((200, 200)), true),
        Err(ProcessingError::FrameTooLarge { width: 200, height: 200, limit: 10_000 })
    ));
    assert!(matches!(
        enforce_frame_limit(&options, 3, Some((101, 100)), false),
        Err(ProcessingError::FrameTooLarge { .. })
    ));
    assert!(enforce_frame_limit(&options, 3, Some((100, 100)), false).is_ok());
    assert!(enforce_frame_limit(&ParsedOptions::default(), 3, Some((5000, 5000)), true).is_ok());
}

#[test]
fn the_result_ceiling_bounds_the_larger_side() {
    let options = parsed(&[("max_result_dimension", &["1000"])]);
    assert!(enforce_result_dimension(&options, 1000, 800).is_ok());
    assert!(matches!(
        enforce_result_dimension(&options, 800, 1001),
        Err(ProcessingError::ResultTooLarge { width: 800, height: 1001, limit: 1000 })
    ));
    assert!(enforce_result_dimension(&ParsedOptions::default(), 99_999, 99_999).is_ok());
}

#[test]
fn the_output_plan_follows_the_format() {
    let plan = output_plan(&ParsedOptions::default());
    assert_eq!(plan.format, "jpeg");
    assert_eq!(plan.quality, 85);
    assert!(!plan.keep_page_height);

    let options = parsed(&[("format", &["webp"]), ("background", &["ff0000"]), ("format_quality", &["webp", "70"])]);
    let plan = output_plan(&options);
    assert_eq!(plan.format, "webp");
    assert_eq!(plan.quality, 70);
    assert_eq!(plan.flatten_onto, None);
    assert!(plan.keep_page_height);

    let options = parsed(&[("format", &["jpg"]), ("background", &["00ff00"]), ("quality", &["60"])]);
    let plan = output_plan(&options);
    assert_eq!(plan.quality, 60);
    assert_eq!(plan.flatten_onto, Some([0, 255, 0, 255]));
}

#[test]
fn frame_steps_run_in_the_documented_order() {
    let options = parsed(&[
        ("blur", &["2"]),
        ("rotate", &["90"]),
        ("crop", &["100", "100"]),
        ("trim", &["10"]),
        ("resize", &["fill", "50", "50"]),
        ("extend", &["1"]),
    ]);
    let steps = frame_steps(&options, false);
    let names: Vec<&str> = steps
        .iter()
        .map(|s| match s {
            FrameStep::Trim(_) => "trim",
            FrameStep::Crop(..) => "crop",
            FrameStep::Resize { .. } => "resize",
            FrameStep::Extend { .. } => "extend",
            FrameStep::ExtendAspectRatio { .. } => "extend_ar",
            FrameStep::Rotate(_) => "rotate",
            FrameStep::Blur(_) => "blur",
            _ => "other",
        })
        .collect();
    assert_eq!(names, vec!["trim", "crop", "resize", "extend", "rotate", "blur"]);
}

#[test]
fn force_is_never_extended_to_an_aspect_ratio() {
    let options = parsed(&[("resize", &["force", "50", "50"]), ("extend_aspect_ratio", &["1"])]);
    let steps = frame_steps(&options, false);
    assert!(!steps.iter().any(|s| matches!(s, FrameStep::ExtendAspectRatio { .. })));

    let options = parsed(&[("resize", &["fit", "50", "50"]), ("extend_aspect_ratio", &["1"])]);
    let steps = frame_steps(&options, false);
    assert!(steps.iter().any(|s| matches!(s, FrameStep::ExtendAspectRatio { .. })));
}

#[test]
fn the_watermark_needs_an_image_to_overlay() {
    let options = parsed(&[("watermark", &["0.5"])]);
    assert!(!frame_steps(&options, false).iter().any(|s| matches!(s, FrameStep::Watermark(_))));
    assert!(frame_steps(&options, true).iter().any(|s| matches!(s, FrameStep::Watermark(_))));
}

#[test]
fn the_load_shrink_is_a_power_of_two_that_never_undershoots() {
    let options = parsed(&[("resize", &["fit", "450", "0"])]);
    assert_eq!(load_shrink_factor(&options, 9000, 7000), 8);
    assert_eq!(load_shrink_factor(&options, 1800, 1000), 4);
    assert_eq!(load_shrink_factor(&options, 1799, 1000), 2);
    assert_eq!(load_shrink_factor(&options, 600, 400), 1);

    let ratio = load_shrink_ratio(&options, 1800, 1000).unwrap();
    assert_eq!(ratio.available, 1800);
    assert_eq!(ratio.target, 450 * 1_000_000_000_000_000_000);
}

#[test]
fn a_crop_and_a_trim_limit_the_load_shrink() {
    let cropped = parsed(&[("crop", &["2000", "1500"]), ("resize", &["fit", "500", "0"])]);
    assert_eq!(load_shrink_factor(&cropped, 8000, 6000), 4);

    let trimmed = parsed(&[("trim", &["10"]), ("resize", &["fit", "500", "0"])]);
    assert_eq!(load_shrink_factor(&trimmed, 8000, 6000), 1);

    let raw = parsed(&[("raw", &["1"]), ("resize", &["fit", "500", "0"])]);
    assert_eq!(load_shrink_factor(&raw, 8000, 6000), 1);
}

#[test]
fn growth_from_dpr_and_zoom_reduces_the_load_shrink() {
    let grown = parsed(&[("resize", &["fit", "450", "0"]), ("dpr", &["2"])]);
    assert_eq!(load_shrink_factor(&grown, 9000, 7000), 8);
    assert_eq!(load_shrink_factor(&grown, 3600, 2000), 4);

    let zoomed = parsed(&[("resize", &["fit", "450", "0"]), ("zoom", &["4"])]);
    assert_eq!(load_shrink_factor(&zoomed, 3600, 2000), 2);

    let forced = ParsedOptions {
        resize: Some(Resize {
            resizing_type: ResizingType::Force,
            width: 450,
            height: 0,
        }),
        ..ParsedOptions::default()
    };
    assert_eq!(load_shrink_factor(&forced, 3600, 2000), 1);
    let _ = Fixed { nanos: 0 };
}

#[test]
fn a_bearer_token_is_read_from_its_scheme() {
    assert_eq!(bearer_token("Bearer abc").as_deref(), Some("abc"));
    assert_eq!(bearer_token("bearer abc").as_deref(), Some("abc"));
    assert_eq!(bearer_token("Basic abc"), None);
    assert_eq!(bearer_token("Bearer "), None);
    assert!(bearer_permitted(None, None));
    assert!(bearer_permitted(Some("s3"), Some("s3")));
    assert!(!bearer_permitted(Some("s3"), Some("s4")));
    assert!(!bearer_permitted(Some("s3"), None));
}

#[test]
fn frames_are_joined_only_at_one_height() {
    assert_eq!(join_height(&[40]).unwrap(), None);
    assert_eq!(join_height(&[40, 40, 40]).unwrap(), Some(40));
    assert!(matches!(
        join_height(&[40, 41]),
        Err(TransformError::InvalidArgument { operation: "animation", .. })
    ));
    assert!(matches!(
        join_height(&[]),
        Err(TransformError::InvalidArgument { operation: "animation", .. })
    ));
}
