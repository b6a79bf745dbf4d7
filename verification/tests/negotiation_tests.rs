use imgforge::config::settings::Config;
use imgforge::limits::MaxResultDimension;
use imgforge::config::DefaultOutputFormat;
use imgforge::negotiation::{apply_client_hints, choose_output_format, negotiate_format, vary_headers, RequestHints};
use imgforge::numbers::Fixed;
use imgforge::processing::options::{ParsedOptions, Resize, ResizingType};

fn config_with(detection: (bool, bool), enforcement: (bool, bool)) -> Config {
    let mut config = Config::new(vec![0u8; 32], vec![0u8; 32]);
    config.enable_webp_detection = detection.0;
    config.enable_avif_detection = detection.1;
    config.enforce_webp = enforcement.0;
    config.enforce_avif = enforcement.1;
    config
}

fn accepting(accept: &str) -> RequestHints {
    RequestHints {
        accept: Some(accept.to_string()),
        ..RequestHints::default()
    }
}

fn ratio(whole: i64) -> Fixed {
    Fixed {
        nanos: whole * 1_000_000_000,
    }
}

/// Negotiation on a build that can encode both modern formats.
fn negotiate(config: &Config, hints: &RequestHints, explicit: bool) -> Option<&'static str> {
    negotiate_format(config, hints, explicit, true, true)
}

#[test]
fn detection_only_applies_when_the_url_left_the_format_open() {
    let config = config_with((true, false), (false, false));
    let hints = accepting("image/webp,image/*,*/*");

    assert_eq!(negotiate(&config, &hints, false), Some("webp"));
    assert_eq!(negotiate(&config, &hints, true), None);
    assert_eq!(negotiate(&config, &accepting("image/*"), false), None);
}

#[test]
fn enforcement_overrides_an_explicit_format() {
    let config = config_with((false, false), (true, false));
    let hints = accepting("image/webp");

    assert_eq!(negotiate(&config, &hints, true), Some("webp"));
}

#[test]
fn avif_is_preferred_when_the_client_takes_both() {
    let config = config_with((true, true), (false, false));
    let hints = accepting("image/avif,image/webp,*/*");

    assert_eq!(negotiate(&config, &hints, false), Some("avif"));

    let config = config_with((true, false), (false, false));
    assert_eq!(negotiate(&config, &hints, false), Some("webp"));
}

#[test]
fn a_zero_quality_is_a_refusal_rather_than_an_offer() {
    let config = config_with((true, true), (false, false));

    assert_eq!(
        negotiate(&config, &accepting("image/avif;q=0, image/webp"), false),
        Some("webp")
    );
    assert_eq!(negotiate(&config, &accepting("image/webp;q=0.0"), false), None);
    assert_eq!(
        negotiate(&config, &accepting("image/avif;Q=0, image/webp"), false),
        Some("webp")
    );
    assert_eq!(
        negotiate(&config, &accepting("IMAGE/WEBP;q=0.5"), false),
        Some("webp")
    );
    assert_eq!(
        negotiate(&config, &accepting("application/image/webp+xml"), false),
        None
    );
}

#[test]
fn the_clients_quality_weights_decide_between_two_offers() {
    let config = config_with((true, true), (false, false));

    assert_eq!(
        negotiate(&config, &accepting("image/avif;q=0.1, image/webp;q=1"), false),
        Some("webp"),
        "a client that prefers WebP must be given WebP"
    );
    assert_eq!(
        negotiate(&config, &accepting("image/avif;q=1, image/webp;q=0.1"), false),
        Some("avif")
    );
    assert_eq!(
        negotiate(&config, &accepting("image/avif;q=0.5, image/webp"), false),
        Some("webp")
    );
    assert_eq!(
        negotiate(&config, &accepting("image/avif;q=0.8, image/webp;q=0.8"), false),
        Some("avif")
    );
    assert_eq!(
        negotiate(&config, &accepting("image/avif,image/webp,*/*"), false),
        Some("avif")
    );
}

#[test]
fn client_hints_are_ignored_unless_enabled() {
    let accept = Some("image/webp");
    let ignored = RequestHints::from_headers(accept, None, Some("2"), None, Some("800"), false);
    assert_eq!(ignored.dpr, None);
    assert_eq!(ignored.width, None);
    assert_eq!(ignored.accept.as_deref(), Some("image/webp"));

    let honoured = RequestHints::from_headers(accept, None, Some("2"), None, Some("800"), true);
    assert_eq!(honoured.dpr, Some(ratio(2)));
    assert_eq!(honoured.width, Some(800));
}

#[test]
fn the_width_hint_is_not_multiplied_by_dpr_twice() {
    let hints = RequestHints {
        width: Some(640),
        dpr: Some(ratio(2)),
        ..RequestHints::default()
    };

    let mut options = ParsedOptions::default();
    apply_client_hints(&mut options, &hints);
    assert_eq!(options.resize.expect("the hint supplies a width").width, 320);
    assert_eq!(options.dpr, Some(ratio(2)));

    let mut options = ParsedOptions::default();
    apply_client_hints(
        &mut options,
        &RequestHints {
            width: Some(640),
            ..RequestHints::default()
        },
    );
    assert_eq!(options.resize.unwrap().width, 640);

    let mut options = ParsedOptions::default();
    apply_client_hints(
        &mut options,
        &RequestHints {
            width: Some(1),
            dpr: Some(ratio(5)),
            ..RequestHints::default()
        },
    );
    assert_eq!(options.resize.unwrap().width, 1);

    let mut options = ParsedOptions::default();
    options.dpr = Some(ratio(3));
    apply_client_hints(&mut options, &hints);
    assert_eq!(
        options.resize.unwrap().width,
        320,
        "the URL's own dpr must not become the divisor for the client's hint"
    );
    assert_eq!(options.dpr, Some(ratio(3)), "and the URL's dpr still wins for scaling");

    let mut options = ParsedOptions::default();
    options.dpr = Some(ratio(1));
    apply_client_hints(
        &mut options,
        &RequestHints {
            dpr: Some(ratio(2)),
            ..RequestHints::default()
        },
    );
    assert_eq!(options.dpr, Some(ratio(1)), "an explicit dpr:1 refuses the hint");

    let mut options = ParsedOptions::default();
    apply_client_hints(
        &mut options,
        &RequestHints {
            width: Some(1_000_000),
            ..RequestHints::default()
        },
    );
    assert_eq!(options.resize.unwrap().width, 16_384, "the hard cap bounds the hint");

    let mut options = ParsedOptions::default();
    options.max_result_dimension = Some("2000".parse::<MaxResultDimension>().unwrap());
    apply_client_hints(
        &mut options,
        &RequestHints {
            width: Some(1_000_000),
            ..RequestHints::default()
        },
    );
    assert_eq!(
        options.resize.unwrap().width,
        2000,
        "a configured result ceiling bounds it tighter still"
    );

    let mut options = ParsedOptions::default();
    options.resize = Some(Resize {
        resizing_type: ResizingType::Fill,
        width: 0,
        height: 480,
    });
    apply_client_hints(&mut options, &hints);
    assert_eq!(options.resize.unwrap().width, 320);
}

#[test]
fn a_hint_honours_a_resizing_type_the_url_named_without_dimensions() {
    let hints = RequestHints {
        width: Some(800),
        ..RequestHints::default()
    };

    let mut options = ParsedOptions::default();
    options.resize = Some(Resize {
        resizing_type: ResizingType::Fill,
        width: 0,
        height: 0,
    });
    apply_client_hints(&mut options, &hints);

    let resize = options.resize.expect("the hint supplies the missing width");
    assert_eq!(resize.width, 800);
    assert_eq!(
        resize.resizing_type,
        ResizingType::Fill,
        "the requested type must not silently become a fit"
    );
}

#[test]
fn a_width_in_the_url_wins_over_the_hint() {
    let hints = RequestHints {
        width: Some(800),
        ..RequestHints::default()
    };

    let mut options = ParsedOptions::default();
    options.resize = Some(Resize {
        resizing_type: ResizingType::Fit,
        width: 300,
        height: 0,
    });
    apply_client_hints(&mut options, &hints);
    assert_eq!(options.resize.unwrap().width, 300);

    let mut options = ParsedOptions::default();
    apply_client_hints(&mut options, &hints);
    assert_eq!(options.resize.unwrap().width, 800);
}

#[test]
fn the_secure_spelling_of_a_hint_is_read_first() {
    let hints = RequestHints::from_headers(None, Some("3"), Some("2"), Some(" 500 "), Some("800"), true);
    assert_eq!(hints.dpr, Some(ratio(3)));
    assert_eq!(hints.width, Some(500));
    assert_eq!(hints.accept, None);

    // A value that does not parse, or is not positive, is no hint at all.
    let hints = RequestHints::from_headers(None, Some("abc"), None, Some("0"), None, true);
    assert_eq!(hints.dpr, None);
    assert_eq!(hints.width, None);
}

#[test]
fn an_unencodable_format_is_never_negotiated() {
    let config = config_with((true, true), (false, false));
    let hints = accepting("image/avif,image/webp");
    assert_eq!(negotiate_format(&config, &hints, false, false, true), Some("webp"));
    assert_eq!(negotiate_format(&config, &hints, false, false, false), None);
}

#[test]
fn vary_lists_what_the_response_depends_on() {
    let mut config = config_with((false, false), (false, false));
    assert!(vary_headers(&config).is_empty());

    config.enforce_avif = true;
    assert_eq!(vary_headers(&config), vec!["Accept"]);

    config.enable_client_hints = true;
    assert_eq!(
        vary_headers(&config),
        vec!["Accept", "Sec-CH-Width", "Width", "Sec-CH-DPR", "DPR"]
    );
}

#[test]
fn quality_for_reports_the_strongest_offer() {
    let hints = accepting("image/webp;q=0.3, text/html, image/webp;q=0.7");
    assert_eq!(
        hints.quality_for("image/webp"),
        Some(Fixed { nanos: 700_000_000 })
    );
    assert_eq!(hints.quality_for("text/html"), Some(ratio(1)));
    assert_eq!(hints.quality_for("image/png"), None);
    assert_eq!(RequestHints::default().quality_for("image/webp"), None);
}

#[test]
fn a_negotiated_format_replaces_the_asked_one_and_the_default_fills_a_gap() {
    let mut asked = ParsedOptions::default();
    asked.format = Some("png".to_string());
    choose_output_format(&mut asked, Some("webp"), DefaultOutputFormat::Jpeg);
    assert_eq!(asked.format.as_deref(), Some("webp"));

    let mut kept = ParsedOptions::default();
    kept.format = Some("png".to_string());
    choose_output_format(&mut kept, None, DefaultOutputFormat::Jpeg);
    assert_eq!(kept.format.as_deref(), Some("png"));

    let mut open = ParsedOptions::default();
    choose_output_format(&mut open, None, DefaultOutputFormat::Jpeg);
    assert_eq!(open.format.as_deref(), Some("jpeg"));

    let mut source = ParsedOptions::default();
    choose_output_format(&mut source, None, DefaultOutputFormat::Source);
    assert_eq!(source.format, None);
}
