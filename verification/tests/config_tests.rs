use imgforge::caching::config::CacheConfig;
use imgforge::config::parse_presets;
use imgforge::config::source::SourceRules;
use imgforge::config::DefaultOutputFormat;

#[test]
fn startup_log_message_describes_memory_cache() {
    let config = CacheConfig::Memory { capacity: 1000 };
    assert_eq!(
        CacheConfig::startup_log_message(Some(&config)),
        "Caching enabled: memory (capacity=1000)"
    );
}

#[test]
fn startup_log_message_describes_disabled_cache() {
    assert_eq!(CacheConfig::startup_log_message(None), "Caching disabled");
}

#[test]
fn config_test_parse_presets_single() {
    let presets_str = "thumbnail=resize:fit:150:150/quality:80";
    let presets = parse_presets(presets_str).expect("parses");
    assert_eq!(presets.len(), 1);
    assert_eq!(presets.get("thumbnail").map(|opts| opts.len()), Some(2));
}

#[test]
fn config_test_parse_presets_multiple() {
    let presets_str = "thumbnail=resize:fit:150:150/quality:80,small=resize:fit:300:300/quality:85";
    let presets = parse_presets(presets_str).expect("parses");
    assert_eq!(presets.len(), 2);
    assert_eq!(presets.get("thumbnail").map(|opts| opts.len()), Some(2));
    assert_eq!(presets.get("small").map(|opts| opts.len()), Some(2));
}

#[test]
fn config_test_parse_presets_empty() {
    let presets_str = "";
    let presets = parse_presets(presets_str).expect("parses");
    assert_eq!(presets.len(), 0);
}

#[test]
fn config_test_parse_presets_with_spaces() {
    let presets_str = "thumbnail = resize:fit:150:150/quality:80 , small = resize:fit:300:300";
    let presets = parse_presets(presets_str).expect("parses");
    assert_eq!(presets.len(), 2);
    assert_eq!(presets.get("thumbnail").map(|opts| opts.len()), Some(2));
    assert_eq!(presets.get("small").map(|opts| opts.len()), Some(1));
}

#[test]
fn config_test_parse_presets_default() {
    let presets_str = "default=quality:90/dpr:2";
    let presets = parse_presets(presets_str).expect("parses");
    assert_eq!(presets.len(), 1);
    assert_eq!(presets.get("default").map(|opts| opts.len()), Some(2));
}

#[test]
fn config_test_parse_presets_invalid_format() {
    let presets_str = "thumbnail:resize:fit:150:150";
    assert!(parse_presets(presets_str).is_err());
}

#[test]
fn config_test_parse_presets_missing_name() {
    let presets_str = "=resize:fit:150:150";
    assert!(parse_presets(presets_str).is_err());
}

#[test]
fn config_test_parse_presets_missing_options() {
    let presets_str = "thumbnail=";
    assert!(parse_presets(presets_str).is_err());
}

#[test]
fn tests_test_parse_presets_single() {
    let presets_str = "thumbnail=resize:fit:150:150/quality:80";
    let presets = parse_presets(presets_str).expect("parses");
    assert_eq!(presets.len(), 1);
    assert_eq!(presets.get("thumbnail").map(|opts| opts.len()), Some(2));
}

#[test]
fn tests_test_parse_presets_multiple() {
    let presets_str = "thumbnail=resize:fit:150:150/quality:80,small=resize:fit:300:300/quality:85";
    let presets = parse_presets(presets_str).expect("parses");
    assert_eq!(presets.len(), 2);
    assert_eq!(presets.get("thumbnail").map(|opts| opts.len()), Some(2));
    assert_eq!(presets.get("small").map(|opts| opts.len()), Some(2));
}

#[test]
fn tests_test_parse_presets_empty() {
    let presets_str = "";
    let presets = parse_presets(presets_str).expect("parses");
    assert_eq!(presets.len(), 0);
}

#[test]
fn tests_test_parse_presets_with_spaces() {
    let presets_str = "thumbnail = resize:fit:150:150/quality:80 , small = resize:fit:300:300";
    let presets = parse_presets(presets_str).expect("parses");
    assert_eq!(presets.len(), 2);
    assert_eq!(presets.get("thumbnail").map(|opts| opts.len()), Some(2));
    assert_eq!(presets.get("small").map(|opts| opts.len()), Some(1));
}

#[test]
fn tests_test_parse_presets_default() {
    let presets_str = "default=quality:90/dpr:2";
    let presets = parse_presets(presets_str).expect("parses");
    assert_eq!(presets.len(), 1);
    assert_eq!(presets.get("default").map(|opts| opts.len()), Some(2));
}

#[test]
fn tests_test_parse_presets_invalid_format() {
    let presets_str = "thumbnail:resize:fit:150:150";
    assert!(parse_presets(presets_str).is_err());
}

#[test]
fn tests_test_parse_presets_missing_name() {
    let presets_str = "=resize:fit:150:150";
    assert!(parse_presets(presets_str).is_err());
}

#[test]
fn tests_test_parse_presets_missing_options() {
    let presets_str = "thumbnail=";
    assert!(parse_presets(presets_str).is_err());
}

#[test]
fn default_output_format_normalizes_aliases() {
    assert_eq!("jpg".parse(), Ok(DefaultOutputFormat::Jpeg));
    assert_eq!(" HEIC ".parse(), Ok(DefaultOutputFormat::Heif));
    assert_eq!(DefaultOutputFormat::Heif.as_str(), "heif");
    assert!("bmp".parse::<DefaultOutputFormat>().is_err());
}

#[test]
fn an_empty_allow_list_permits_everything() {
    let rules = SourceRules::default();
    assert!(rules.permits("https://anywhere.example/cat.jpg"));
}

#[test]
fn the_base_url_only_applies_to_relative_references() {
    let rules = SourceRules {
        base_url: Some("https://cdn.example.com/".to_string()),
        allowed: Vec::new(),
    };

    assert_eq!(rules.resolve("cat.jpg"), "https://cdn.example.com/cat.jpg");
    assert_eq!(rules.resolve("/cat.jpg"), "https://cdn.example.com/cat.jpg");
    assert_eq!(
        rules.resolve("https://other.example/cat.jpg"),
        "https://other.example/cat.jpg"
    );
}
