use imgforge::processing::metadata::{embedded_thumbnail, read_copyright};
use imgforge::processing::metadata::{attach_copyright, Copyright};
use imgforge::processing::options::ProcessingOption;
use imgforge::config::parse_presets;
use imgforge::processing::presets::{expand_configured_presets, expand_presets, parse_options_string};
use imgforge::string_map::StringMap;

fn option(name: &str, args: &[&str]) -> ProcessingOption {
    ProcessingOption {
        name: name.to_string(),
        args: args.iter().map(|a| a.to_string()).collect(),
    }
}

#[test]
fn test_parse_options_string() {
    let options_str = "resize:fit:300:300/dpr:3/quality:85";
    let options = parse_options_string(options_str).unwrap();

    assert_eq!(options.len(), 3);
    assert_eq!(options[0].name, "resize");
    assert_eq!(options[0].args, vec!["fit", "300", "300"]);
    assert_eq!(options[1].name, "dpr");
    assert_eq!(options[1].args, vec!["3"]);
    assert_eq!(options[2].name, "quality");
    assert_eq!(options[2].args, vec!["85"]);
}

#[test]
fn test_parse_options_string_empty() {
    let options = parse_options_string("").unwrap();
    assert_eq!(options.len(), 0);
}

#[test]
fn test_parse_options_string_trailing_slash() {
    let options_str = "resize:fit:300:300/quality:85/";
    let options = parse_options_string(options_str).unwrap();
    assert_eq!(options.len(), 2);
}

#[test]
fn test_expand_presets_simple() {
    let mut presets = StringMap::new();
    presets.insert("thumbnail".to_string(), "resize:fit:150:150/quality:80".to_string());

    let options = vec![option("preset", &["thumbnail"])];

    let expanded = expand_presets(options, &presets, false).unwrap();
    assert_eq!(expanded.len(), 2);
    assert_eq!(expanded[0].name, "resize");
    assert_eq!(expanded[1].name, "quality");
}

#[test]
fn test_expand_presets_with_default() {
    let mut presets = StringMap::new();
    presets.insert("default".to_string(), "quality:90".to_string());
    presets.insert("thumbnail".to_string(), "resize:fit:150:150".to_string());

    let options = vec![option("preset", &["thumbnail"])];

    let expanded = expand_presets(options, &presets, false).unwrap();
    assert_eq!(expanded.len(), 2);
    assert_eq!(expanded[0].name, "quality");
    assert_eq!(expanded[1].name, "resize");
}

#[test]
fn test_expand_presets_default_only() {
    let mut presets = StringMap::new();
    presets.insert("default".to_string(), "quality:90/dpr:2".to_string());

    let options = vec![option("blur", &["5"])];

    let expanded = expand_presets(options, &presets, false).unwrap();
    assert_eq!(expanded.len(), 3);
    assert_eq!(expanded[0].name, "quality");
    assert_eq!(expanded[1].name, "dpr");
    assert_eq!(expanded[2].name, "blur");
}

#[test]
fn test_expand_presets_unknown_preset() {
    let presets = StringMap::new();
    let options = vec![option("preset", &["unknown"])];

    let result = expand_presets(options, &presets, false);
    assert!(result.is_err());
    assert!(result.unwrap_err().contains("unknown preset"));
}

#[test]
fn test_expand_presets_only_presets_mode_allows_presets() {
    let mut presets = StringMap::new();
    presets.insert("thumbnail".to_string(), "resize:fit:150:150".to_string());

    let options = vec![option("preset", &["thumbnail"])];

    let expanded = expand_presets(options, &presets, true).unwrap();
    assert_eq!(expanded.len(), 1);
    assert_eq!(expanded[0].name, "resize");
}

#[test]
fn test_expand_presets_only_presets_mode_rejects_non_presets() {
    let presets = StringMap::new();
    let options = vec![option("blur", &["5"])];

    let result = expand_presets(options, &presets, true);
    assert!(result.is_err());
    assert!(result.unwrap_err().contains("only preset references are allowed"));
}

#[test]
fn test_expand_presets_only_presets_mode_allows_default() {
    let mut presets = StringMap::new();
    presets.insert("default".to_string(), "quality:90".to_string());

    let options = vec![];

    let expanded = expand_presets(options, &presets, true).unwrap();
    assert_eq!(expanded.len(), 1);
    assert_eq!(expanded[0].name, "quality");
}

#[test]
fn test_expand_presets_preset_short() {
    let mut presets = StringMap::new();
    presets.insert("thumb".to_string(), "resize:fit:100:100".to_string());

    let options = vec![option("pr", &["thumb"])];

    let expanded = expand_presets(options, &presets, false).unwrap();
    assert_eq!(expanded.len(), 1);
    assert_eq!(expanded[0].name, "resize");
}

#[test]
fn test_expand_presets_empty_preset_name() {
    let presets = StringMap::new();
    let options = vec![option("preset", &[])];

    let result = expand_presets(options, &presets, false);
    assert!(result.is_err());
    assert!(result.unwrap_err().contains("requires a preset name"));
}

#[test]
fn attaching_nothing_leaves_the_bytes_alone() {
    let jpeg = vec![0xFF, 0xD8, 0xFF, 0xDA, 0x00, 0x02];
    assert_eq!(attach_copyright(jpeg.clone(), &Copyright::default()), jpeg);

    // A non-JPEG output cannot carry an APP1 segment, so it is returned
    // untouched rather than corrupted with one.
    let png = vec![0x89, b'P', b'N', b'G'];
    let copyright = Copyright {
        copyright: Some("(c) 2026".to_string()),
        artist: None,
    };
    assert_eq!(attach_copyright(png.clone(), &copyright), png);
}

#[test]
fn copyright_round_trips_through_a_rebuilt_app1_segment() {
    let mut jpeg = vec![0xFF, 0xD8];
    jpeg.extend_from_slice(&[0xFF, 0xDA, 0x00, 0x02]);

    let copyright = Copyright {
        copyright: Some("(c) 2026 Example".to_string()),
        artist: Some("A Photographer".to_string()),
    };

    let tagged = attach_copyright(jpeg.clone(), &copyright);
    assert_ne!(tagged, jpeg, "the segment should have been spliced in");
    assert_eq!(read_copyright(&tagged), copyright);
}

#[test]
fn a_source_without_exif_has_no_copyright_or_thumbnail() {
    let jpeg = vec![0xFF, 0xD8, 0xFF, 0xDA, 0x00, 0x02];
    assert_eq!(read_copyright(&jpeg), Copyright::default());
    assert_eq!(embedded_thumbnail(&jpeg), None);
    assert_eq!(read_copyright(b"not an image"), Copyright::default());
}

#[test]
fn configured_presets_expand_like_their_texts() {
    let table = parse_presets("default=quality:70, thumb=resize:fit:100:100/blur:2").unwrap();
    let expanded = expand_configured_presets(vec![option("pr", &["thumb"]), option("width", &["5"])], &table, false).unwrap();
    let names: Vec<&str> = expanded.iter().map(|o| o.name.as_str()).collect();
    assert_eq!(names, vec!["quality", "resize", "blur", "width"]);
    assert_eq!(expanded[1].args, vec!["fit", "100", "100"]);

    let unknown = expand_configured_presets(vec![option("preset", &["nope"])], &table, false);
    assert_eq!(unknown.unwrap_err(), "unknown preset: nope");

    let only = parse_presets("thumb=resize:fit:100:100").unwrap();
    let refused = expand_configured_presets(vec![option("width", &["5"])], &only, true);
    assert_eq!(refused.unwrap_err(), "only preset references are allowed in only_presets mode, found: width");
}
