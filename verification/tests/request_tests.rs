use imgforge::config::settings::Config;
use imgforge::handlers::{split_path, unsigned_permitted, PathError};
use imgforge::limits::MaxResultDimension;
use imgforge::middleware::format_to_content_type;
use imgforge::processing::animation::{supports_animation, supports_pages};
use imgforge::processing::options::{GravityType, ParsedOptions, ResizingType};
use imgforge::processing::pipeline::tile_count;
use imgforge::processing::save::{canonical_format_name, format_supports_animation, metadata_keep};

fn parts(path: &str) -> Result<(String, String, String), PathError> {
    split_path(path)
}

#[test]
fn request_paths_split_into_signature_directives_and_source() {
    let (sig, d, src) = parts("/insecure/resize:fit:100:100/q:80/plain/https://example.com/a.png").unwrap();
    assert_eq!(sig, "insecure");
    assert_eq!(d, "resize:fit:100:100/q:80");
    assert_eq!(src, "https://example.com/a.png");

    let (sig, d, src) = parts("_/plain/local://x.jpg").unwrap();
    assert_eq!((sig.as_str(), d.as_str(), src.as_str()), ("_", "", "local://x.jpg"));

    assert_eq!(parts("insecure"), Err(PathError::MissingSignature));
    assert_eq!(parts("/insecure/resize:fit:1:1"), Err(PathError::MissingSource));
    assert_eq!(parts("/insecure/w:5/plain/"), Err(PathError::EmptySource));
}

#[test]
fn only_placeholder_signatures_pass_when_unsigned_requests_are_allowed() {
    assert!(unsigned_permitted(true, "insecure"));
    assert!(unsigned_permitted(true, "unsafe"));
    assert!(unsigned_permitted(true, "_"));
    assert!(!unsigned_permitted(true, "abc123"));
    assert!(!unsigned_permitted(false, "insecure"));
}

#[test]
fn url_limits_are_replaced_unless_allowed() {
    let mut config = Config::new(vec![], vec![]);
    config.max_result_dimension = Some(MaxResultDimension::new(500).unwrap());
    let mut parsed = ParsedOptions::default();
    parsed.max_result_dimension = Some(MaxResultDimension::new(9000).unwrap());
    config.restrict_security_options(&mut parsed);
    assert_eq!(parsed.max_result_dimension.map(|l| l.get()), Some(500));

    config.allow_security_options = true;
    let mut own = ParsedOptions::default();
    own.max_result_dimension = Some(MaxResultDimension::new(9000).unwrap());
    config.restrict_security_options(&mut own);
    assert_eq!(own.max_result_dimension.map(|l| l.get()), Some(9000));
}

#[test]
fn canonical_names_are_served_as_image_types() {
    for name in ["jpg", "jpeg", "png", "webp", "tif", "tiff", "gif", "avif", "heic", "heif", "PNG"] {
        let canonical = canonical_format_name(name).unwrap();
        assert_eq!(format_to_content_type(canonical), format!("image/{canonical}"));
    }
    assert_eq!(format_to_content_type("bmp"), "image/jpeg");
}

#[test]
fn animation_support_agrees_and_implies_pages() {
    for name in ["jpeg", "png", "webp", "tiff", "gif", "avif", "heif"] {
        assert_eq!(supports_animation(name), format_supports_animation(name), "{name}");
        if supports_animation(name) {
            assert!(supports_pages(name), "{name}");
        }
    }
}

#[test]
fn stripping_anything_means_keep_is_not_all() {
    let mut options = ParsedOptions::default().save;
    assert!(!options.strips_anything());
    assert_eq!(metadata_keep(&options), "all");
    options.strip_color_profile = Some(true);
    assert!(options.strips_anything());
    assert_ne!(metadata_keep(&options), "all");
}

#[test]
fn type_names_round_trip() {
    for name in ["fit", "fill", "fill-down", "force", "auto"] {
        let t: ResizingType = name.parse().unwrap();
        assert_eq!(t.as_str(), name);
    }
    assert_eq!("fill_down".parse::<ResizingType>().unwrap().as_str(), "fill-down");
    for name in ["ce", "no", "so", "ea", "we", "noea", "nowe", "soea", "sowe", "fp", "sm"] {
        assert_eq!(GravityType::parse(name).unwrap().as_str(), name);
    }
    assert_eq!(GravityType::parse("center"), None);
}

#[test]
fn tiles_cover_the_extent() {
    assert_eq!(tile_count(100, 30), 4);
    assert_eq!(tile_count(90, 30), 3);
    assert_eq!(tile_count(0, 30), 0);
}
