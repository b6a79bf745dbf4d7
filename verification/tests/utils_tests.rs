use imgforge::processing::options::{Resize, ResizingType};
use imgforge::processing::transform::{resolve_resize_dimensions, TransformError};
use imgforge::processing::utils;

fn resize(resizing_type: ResizingType, width: u32, height: u32) -> Resize {
    Resize {
        resizing_type,
        width,
        height,
    }
}

#[test]
fn tests_test_resolve_resize_dimensions_rejects_both_zero() {
    let resize = resize(ResizingType::Fit, 0, 0);
    let result = resolve_resize_dimensions(&resize, 400, 300);
    assert!(result.is_err());
    assert!(result.unwrap_err().message().contains("at least one non-zero"));
}

#[test]
fn tests_test_resolve_resize_dimensions_fills_missing_side_for_fit() {
    let resize_w_only = resize(ResizingType::Fit, 200, 0);
    let dims = resolve_resize_dimensions(&resize_w_only, 400, 300).unwrap();
    assert_eq!(dims, (200, 150));

    let resize_h_only = resize(ResizingType::Fit, 0, 150);
    let dims = resolve_resize_dimensions(&resize_h_only, 400, 300).unwrap();
    assert_eq!(dims, (200, 150));
}

#[test]
fn tests_test_resolve_resize_dimensions_force_uses_source_for_missing_side() {
    let resize_w_only = resize(ResizingType::Force, 200, 0);
    let dims = resolve_resize_dimensions(&resize_w_only, 400, 300).unwrap();
    assert_eq!(dims, (200, 300));

    let resize_h_only = resize(ResizingType::Force, 0, 150);
    let dims = resolve_resize_dimensions(&resize_h_only, 400, 300).unwrap();
    assert_eq!(dims, (400, 150));
}

#[test]
fn resize_tests_test_resolve_resize_dimensions_rejects_both_zero() {
    let resize = resize(ResizingType::Fit, 0, 0);
    let result = resolve_resize_dimensions(&resize, 400, 300);
    assert!(matches!(
        result,
        Err(TransformError::InvalidArgument {
            operation: "resize",
            ref message,
        }) if message.contains("at least one non-zero")
    ));
}

#[test]
fn resize_tests_test_resolve_resize_dimensions_fills_missing_side_for_fit() {
    let dims = resolve_resize_dimensions(&resize(ResizingType::Fit, 200, 0), 400, 300).unwrap();
    assert_eq!(dims, (200, 150));
    let dims = resolve_resize_dimensions(&resize(ResizingType::Fit, 0, 150), 400, 300).unwrap();
    assert_eq!(dims, (200, 150));
}

#[test]
fn resize_tests_test_resolve_resize_dimensions_force_uses_source_for_missing_side() {
    let dims = resolve_resize_dimensions(&resize(ResizingType::Force, 200, 0), 400, 300).unwrap();
    assert_eq!(dims, (200, 300));
    let dims = resolve_resize_dimensions(&resize(ResizingType::Force, 0, 150), 400, 300).unwrap();
    assert_eq!(dims, (400, 150));
}

#[test]
fn tests_test_parse_hex_color_with_hash() {
    let color = utils::parse_hex_color("#ff0000").unwrap();
    assert_eq!(color, [255, 0, 0, 255]);
}

#[test]
fn tests_test_parse_hex_color_without_hash() {
    let color = utils::parse_hex_color("00ff00").unwrap();
    assert_eq!(color, [0, 255, 0, 255]);
}

#[test]
fn tests_test_parse_hex_color_invalid() {
    assert!(utils::parse_hex_color("gg0000").is_err());
}

#[test]
fn tests_test_parse_hex_color_wrong_length() {
    assert!(utils::parse_hex_color("fff").is_err());
    assert!(utils::parse_hex_color("fffffff").is_err());
}

#[test]
fn tests_test_parse_boolean_true_variants() {
    assert!(utils::parse_boolean("1"));
    assert!(utils::parse_boolean("true"));
}

#[test]
fn tests_test_parse_boolean_false_variants() {
    assert!(!utils::parse_boolean("0"));
    assert!(!utils::parse_boolean("false"));
    assert!(!utils::parse_boolean(""));
    assert!(!utils::parse_boolean("yes"));
}

#[test]
fn tests_test_is_portrait() {
    assert!(utils::is_portrait(100, 200));
    assert!(!utils::is_portrait(200, 100));
    assert!(!utils::is_portrait(100, 100));
}

#[test]
fn options_parse_tests_test_parse_hex_color_with_hash() {
    let color = utils::parse_hex_color("#ff0000").unwrap();
    assert_eq!(color, [255, 0, 0, 255]);
}

#[test]
fn options_parse_tests_test_parse_hex_color_without_hash() {
    let color = utils::parse_hex_color("00ff00").unwrap();
    assert_eq!(color, [0, 255, 0, 255]);
}

#[test]
fn options_parse_tests_test_parse_hex_color_invalid() {
    assert!(utils::parse_hex_color("gg0000").is_err());
}

#[test]
fn options_parse_tests_test_parse_hex_color_wrong_length() {
    assert!(utils::parse_hex_color("fff").is_err());
    assert!(utils::parse_hex_color("fffffff").is_err());
}

#[test]
fn options_parse_tests_test_parse_boolean_true_variants() {
    assert!(utils::parse_boolean("1"));
    assert!(utils::parse_boolean("true"));
}

#[test]
fn options_parse_tests_test_parse_boolean_false_variants() {
    assert!(!utils::parse_boolean("0"));
    assert!(!utils::parse_boolean("false"));
    assert!(!utils::parse_boolean(""));
    assert!(!utils::parse_boolean("yes"));
}

#[test]
fn options_parse_tests_test_is_portrait() {
    assert!(utils::is_portrait(100, 200));
    assert!(!utils::is_portrait(200, 100));
    assert!(!utils::is_portrait(100, 100));
}
