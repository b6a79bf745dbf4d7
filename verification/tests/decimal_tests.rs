use imgforge::numbers::{parse_fixed, Fixed};
use imgforge::processing::options::{parse_all_options, ProcessingOption};

fn read(text: &str) -> Option<Fixed> {
    let chars: Vec<char> = text.chars().collect();
    parse_fixed(&chars)
}

#[test]
fn decimals_read_as_floating_point_text_does() {
    assert_eq!(read("2.5"), Some(Fixed { nanos: 2_500_000_000 }));
    assert_eq!(read("+.5"), Some(Fixed { nanos: 500_000_000 }));
    assert_eq!(read("3."), Some(Fixed { nanos: 3_000_000_000 }));
    assert_eq!(read("-0.000000001"), Some(Fixed { nanos: -1 }));
    assert_eq!(read("1.0000000019"), Some(Fixed { nanos: 1_000_000_001 }));
    assert_eq!(read("."), None);
    assert_eq!(read(""), None);
    assert_eq!(read("1.2.3"), None);
    assert_eq!(read(" 1"), None);
}

#[test]
fn exponents_scale_the_number() {
    assert_eq!(read("1e3"), Some(Fixed { nanos: 1_000 * 1_000_000_000 }));
    assert_eq!(read("2.5E-1"), Some(Fixed { nanos: 250_000_000 }));
    assert_eq!(read("25e+0"), Some(Fixed { nanos: 25_000_000_000 }));
    assert_eq!(read("-1.5e2"), Some(Fixed { nanos: -150_000_000_000 }));
    assert_eq!(read("1e-10"), Some(Fixed { nanos: 0 }));
    assert_eq!(read("0e999999999999"), Some(Fixed { nanos: 0 }));
    assert_eq!(read("1e"), None);
    assert_eq!(read("e3"), None);
    assert_eq!(read("1e3.5"), None);
    assert_eq!(read("1e--3"), None);
}

#[test]
fn very_large_magnitudes_are_held_at_the_cap() {
    assert_eq!(read("99999999999"), Some(Fixed { nanos: 4_294_967_295_999_999_999 }));
    assert_eq!(read("-1e30"), Some(Fixed { nanos: -4_294_967_295_999_999_999 }));
}

#[test]
fn exponent_notation_is_accepted_in_directives() {
    let blur = ProcessingOption { name: "blur".to_string(), args: vec!["1e1".to_string()] };
    let dpr = ProcessingOption { name: "dpr".to_string(), args: vec!["2e0".to_string()] };
    let parsed = parse_all_options(vec![blur, dpr]).unwrap();
    assert_eq!(parsed.blur, Some(Fixed { nanos: 10_000_000_000 }));
    assert_eq!(parsed.dpr, Some(Fixed { nanos: 2_000_000_000 }));
}
