use imgforge::limits::{
    MaxAnimationFrameResolution, MaxAnimationFrames, MaxResultDimension, MaxSourceFileSize,
    MaxSourceResolution,
};

#[test]
fn animation_limits_reject_zero_and_nonsense() {
    for value in ["0", "-1", "abc", ""] {
        assert!(value.parse::<MaxAnimationFrames>().is_err(), "accepted {value}");
        assert!(
            value.parse::<MaxAnimationFrameResolution>().is_err(),
            "accepted {value}"
        );
    }

    assert_eq!("64".parse::<MaxAnimationFrames>().unwrap().get(), 64);
    assert_eq!(
        "1.5".parse::<MaxAnimationFrameResolution>().unwrap().pixels(),
        1_500_000
    );
}

#[test]
fn resolution_rejects_non_finite_and_non_positive_values() {
    for value in ["NaN", "inf", "-inf", "0", "-1"] {
        assert!(value.parse::<MaxSourceResolution>().is_err(), "accepted {value}");
    }
}

#[test]
fn resolution_converts_megapixels_to_pixels() {
    let limit = "10.5".parse::<MaxSourceResolution>().expect("valid resolution");
    assert_eq!(limit.pixels(), 10_500_000);
}

#[test]
fn result_dimension_requires_a_positive_whole_number() {
    for value in ["0", "-1", "1.5", "abc", ""] {
        assert!(value.parse::<MaxResultDimension>().is_err(), "accepted {value}");
    }
    assert_eq!("4096".parse::<MaxResultDimension>().unwrap().get(), 4096);
}

#[test]
fn file_size_requires_a_positive_integer() {
    for value in ["invalid", "0", "-1"] {
        assert!(value.parse::<MaxSourceFileSize>().is_err(), "accepted {value}");
    }
}
