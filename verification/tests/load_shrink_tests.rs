use imgforge::numbers::Fixed;
use imgforge::processing::options::{Crop, ParsedOptions, Resize, ResizingType, Trim, Zoom};
use imgforge::processing::scale_on_load::load_shrink_factor;
use imgforge::processing::transform::resolve_resize_dimensions;

fn whole(n: i64) -> Fixed {
    Fixed {
        nanos: n * 1_000_000_000,
    }
}

fn fit(w: u32, h: u32) -> ParsedOptions {
    ParsedOptions {
        resize: Some(Resize {
            resizing_type: ResizingType::Fit,
            width: w,
            height: h,
        }),
        ..ParsedOptions::default()
    }
}

#[test]
fn test_load_shrink_never_undershoots_the_target() {
    for (sw, sh, tw, th) in [
        (4000u32, 3000u32, 200u32, 200u32),
        (9000, 7000, 450, 450),
        (1000, 1000, 999, 999),
        (4000, 100, 200, 50),
        (100, 4000, 50, 200),
        (5000, 5000, 1, 1),
    ] {
        let factor = load_shrink_factor(&fit(tw, th), sw, sh);
        assert!(factor.is_power_of_two() && factor <= 8, "odd factor {factor}");
        let (after_w, after_h) = (sw / factor, sh / factor);
        assert!(
            after_w >= tw && after_h >= th,
            "shrink 1/{factor} took {sw}x{sh} to {after_w}x{after_h}, below the {tw}x{th} target"
        );
    }
}

#[test]
fn test_load_shrink_declines_when_it_cannot_reason_about_the_target() {
    let with = |f: fn(&mut ParsedOptions)| {
        let mut o = fit(1000, 1000);
        f(&mut o);
        load_shrink_factor(&o, 4000, 4000)
    };
    assert_eq!(with(|_| ()), 4, "baseline");
    assert_eq!(
        with(|o| o.crop = Some(Crop {
            width: whole(50),
            height: whole(50),
            gravity: None,
        })),
        1
    );
    assert_eq!(with(|o| o.raw = true), 1);
    assert_eq!(with(|o| o.resize = None), 1);
    assert_eq!(with(|o| o.dpr = Some(whole(2))), 2, "dpr doubles the pixels needed");
    assert_eq!(
        with(|o| o.zoom = Some(Zoom { x: whole(2), y: whole(2) })),
        2,
        "zoom doubles the pixels needed"
    );
    assert_eq!(
        with(|o| o.min_width = Some(2000)),
        2,
        "a minimum above the resize target raises the floor"
    );
}

#[test]
fn test_load_shrink_declines_for_force_with_an_unset_axis() {
    let plan = |kind: &str, w: u32, h: u32| ParsedOptions {
        resize: Some(Resize {
            resizing_type: kind.parse().unwrap(),
            width: w,
            height: h,
        }),
        ..ParsedOptions::default()
    };

    for (w, h) in [(0, 500), (500, 0)] {
        let options = plan("force", w, h);
        assert_eq!(
            load_shrink_factor(&options, 4000, 3000),
            1,
            "force with an unset axis must decline shrink-on-load"
        );
    }

    let fit = plan("fit", 0, 500);
    let resize = fit.resize.as_ref().unwrap();
    let full = resolve_resize_dimensions(resize, 4000, 3000).unwrap();
    let shrunk = resolve_resize_dimensions(resize, 1000, 750).unwrap();
    assert_eq!(full, shrunk, "an aspect-derived axis should survive a shrink");
    assert!(load_shrink_factor(&fit, 4000, 3000) > 1, "fit should still qualify");
}

#[test]
fn test_load_shrink_measures_the_crop_region_not_the_source() {
    let plan = |crop: Option<(i64, i64)>| ParsedOptions {
        crop: crop.map(|(w, h)| Crop {
            width: whole(w),
            height: whole(h),
            gravity: None,
        }),
        ..fit(500, 375)
    };

    assert_eq!(load_shrink_factor(&plan(Some((2000, 1500))), 8000, 6000), 4);
    assert_eq!(load_shrink_factor(&plan(None), 8000, 6000), 8);
    assert_eq!(load_shrink_factor(&plan(Some((600, 450))), 8000, 6000), 1);
}

#[test]
fn test_trim_disables_scale_on_load() {
    let plan = |trim: Option<Trim>| ParsedOptions { trim, ..fit(200, 200) };

    assert!(load_shrink_factor(&plan(None), 4000, 4000) > 1, "baseline should shrink");
    assert_eq!(
        load_shrink_factor(
            &plan(Some(Trim {
                threshold: whole(10),
                color: None,
                equal_hor: false,
                equal_ver: false
            })),
            4000,
            4000
        ),
        1
    );
}
