//! Choosing a reduced decode scale.
//!
//! A loader that can decode at a fraction of full size skips the work rather
//! than doing it and throwing the result away. Sizes here are compared
//! exactly: a target is measured in billionths of billionths of a pixel, since
//! it is a pixel count grown by a ratio and a zoom factor that are each held in
//! billionths.

use crate::numbers::Fixed;
use crate::processing::options::apply::{at_least_one, ParsedOptions, ParsedOptionsView};
use crate::processing::options::effects::{max_fixed, Zoom};
use crate::processing::options::geometry::{crop_extent, ResizingType};
use vstd::prelude::*;

verus! {

/// The JPEG loader can decode at 1/2, 1/4 or 1/8 scale.
pub const MAX_LOAD_SHRINK: u32 = 8;

/// One pixel, in the units targets are measured in.
pub const UNIT: u128 = 1_000_000_000_000_000_000;

/// Where target arithmetic stops counting: 2^95, beyond any size that could
/// still fit a source one and a half times over.
pub const TARGET_CAP: u128 = 39_614_081_257_132_168_796_771_975_168;

/// How far a target is grown before the shrink is chosen: the pixel ratio
/// times the larger zoom factor, each at least one, in billionths squared.
pub open spec fn growth(o: ParsedOptionsView) -> int {
    let d = at_least_one(
        match o.dpr {
            Some(d) => d,
            None => Fixed { nanos: 1_000_000_000 },
        },
    );
    let z = match o.zoom {
        Some(z) => z,
        None => Zoom::spec_default(),
    };
    let m = max_fixed(max_fixed(z.x, z.y), Fixed { nanos: 1_000_000_000 });
    d.nanos * m.nanos
}

/// The size one axis of the target needs, in [`UNIT`]s. `force` fills a zero
/// axis from the source, so that axis needs the whole available extent; any
/// other axis is the requested size grown, and at least the minimum.
pub open spec fn axis_target(forced: bool, req: u32, avail: nat, min: Option<u32>, grow: int) -> int {
    if forced && req == 0 {
        avail * UNIT
    } else {
        let m: int = match min {
            Some(v) => v * UNIT,
            None => 0,
        };
        let t: int = req * grow;
        if t >= m {
            t
        } else {
            m
        }
    }
}

/// The extent of the source a crop leaves on one axis.
pub open spec fn available_extent(crop_extent_px: nat, src: nat) -> nat {
    if crop_extent_px == 0 {
        src
    } else if crop_extent_px < src {
        crop_extent_px
    } else {
        src
    }
}

/// The available width, the width target, the available height and the
/// height target; `None` when the source has to be decoded whole: for `raw`,
/// a trim, no resize, or an empty source.
pub open spec fn shrink_axes(o: ParsedOptionsView, src_w: u32, src_h: u32) -> Option<
    (nat, int, nat, int),
> {
    if o.raw || o.trim is Some || o.resize is None || src_w == 0 || src_h == 0 {
        None
    } else {
        let r = o.resize->0;
        let (aw, ah) = match o.crop {
            Some(c) => (
                available_extent(crop_extent(c.width.nanos as int, src_w as nat), src_w as nat),
                available_extent(crop_extent(c.height.nanos as int, src_h as nat), src_h as nat),
            ),
            None => (src_w as nat, src_h as nat),
        };
        let forced = r.resizing_type == ResizingType::Force;
        Some(
            (
                aw,
                axis_target(forced, r.width, aw, o.min_width, growth(o)),
                ah,
                axis_target(forced, r.height, ah, o.min_height, growth(o)),
            ),
        )
    }
}

/// Whether an axis target counts: a target below one pixel bounds nothing.
pub open spec fn counted(t: int) -> bool {
    t >= UNIT
}

/// Whether `avail / target` is at least `num / den`, or the axis does not count.
pub open spec fn axis_fits(avail: nat, t: int, num: int, den: int) -> bool {
    !counted(t) || num * t <= den * avail * UNIT
}

/// Whether the shrink ratio, the least of the counted axes' ratios, is at
/// least `num / den`.
pub open spec fn ratio_at_least(ax: (nat, int, nat, int), num: int, den: int) -> bool {
    axis_fits(ax.0, ax.1, num, den) && axis_fits(ax.2, ax.3, num, den)
}

/// Whether a shrink is worth it: some axis counts, and the ratio is at least
/// one and a half.
pub open spec fn worth_shrinking(ax: (nat, int, nat, int)) -> bool {
    (counted(ax.1) || counted(ax.3)) && ratio_at_least(ax, 3, 2)
}

/// The axis whose ratio is the least, as (available, target): the width on a tie.
pub open spec fn binding_axis(ax: (nat, int, nat, int)) -> (nat, int) {
    if counted(ax.1) && (!counted(ax.3) || ax.0 * ax.3 <= ax.2 * ax.1) {
        (ax.0, ax.1)
    } else {
        (ax.2, ax.3)
    }
}

/// How much larger the source is than the request needs, as the axis that
/// decides it; `None` to decode it whole.
pub open spec fn shrink_ratio(o: ParsedOptionsView, src_w: u32, src_h: u32) -> Option<(nat, int)> {
    match shrink_axes(o, src_w, src_h) {
        Some(ax) => if worth_shrinking(ax) {
            Some(binding_axis(ax))
        } else {
            None
        },
        None => None,
    }
}

/// The power-of-two shrink: the largest of 2, 4 and 8 that the ratio reaches,
/// taken in that order, or 1.
pub open spec fn shrink_factor(o: ParsedOptionsView, src_w: u32, src_h: u32) -> u32 {
    match shrink_axes(o, src_w, src_h) {
        Some(ax) => if !worth_shrinking(ax) || !ratio_at_least(ax, 2, 1) {
            1
        } else if !ratio_at_least(ax, 4, 1) {
            2
        } else if !ratio_at_least(ax, 8, 1) {
            4
        } else {
            8
        },
        None => 1,
    }
}

/// How much larger the source is than what the request needs: the ratio is
/// `available` source pixels to `target` [`UNIT`]s on the axis that decides it.
#[derive(Debug, Clone, Copy, PartialEq, Eq, Structural)]
pub struct ShrinkRatio {
    pub available: u32,
    pub target: u128,
}

/// `a * b`, or [`TARGET_CAP`] when that is reached.
fn capped_mul(a: u128, b: u128) -> (r: u128)
    requires
        a <= u32::MAX,
    ensures
        r == if a * b >= TARGET_CAP {
            TARGET_CAP as int
        } else {
            a * b
        },
{
    if a == 0 {
        return 0;
    }
    if b >= TARGET_CAP {
        assert(a * b >= TARGET_CAP) by (nonlinear_arith)
            requires
                a >= 1,
                b >= TARGET_CAP,
        ;
        return TARGET_CAP;
    }
    assert(a * b <= u32::MAX * TARGET_CAP) by (nonlinear_arith)
        requires
            a <= u32::MAX,
            b <= TARGET_CAP,
    ;
    let p = a * b;
    if p >= TARGET_CAP {
        TARGET_CAP
    } else {
        p
    }
}

/// An axis target, capped at [`TARGET_CAP`].
fn capped_target(forced: bool, req: u32, avail: u32, min: Option<u32>, grow: u128) -> (r: u128)
    ensures
        r == if axis_target(forced, req, avail as nat, min, grow as int) >= TARGET_CAP {
            TARGET_CAP as int
        } else {
            axis_target(forced, req, avail as nat, min, grow as int)
        },
{
    if forced && req == 0 {
        return avail as u128 * UNIT;
    }
    let m: u128 = match min {
        Some(v) => v as u128 * UNIT,
        None => 0,
    };
    let t = capped_mul(req as u128, grow);
    if t >= m {
        t
    } else {
        m
    }
}

proof fn lemma_capped_agrees(avail: nat, t: int, c: int, num: int, den: int)
    requires
        avail <= u32::MAX,
        0 <= t,
        c == if t >= TARGET_CAP {
            TARGET_CAP as int
        } else {
            t
        },
        2 <= num <= 8,
        1 <= den <= 2,
    ensures
        counted(t) == counted(c),
        axis_fits(avail, t, num, den) == axis_fits(avail, c, num, den),
{
    if t >= TARGET_CAP {
        assert(num * t >= 2 * TARGET_CAP) by (nonlinear_arith)
            requires
                num >= 2,
                t >= TARGET_CAP,
        ;
        assert(num * c >= 2 * TARGET_CAP) by (nonlinear_arith)
            requires
                num >= 2,
                c == TARGET_CAP,
        ;
        assert(den * avail * UNIT <= 2 * u32::MAX * UNIT) by (nonlinear_arith)
            requires
                den <= 2,
                avail <= u32::MAX,
        ;
    }
}

/// The ratio, exactly, when the targets are known to be below the cap.
fn axes_of(o: &ParsedOptions, src_width: u32, src_height: u32) -> (r: Option<(u32, u128, u32, u128)>)
    ensures
        match (r, shrink_axes(o@, src_width, src_height)) {
            (None, None) => true,
            (Some(c), Some(ax)) => {
                &&& c.0 == ax.0
                &&& c.2 == ax.2
                &&& c.1 == if ax.1 >= TARGET_CAP {
                    TARGET_CAP as int
                } else {
                    ax.1
                }
                &&& c.3 == if ax.3 >= TARGET_CAP {
                    TARGET_CAP as int
                } else {
                    ax.3
                }
                &&& 0 <= ax.1
                &&& 0 <= ax.3
            },
            _ => false,
        },
{
    if o.raw || o.trim.is_some() || src_width == 0 || src_height == 0 {
        return None;
    }
    let resize = match o.resize {
        Some(r) => r,
        None => {
            return None;
        },
    };
    let (aw, ah): (u32, u32) = match o.crop {
        Some(c) => {
            let (cw, ch) = c.resolve(src_width, src_height);
            (
                if cw == 0 {
                    src_width
                } else if cw < src_width {
                    cw
                } else {
                    src_width
                },
                if ch == 0 {
                    src_height
                } else if ch < src_height {
                    ch
                } else {
                    src_height
                },
            )
        },
        None => (src_width, src_height),
    };
    let d = o.dpr_factor();
    let z = o.zoom_factors().max_factor();
    assert(d.nanos * z.nanos <= i64::MAX * i64::MAX) by (nonlinear_arith)
        requires
            0 < d.nanos <= i64::MAX,
            0 < z.nanos <= i64::MAX,
    ;
    let grow: u128 = d.nanos as u128 * z.nanos as u128;
    assert(grow == growth(o@));
    let forced = resize.resizing_type.fills_zero_axis_from_source();
    let tw = capped_target(forced, resize.width, aw, o.min_width, grow);
    let th = capped_target(forced, resize.height, ah, o.min_height, grow);
    Some((aw, tw, ah, th))
}

/// How much larger the source is than what the request needs; `None` means
/// decode it whole.
///
/// `raw` returns the source untouched, a trim removes an unknown number of
/// pixels, and without a resize there is no target. A crop runs before the
/// resize, so the pixels that have to survive are the crop region. The ratio
/// is the least any counted axis allows, and below one and a half it is not
/// worth the divergence.
pub fn load_shrink_ratio(parsed_options: &ParsedOptions, src_width: u32, src_height: u32) -> (r: Option<
    ShrinkRatio,
>)
    ensures
        match shrink_ratio(parsed_options@, src_width, src_height) {
            Some((a, t)) => r matches Some(s) && s.available == a && s.target == t,
            None => r is None,
        },
{
    let axes = axes_of(parsed_options, src_width, src_height);
    let ghost ax = shrink_axes(parsed_options@, src_width, src_height)->0;
    match axes {
        None => None,
        Some((aw, tw, ah, th)) => {
            proof {
                lemma_capped_agrees(aw as nat, ax.1, tw as int, 3, 2);
                lemma_capped_agrees(ah as nat, ax.3, th as int, 3, 2);
            }
            let fits_w = tw < UNIT || 3 * tw <= 2 * (aw as u128) * UNIT;
            let fits_h = th < UNIT || 3 * th <= 2 * (ah as u128) * UNIT;
            if !((tw >= UNIT || th >= UNIT) && fits_w && fits_h) {
                return None;
            }
            proof {
                assert(2 * (aw as int) * UNIT < TARGET_CAP);
                assert(2 * (ah as int) * UNIT < TARGET_CAP);
            }
            assert((aw as u128) * th <= u32::MAX * TARGET_CAP) by (nonlinear_arith)
                requires
                    aw <= u32::MAX,
                    th <= TARGET_CAP,
            ;
            assert((ah as u128) * tw <= u32::MAX * TARGET_CAP) by (nonlinear_arith)
                requires
                    ah <= u32::MAX,
                    tw <= TARGET_CAP,
            ;
            if tw >= UNIT && (th < UNIT || (aw as u128) * th <= (ah as u128) * tw) {
                Some(ShrinkRatio { available: aw, target: tw })
            } else {
                Some(ShrinkRatio { available: ah, target: th })
            }
        },
    }
}

/// Power-of-two shrink for the JPEG loader, or 1 to decode at full size.
pub fn load_shrink_factor(parsed_options: &ParsedOptions, src_width: u32, src_height: u32) -> (r: u32)
    ensures
        r == shrink_factor(parsed_options@, src_width, src_height),
        r == 1 || r == 2 || r == 4 || r == 8,
{
    let axes = axes_of(parsed_options, src_width, src_height);
    let ghost ax = shrink_axes(parsed_options@, src_width, src_height)->0;
    match axes {
        None => 1,
        Some((aw, tw, ah, th)) => {
            proof {
                lemma_capped_agrees(aw as nat, ax.1, tw as int, 3, 2);
                lemma_capped_agrees(ah as nat, ax.3, th as int, 3, 2);
                lemma_capped_agrees(aw as nat, ax.1, tw as int, 2, 1);
                lemma_capped_agrees(ah as nat, ax.3, th as int, 2, 1);
                lemma_capped_agrees(aw as nat, ax.1, tw as int, 4, 1);
                lemma_capped_agrees(ah as nat, ax.3, th as int, 4, 1);
                lemma_capped_agrees(aw as nat, ax.1, tw as int, 8, 1);
                lemma_capped_agrees(ah as nat, ax.3, th as int, 8, 1);
            }
            let worth = (tw >= UNIT || th >= UNIT) && (tw < UNIT || 3 * tw <= 2 * (aw as u128)
                * UNIT) && (th < UNIT || 3 * th <= 2 * (ah as u128) * UNIT);
            if !worth {
                return 1;
            }
            let mut factor: u32 = 1;
            loop
                invariant
                    factor == 1 || factor == 2 || factor == 4 || factor == 8,
                    tw <= TARGET_CAP,
                    th <= TARGET_CAP,
                    factor >= 2 ==> ratio_at_least(ax, 2, 1),
                    factor >= 4 ==> ratio_at_least(ax, 4, 1),
                    factor >= 8 ==> ratio_at_least(ax, 8, 1),
                    ratio_at_least(ax, 2, 1) == (axis_fits(aw as nat, tw as int, 2, 1)
                        && axis_fits(ah as nat, th as int, 2, 1)),
                    ratio_at_least(ax, 4, 1) == (axis_fits(aw as nat, tw as int, 4, 1)
                        && axis_fits(ah as nat, th as int, 4, 1)),
                    ratio_at_least(ax, 8, 1) == (axis_fits(aw as nat, tw as int, 8, 1)
                        && axis_fits(ah as nat, th as int, 8, 1)),
                ensures
                    factor == 1 || factor == 2 || factor == 4 || factor == 8,
                    factor >= 2 ==> ratio_at_least(ax, 2, 1),
                    factor >= 4 ==> ratio_at_least(ax, 4, 1),
                    factor >= 8 ==> ratio_at_least(ax, 8, 1),
                    factor == 1 ==> !ratio_at_least(ax, 2, 1),
                    factor == 2 ==> !ratio_at_least(ax, 4, 1),
                    factor == 4 ==> !ratio_at_least(ax, 8, 1),
                decreases 8 - factor,
            {
                if factor * 2 > MAX_LOAD_SHRINK {
                    break;
                }
                let next: u128 = (factor * 2) as u128;
                assert(next * tw <= 16 * TARGET_CAP) by (nonlinear_arith)
                    requires
                        next <= 16,
                        tw <= TARGET_CAP,
                ;
                assert(next * th <= 16 * TARGET_CAP) by (nonlinear_arith)
                    requires
                        next <= 16,
                        th <= TARGET_CAP,
                ;
                let fits = (tw < UNIT || next * tw <= (aw as u128) * UNIT) && (th < UNIT || next
                    * th <= (ah as u128) * UNIT);
                if !fits {
                    break;
                }
                factor = factor * 2;
            }
            factor
        },
    }
}

/// A shrink never undershoots the target: when the loader is asked to shrink
/// by more than one, the source shrunk by that factor is still at least as
/// large as the target on every axis that counts.
pub proof fn lemma_shrink_never_undershoots(o: ParsedOptionsView, src_w: u32, src_h: u32)
    ensures
        shrink_factor(o, src_w, src_h) > 1 ==> (shrink_axes(o, src_w, src_h) matches Some(ax)
            && ratio_at_least(ax, shrink_factor(o, src_w, src_h) as int, 1)),
{
}

/// Nothing is shrunk on load for a raw request, under a trim, or without a
/// resize.
pub proof fn lemma_no_shrink_without_a_target(o: ParsedOptionsView, src_w: u32, src_h: u32)
    requires
        o.raw || o.trim is Some || o.resize is None,
    ensures
        shrink_factor(o, src_w, src_h) == 1,
        shrink_ratio(o, src_w, src_h) is None,
{
}

} // verus!
