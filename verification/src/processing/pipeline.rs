//! The ordered sequence of transformations applied to a single frame.
//!
//! Which operations a frame goes through, with which arguments and in which
//! order, follows from the parsed options alone; [`frame_steps`] decides it.
//! Whoever holds the pixels runs the steps in order, resolving the resize
//! target against the frame's size at that point and keeping it in
//! [`FrameTargets`] for the extend steps that follow.

use crate::numbers::Fixed;
use crate::processing::options::apply::{at_least_one, ParsedOptions, ParsedOptionsView};
use crate::processing::options::effects::{is_unit_factor, Adjust, Watermark, Zoom};
use crate::processing::options::geometry::{
    Crop, Flip, Gravity, GravityType, Resize, ResizingType, Trim,
};
use crate::processing::transform::TransformError;
use vstd::prelude::*;

verus! {

/// Errors produced while transforming a frame.
#[derive(Debug)]
#[non_exhaustive]
pub enum PipelineError {
    Transform(TransformError),
}

/// The dimensions the resize was asked for, kept so the padding steps that run
/// after it know what box the image was meant to fill.
#[derive(Debug, Clone, Copy)]
pub struct FrameTargets {
    pub resize: Option<(u32, u32)>,
}

impl Default for FrameTargets {
    fn default() -> (r: Self)
        ensures
            r.resize is None,
    {
        FrameTargets { resize: None }
    }
}

/// One operation on a frame, with everything it needs from the options.
#[derive(Debug, Clone, Copy, PartialEq, Eq)]
pub enum FrameStep {
    /// Remove uniform borders.
    Trim(Trim),
    /// Cut a region, placed by the gravity.
    Crop(Crop, Gravity),
    /// Resize to the resolved target; the fill window is placed by the
    /// gravity, and `enlarge` says whether a smaller source may grow.
    Resize { resize: Resize, gravity: Gravity, enlarge: bool, dpr: Fixed },
    /// Grow the frame to at least these dimensions.
    MinDimensions { min_width: Option<u32>, min_height: Option<u32> },
    /// Scale by these factors.
    Zoom(Zoom),
    /// Pad out to the resize target.
    Extend { gravity: Gravity, dpr: Fixed },
    /// Pad out to the resize target's aspect ratio.
    ExtendAspectRatio { gravity: Gravity, dpr: Fixed },
    /// Pad by (top, right, bottom, left).
    Padding(u32, u32, u32, u32),
    /// Rotate by this many degrees.
    Rotate(u16),
    /// Mirror.
    Flip(Flip),
    /// Change brightness, contrast and saturation.
    Adjust(Adjust),
    /// Gaussian blur with this sigma.
    Blur(Fixed),
    /// Sharpen with this sigma.
    Sharpen(Fixed),
    /// Pixelate in blocks of this size.
    Pixelate(u32),
    /// Overlay the watermark.
    Watermark(Watermark),
}

/// One step when `present`, none otherwise.
pub open spec fn step_when(present: bool, s: FrameStep) -> Seq<FrameStep> {
    if present {
        seq![s]
    } else {
        Seq::empty()
    }
}

/// The pixel ratio in effect, never below one.
pub open spec fn ratio_of(o: ParsedOptionsView) -> Fixed {
    at_least_one(
        match o.dpr {
            Some(d) => d,
            None => Fixed { nanos: 1_000_000_000 },
        },
    )
}

/// The gravity a fill window and an extend default to.
pub open spec fn centre() -> Gravity {
    Gravity::spec_new(GravityType::Center)
}

/// The crop's own gravity, else the request's, else centre.
pub open spec fn crop_gravity_of(o: ParsedOptionsView) -> Gravity {
    match o.crop {
        Some(c) if c.gravity is Some => c.gravity->0,
        _ => match o.gravity {
            Some(g) => g,
            None => centre(),
        },
    }
}

/// The request's gravity, else centre.
pub open spec fn fill_gravity_of(o: ParsedOptionsView) -> Gravity {
    match o.gravity {
        Some(g) => g,
        None => centre(),
    }
}

/// The zoom in effect.
pub open spec fn zoom_of(o: ParsedOptionsView) -> Zoom {
    match o.zoom {
        Some(z) => z,
        None => Zoom::spec_default(),
    }
}

/// The steps that shape the frame, in order: trim, crop, resize, minimum
/// dimensions and zoom.
pub open spec fn shape_steps(o: ParsedOptionsView) -> Seq<FrameStep> {
    step_when(o.trim is Some, FrameStep::Trim(o.trim->0)) + step_when(
        o.crop is Some,
        FrameStep::Crop(o.crop->0, crop_gravity_of(o)),
    ) + step_when(
        o.resize is Some,
        FrameStep::Resize {
            resize: o.resize->0,
            gravity: fill_gravity_of(o),
            enlarge: o.enlarge,
            dpr: ratio_of(o),
        },
    ) + step_when(
        o.min_width is Some || o.min_height is Some,
        FrameStep::MinDimensions { min_width: o.min_width, min_height: o.min_height },
    ) + step_when(
        !(is_unit_factor(zoom_of(o).x) && is_unit_factor(zoom_of(o).y)),
        FrameStep::Zoom(zoom_of(o)),
    )
}

/// The steps that border and orient the frame, in order: extend, extend to
/// aspect ratio, padding, rotation and flip.
pub open spec fn border_steps(o: ParsedOptionsView) -> Seq<FrameStep> {
    let pad = o.padding->0;
    let forced = o.resize matches Some(r) && r.resizing_type == ResizingType::Force;
    step_when(
        o.resize is Some && o.extend.enabled,
        FrameStep::Extend {
            gravity: match o.extend.gravity {
                Some(g) => g,
                None => centre(),
            },
            dpr: ratio_of(o),
        },
    ) + step_when(
        o.resize is Some && o.extend_aspect_ratio.enabled && !forced,
        FrameStep::ExtendAspectRatio {
            gravity: match o.extend_aspect_ratio.gravity {
                Some(g) => g,
                None => centre(),
            },
            dpr: ratio_of(o),
        },
    ) + step_when(o.padding is Some, FrameStep::Padding(pad.0, pad.1, pad.2, pad.3)) + step_when(
        o.rotation is Some,
        FrameStep::Rotate(o.rotation->0),
    ) + step_when(o.flip is Some, FrameStep::Flip(o.flip->0))
}

/// The pixel steps, in order: colour adjustment, blur, sharpen, pixelate and
/// the watermark, which needs a watermark image to overlay.
pub open spec fn pixel_steps(o: ParsedOptionsView, has_watermark: bool) -> Seq<FrameStep> {
    let adjusts = o.adjust matches Some(a) && !(a.brightness == 0 && is_unit_factor(a.contrast)
        && is_unit_factor(a.saturation));
    step_when(adjusts, FrameStep::Adjust(o.adjust->0)) + step_when(
        o.blur is Some,
        FrameStep::Blur(o.blur->0),
    ) + step_when(o.sharpen is Some, FrameStep::Sharpen(o.sharpen->0)) + step_when(
        o.pixelate is Some,
        FrameStep::Pixelate(o.pixelate->0),
    ) + step_when(o.watermark is Some && has_watermark, FrameStep::Watermark(o.watermark->0))
}

/// Every step a frame goes through, in the order they run.
pub open spec fn frame_plan(o: ParsedOptionsView, has_watermark: bool) -> Seq<FrameStep> {
    shape_steps(o) + border_steps(o) + pixel_steps(o, has_watermark)
}

fn push_when(steps: &mut Vec<FrameStep>, present: bool, s: FrameStep)
    ensures
        final(steps)@ == old(steps)@ + step_when(present, s),
{
    if present {
        steps.push(s);
    }
    assert(final(steps)@ =~= old(steps)@ + step_when(present, s));
}

/// A step that carries a value only some options hold.
fn push_some(steps: &mut Vec<FrameStep>, s: Option<FrameStep>)
    ensures
        final(steps)@ == old(steps)@ + match s {
            Some(x) => seq![x],
            None => Seq::<FrameStep>::empty(),
        },
{
    match s {
        Some(x) => steps.push(x),
        None => {},
    }
    assert(final(steps)@ =~= old(steps)@ + match s {
        Some(x) => seq![x],
        None => Seq::<FrameStep>::empty(),
    });
}

fn shape_steps_of(options: &ParsedOptions) -> (r: Vec<FrameStep>)
    ensures
        r@ == shape_steps(options@),
{
    let ghost o = options@;
    let mut steps: Vec<FrameStep> = Vec::new();
    let trim = match options.trim {
        Some(t) => Some(FrameStep::Trim(t)),
        None => None,
    };
    push_some(&mut steps, trim);
    assert(steps@ =~= step_when(o.trim is Some, FrameStep::Trim(o.trim->0)));
    let ghost s1 = steps@;
    let crop = match options.crop {
        Some(c) => Some(FrameStep::Crop(c, options.crop_gravity())),
        None => None,
    };
    push_some(&mut steps, crop);
    assert(steps@ =~= s1 + step_when(o.crop is Some, FrameStep::Crop(o.crop->0, crop_gravity_of(o))));
    let ghost s2 = steps@;
    let resize = match options.resize {
        Some(r) => Some(
            FrameStep::Resize {
                resize: r,
                gravity: options.fill_gravity(),
                enlarge: options.enlarge,
                dpr: options.dpr_factor(),
            },
        ),
        None => None,
    };
    push_some(&mut steps, resize);
    assert(steps@ =~= s2 + step_when(
        o.resize is Some,
        FrameStep::Resize {
            resize: o.resize->0,
            gravity: fill_gravity_of(o),
            enlarge: o.enlarge,
            dpr: ratio_of(o),
        },
    ));
    push_when(
        &mut steps,
        options.min_width.is_some() || options.min_height.is_some(),
        FrameStep::MinDimensions { min_width: options.min_width, min_height: options.min_height },
    );
    let zoom = options.zoom_factors();
    push_when(&mut steps, !zoom.is_identity(), FrameStep::Zoom(zoom));
    steps
}

fn border_steps_of(options: &ParsedOptions) -> (r: Vec<FrameStep>)
    ensures
        r@ == border_steps(options@),
{
    let ghost o = options@;
    let dpr = options.dpr_factor();
    let forced = match options.resize {
        Some(r) => r.resizing_type == ResizingType::Force,
        None => false,
    };
    let mut steps: Vec<FrameStep> = Vec::new();
    let extend_gravity = match options.extend.gravity {
        Some(g) => g,
        None => Gravity::new(GravityType::Center),
    };
    push_when(
        &mut steps,
        options.resize.is_some() && options.extend.enabled,
        FrameStep::Extend { gravity: extend_gravity, dpr },
    );
    assert(steps@ =~= Seq::<FrameStep>::empty() + step_when(
        o.resize is Some && o.extend.enabled,
        FrameStep::Extend {
            gravity: match o.extend.gravity {
                Some(g) => g,
                None => centre(),
            },
            dpr: ratio_of(o),
        },
    ));
    let aspect_gravity = match options.extend_aspect_ratio.gravity {
        Some(g) => g,
        None => Gravity::new(GravityType::Center),
    };
    push_when(
        &mut steps,
        options.resize.is_some() && options.extend_aspect_ratio.enabled && !forced,
        FrameStep::ExtendAspectRatio { gravity: aspect_gravity, dpr },
    );
    let ghost s2 = steps@;
    let ghost pad = o.padding->0;
    let padding = match options.padding {
        Some((top, right, bottom, left)) => Some(FrameStep::Padding(top, right, bottom, left)),
        None => None,
    };
    push_some(&mut steps, padding);
    assert(steps@ =~= s2 + step_when(o.padding is Some, FrameStep::Padding(pad.0, pad.1, pad.2, pad.3)));
    let ghost s3 = steps@;
    let rotation = match options.rotation {
        Some(d) => Some(FrameStep::Rotate(d)),
        None => None,
    };
    push_some(&mut steps, rotation);
    assert(steps@ =~= s3 + step_when(o.rotation is Some, FrameStep::Rotate(o.rotation->0)));
    let ghost s4 = steps@;
    let flip = match options.flip {
        Some(f) => Some(FrameStep::Flip(f)),
        None => None,
    };
    push_some(&mut steps, flip);
    assert(steps@ =~= s4 + step_when(o.flip is Some, FrameStep::Flip(o.flip->0)));
    steps
}

fn pixel_steps_of(options: &ParsedOptions, has_watermark: bool) -> (r: Vec<FrameStep>)
    ensures
        r@ == pixel_steps(options@, has_watermark),
{
    let ghost o = options@;
    let mut steps: Vec<FrameStep> = Vec::new();
    let adjust = match options.adjust {
        Some(a) => if !a.is_identity() {
            Some(FrameStep::Adjust(a))
        } else {
            None
        },
        None => None,
    };
    push_some(&mut steps, adjust);
    assert(steps@ =~= step_when(
        o.adjust matches Some(a) && !(a.brightness == 0 && is_unit_factor(a.contrast)
            && is_unit_factor(a.saturation)),
        FrameStep::Adjust(o.adjust->0),
    ));
    let ghost s1 = steps@;
    let blur = match options.blur {
        Some(b) => Some(FrameStep::Blur(b)),
        None => None,
    };
    push_some(&mut steps, blur);
    assert(steps@ =~= s1 + step_when(o.blur is Some, FrameStep::Blur(o.blur->0)));
    let ghost s2 = steps@;
    let sharpen = match options.sharpen {
        Some(b) => Some(FrameStep::Sharpen(b)),
        None => None,
    };
    push_some(&mut steps, sharpen);
    assert(steps@ =~= s2 + step_when(o.sharpen is Some, FrameStep::Sharpen(o.sharpen->0)));
    let ghost s3 = steps@;
    let pixelate = match options.pixelate {
        Some(p) => Some(FrameStep::Pixelate(p)),
        None => None,
    };
    push_some(&mut steps, pixelate);
    assert(steps@ =~= s3 + step_when(o.pixelate is Some, FrameStep::Pixelate(o.pixelate->0)));
    let ghost s4 = steps@;
    let watermark = match options.watermark {
        Some(w) => if has_watermark {
            Some(FrameStep::Watermark(w))
        } else {
            None
        },
        None => None,
    };
    push_some(&mut steps, watermark);
    assert(steps@ =~= s4 + step_when(
        o.watermark is Some && has_watermark,
        FrameStep::Watermark(o.watermark->0),
    ));
    steps
}

/// Every operation a frame goes through, in the order imgproxy applies them.
///
/// Trim runs before anything that depends on the frame's extent, and the crop
/// before the resize. The extend steps need a resize target; `force` already
/// hits its box exactly, so it is never extended to an aspect ratio. The
/// watermark is overlaid only when a watermark image is at hand.
pub fn frame_steps(options: &ParsedOptions, has_watermark: bool) -> (r: Vec<FrameStep>)
    ensures
        r@ == frame_plan(options@, has_watermark),
{
    let mut steps = shape_steps_of(options);
    let mut border = border_steps_of(options);
    let mut pixel = pixel_steps_of(options, has_watermark);
    steps.append(&mut border);
    steps.append(&mut pixel);
    steps
}

/// How many copies of a `tile`-long side cover an `extent`: the extent
/// divided by the tile, rounded up.
pub fn tile_count(extent: u32, tile: u32) -> (r: u32)
    requires
        tile > 0,
    ensures
        r == (extent + tile - 1) / (tile as int),
        r as int * tile >= extent,
{
    let n: u64 = (extent as u64 + tile as u64 - 1) / tile as u64;
    assert(n * tile >= extent) by (nonlinear_arith)
        requires
            n == (extent + tile - 1) / (tile as int),
            tile > 0,
    ;
    assert(n <= extent) by (nonlinear_arith)
        requires
            n == (extent + tile - 1) / (tile as int),
            tile > 0,
    ;
    n as u32
}

/// Whether some step of a plan colour-adjusts the frame.
#[verifier::opaque]
pub open spec fn has_adjust(s: Seq<FrameStep>) -> bool {
    exists|i: int| 0 <= i < s.len() && (#[trigger] s[i]) is Adjust
}

/// Whether every colour adjustment in a plan is `a`.
#[verifier::opaque]
pub open spec fn adjusts_only_by(s: Seq<FrameStep>, a: Adjust) -> bool {
    forall|i: int| 0 <= i < s.len() && (#[trigger] s[i]) is Adjust ==> s[i] == FrameStep::Adjust(a)
}

proof fn lemma_adjust_concat(x: Seq<FrameStep>, y: Seq<FrameStep>, a: Adjust)
    ensures
        has_adjust(x + y) == (has_adjust(x) || has_adjust(y)),
        adjusts_only_by(x + y, a) == (adjusts_only_by(x, a) && adjusts_only_by(y, a)),
{
    reveal(has_adjust);
    reveal(adjusts_only_by);
    let z = x + y;
    if has_adjust(x) {
        let i = choose|i: int| 0 <= i < x.len() && (#[trigger] x[i]) is Adjust;
        assert(z[i] == x[i]);
    }
    if has_adjust(y) {
        let i = choose|i: int| 0 <= i < y.len() && (#[trigger] y[i]) is Adjust;
        assert(z[x.len() + i] == y[i]);
    }
    if has_adjust(z) {
        let i = choose|i: int| 0 <= i < z.len() && (#[trigger] z[i]) is Adjust;
        if i < x.len() {
            assert(z[i] == x[i]);
        } else {
            assert(z[i] == y[i - x.len()]);
        }
    }
    if adjusts_only_by(x, a) && adjusts_only_by(y, a) {
        assert forall|i: int| 0 <= i < z.len() && (#[trigger] z[i]) is Adjust implies z[i] == FrameStep::Adjust(a) by {
            if i < x.len() {
                assert(z[i] == x[i]);
            } else {
                assert(z[i] == y[i - x.len()]);
            }
        }
    }
    if adjusts_only_by(z, a) {
        assert forall|i: int| 0 <= i < x.len() && (#[trigger] x[i]) is Adjust implies x[i] == FrameStep::Adjust(a) by {
            assert(z[i] == x[i]);
        }
        assert forall|i: int| 0 <= i < y.len() && (#[trigger] y[i]) is Adjust implies y[i] == FrameStep::Adjust(a) by {
            assert(z[x.len() + i] == y[i]);
        }
    }
}

proof fn lemma_adjust_step(present: bool, s: FrameStep, a: Adjust)
    ensures
        has_adjust(step_when(present, s)) == (present && s is Adjust),
        adjusts_only_by(step_when(present, s), a) == (!(present && s is Adjust) || s
            == FrameStep::Adjust(a)),
{
    reveal(has_adjust);
    reveal(adjusts_only_by);
    if present {
        assert(step_when(present, s)[0] == s);
    }
}

proof fn lemma_shape_steps_do_not_adjust(o: ParsedOptionsView, a: Adjust)
    ensures
        !has_adjust(shape_steps(o)),
        adjusts_only_by(shape_steps(o), a),
{
    let t1 = step_when(o.trim is Some, FrameStep::Trim(o.trim->0));
    let t2 = step_when(o.crop is Some, FrameStep::Crop(o.crop->0, crop_gravity_of(o)));
    let t3 = step_when(
        o.resize is Some,
        FrameStep::Resize {
            resize: o.resize->0,
            gravity: fill_gravity_of(o),
            enlarge: o.enlarge,
            dpr: ratio_of(o),
        },
    );
    let t4 = step_when(
        o.min_width is Some || o.min_height is Some,
        FrameStep::MinDimensions { min_width: o.min_width, min_height: o.min_height },
    );
    let t5 = step_when(
        !(is_unit_factor(zoom_of(o).x) && is_unit_factor(zoom_of(o).y)),
        FrameStep::Zoom(zoom_of(o)),
    );
    assert(shape_steps(o) == t1 + t2 + t3 + t4 + t5);
    lemma_adjust_step(o.trim is Some, FrameStep::Trim(o.trim->0), a);
    lemma_adjust_step(o.crop is Some, FrameStep::Crop(o.crop->0, crop_gravity_of(o)), a);
    lemma_adjust_step(
        o.resize is Some,
        FrameStep::Resize {
            resize: o.resize->0,
            gravity: fill_gravity_of(o),
            enlarge: o.enlarge,
            dpr: ratio_of(o),
        },
        a,
    );
    lemma_adjust_step(
        o.min_width is Some || o.min_height is Some,
        FrameStep::MinDimensions { min_width: o.min_width, min_height: o.min_height },
        a,
    );
    lemma_adjust_step(
        !(is_unit_factor(zoom_of(o).x) && is_unit_factor(zoom_of(o).y)),
        FrameStep::Zoom(zoom_of(o)),
        a,
    );
    lemma_adjust_concat(t1, t2, a);
    lemma_adjust_concat(t1 + t2, t3, a);
    lemma_adjust_concat(t1 + t2 + t3, t4, a);
    lemma_adjust_concat(t1 + t2 + t3 + t4, t5, a);
}

proof fn lemma_border_steps_do_not_adjust(o: ParsedOptionsView, a: Adjust)
    ensures
        !has_adjust(border_steps(o)),
        adjusts_only_by(border_steps(o), a),
{
    let pad = o.padding->0;
    let forced = o.resize matches Some(r) && r.resizing_type == ResizingType::Force;
    let b1 = step_when(
        o.resize is Some && o.extend.enabled,
        FrameStep::Extend {
            gravity: match o.extend.gravity {
                Some(g) => g,
                None => centre(),
            },
            dpr: ratio_of(o),
        },
    );
    let b2 = step_when(
        o.resize is Some && o.extend_aspect_ratio.enabled && !forced,
        FrameStep::ExtendAspectRatio {
            gravity: match o.extend_aspect_ratio.gravity {
                Some(g) => g,
                None => centre(),
            },
            dpr: ratio_of(o),
        },
    );
    let b3 = step_when(o.padding is Some, FrameStep::Padding(pad.0, pad.1, pad.2, pad.3));
    let b4 = step_when(o.rotation is Some, FrameStep::Rotate(o.rotation->0));
    let b5 = step_when(o.flip is Some, FrameStep::Flip(o.flip->0));
    assert(border_steps(o) == b1 + b2 + b3 + b4 + b5);
    lemma_adjust_step(
        o.resize is Some && o.extend.enabled,
        FrameStep::Extend {
            gravity: match o.extend.gravity {
                Some(g) => g,
                None => centre(),
            },
            dpr: ratio_of(o),
        },
        a,
    );
    lemma_adjust_step(
        o.resize is Some && o.extend_aspect_ratio.enabled && !forced,
        FrameStep::ExtendAspectRatio {
            gravity: match o.extend_aspect_ratio.gravity {
                Some(g) => g,
                None => centre(),
            },
            dpr: ratio_of(o),
        },
        a,
    );
    lemma_adjust_step(o.padding is Some, FrameStep::Padding(pad.0, pad.1, pad.2, pad.3), a);
    lemma_adjust_step(o.rotation is Some, FrameStep::Rotate(o.rotation->0), a);
    lemma_adjust_step(o.flip is Some, FrameStep::Flip(o.flip->0), a);
    lemma_adjust_concat(b1, b2, a);
    lemma_adjust_concat(b1 + b2, b3, a);
    lemma_adjust_concat(b1 + b2 + b3, b4, a);
    lemma_adjust_concat(b1 + b2 + b3 + b4, b5, a);
}

proof fn lemma_pixel_steps_adjust(o: ParsedOptionsView, w: bool, a: Adjust)
    ensures
        has_adjust(pixel_steps(o, w)) == (o.adjust matches Some(x) && !x.spec_is_identity()),
        o.adjust == Some(a) ==> adjusts_only_by(pixel_steps(o, w), a),
{
    let adjusts = o.adjust matches Some(x) && !(x.brightness == 0 && is_unit_factor(x.contrast)
        && is_unit_factor(x.saturation));
    let p1 = step_when(adjusts, FrameStep::Adjust(o.adjust->0));
    let p2 = step_when(o.blur is Some, FrameStep::Blur(o.blur->0));
    let p3 = step_when(o.sharpen is Some, FrameStep::Sharpen(o.sharpen->0));
    let p4 = step_when(o.pixelate is Some, FrameStep::Pixelate(o.pixelate->0));
    let p5 = step_when(o.watermark is Some && w, FrameStep::Watermark(o.watermark->0));
    assert(pixel_steps(o, w) == p1 + p2 + p3 + p4 + p5);
    lemma_adjust_step(adjusts, FrameStep::Adjust(o.adjust->0), a);
    lemma_adjust_step(o.blur is Some, FrameStep::Blur(o.blur->0), a);
    lemma_adjust_step(o.sharpen is Some, FrameStep::Sharpen(o.sharpen->0), a);
    lemma_adjust_step(o.pixelate is Some, FrameStep::Pixelate(o.pixelate->0), a);
    lemma_adjust_step(o.watermark is Some && w, FrameStep::Watermark(o.watermark->0), a);
    lemma_adjust_concat(p1, p2, a);
    lemma_adjust_concat(p1 + p2, p3, a);
    lemma_adjust_concat(p1 + p2 + p3, p4, a);
    lemma_adjust_concat(p1 + p2 + p3 + p4, p5, a);
}

/// A frame is colour-adjusted exactly when the request carries an adjustment
/// that is not the identity (as `Adjust::is_identity` says), and only by that
/// adjustment.
pub proof fn lemma_adjust_step_iff_not_identity(o: ParsedOptionsView, has_watermark: bool, a: Adjust)
    ensures
        has_adjust(frame_plan(o, has_watermark)) == (o.adjust matches Some(x) && !x.spec_is_identity()),
        o.adjust == Some(a) ==> adjusts_only_by(frame_plan(o, has_watermark), a),
{
    lemma_shape_steps_do_not_adjust(o, a);
    lemma_border_steps_do_not_adjust(o, a);
    lemma_pixel_steps_adjust(o, has_watermark, a);
    lemma_adjust_concat(shape_steps(o), border_steps(o), a);
    lemma_adjust_concat(shape_steps(o) + border_steps(o), pixel_steps(o, has_watermark), a);
}

} // verus!
