//! What happens to a request's options between the URL and the encoder.

pub mod utils;
pub mod options;
pub mod save;
pub mod presets;
pub mod transform;
pub mod animation;
pub mod metadata;
pub mod scale_on_load;
pub mod pipeline;
pub mod colorspace;

use crate::numbers::Fixed;
use crate::processing::options::apply::{at_least_one, ParsedOptions, ParsedOptionsView};
use crate::processing::pipeline::PipelineError;
use crate::processing::save::{format_of, SaveError};
use crate::processing::transform::TransformError;
use vstd::prelude::*;

verus! {

/// Errors produced by the image processing pipeline.
#[derive(Debug)]
#[non_exhaustive]
pub enum ProcessingError {
    Transform(TransformError),
    Save(SaveError),
    /// The processed image would exceed the result dimension limit.
    ResultTooLarge { width: i32, height: i32, limit: u32 },
    /// An animation frame exceeds the per-frame pixel limit.
    FrameTooLarge { width: i32, height: i32, limit: u64 },
}

impl From<PipelineError> for ProcessingError {
    fn from(error: PipelineError) -> (r: Self) {
        match error {
            PipelineError::Transform(e) => ProcessingError::Transform(e),
        }
    }
}

impl vstd::std_specs::convert::FromSpecImpl<PipelineError> for ProcessingError {
    open spec fn obeys_from_spec() -> bool {
        true
    }

    open spec fn from_spec(v: PipelineError) -> ProcessingError {
        match v {
            PipelineError::Transform(e) => ProcessingError::Transform(e),
        }
    }
}

/// `size * ratio`, rounded half up and held to what a `u32` can say.
pub open spec fn scaled_by(size: u32, ratio: Fixed) -> u32 {
    let r = (2 * size * ratio.nanos + 1_000_000_000) / 2_000_000_000;
    if r > u32::MAX {
        u32::MAX
    } else {
        r as u32
    }
}

/// Options after the pixel ratio is applied: above one, it scales the resize
/// target and the padding, which are requested geometry rather than result.
pub open spec fn dpr_applied(o: ParsedOptionsView) -> ParsedOptionsView {
    let d = at_least_one(
        match o.dpr {
            Some(d) => d,
            None => Fixed { nanos: 1_000_000_000 },
        },
    );
    if d.nanos <= 1_000_000_000 {
        o
    } else {
        let p = o.padding->0;
        ParsedOptionsView {
            resize: match o.resize {
                Some(r) => Some(
                    crate::processing::options::geometry::Resize {
                        width: scaled_by(r.width, d),
                        height: scaled_by(r.height, d),
                        ..r
                    },
                ),
                None => None,
            },
            padding: match o.padding {
                Some(_) => Some(
                    (scaled_by(p.0, d), scaled_by(p.1, d), scaled_by(p.2, d), scaled_by(p.3, d)),
                ),
                None => None,
            },
            ..o
        }
    }
}

fn scale_size(size: u32, ratio: Fixed) -> (r: u32)
    requires
        ratio.nanos > 1_000_000_000,
    ensures
        r == scaled_by(size, ratio),
{
    assert(2 * (size as int) * (ratio.nanos as int) <= 2 * u32::MAX * i64::MAX) by (nonlinear_arith)
        requires
            size <= u32::MAX,
            0 < ratio.nanos <= i64::MAX,
    ;
    let r: u128 = (2 * (size as u128) * (ratio.nanos as u128) + 1_000_000_000) / 2_000_000_000;
    if r > u32::MAX as u128 {
        u32::MAX
    } else {
        r as u32
    }
}

/// Scales everything the device pixel ratio applies to.
///
/// DPR multiplies the requested geometry rather than the result, so it lands
/// on the resize target and the padding before either is used.
pub fn apply_dpr(parsed_options: &mut ParsedOptions)
    ensures
        final(parsed_options)@ == dpr_applied(old(parsed_options)@),
{
    let dpr = parsed_options.dpr_factor();
    if dpr.nanos <= 1_000_000_000 {
        return;
    }
    match parsed_options.resize {
        Some(r) => {
            parsed_options.resize = Some(
                crate::processing::options::geometry::Resize {
                    width: scale_size(r.width, dpr),
                    height: scale_size(r.height, dpr),
                    ..r
                },
            );
        },
        None => {},
    }
    match parsed_options.padding {
        Some((top, right, bottom, left)) => {
            parsed_options.padding = Some(
                (
                    scale_size(top, dpr),
                    scale_size(right, dpr),
                    scale_size(bottom, dpr),
                    scale_size(left, dpr),
                ),
            );
        },
        None => {},
    }
}

/// The pixels in a frame of `width` by `height`, a negative side counting as
/// zero.
pub open spec fn frame_pixels(width: i32, height: i32) -> int {
    let w: int = if width < 0 {
        0
    } else {
        width as int
    };
    let h: int = if height < 0 {
        0
    } else {
        height as int
    };
    w * h
}

/// Rejects an animation whose individual frames are too large.
///
/// `frame_count` frames were split from the source and the first measures
/// `first_frame`; `source_is_animated` says whether the source itself carries
/// more than one page, which only matters when one frame is in hand: a single
/// frame cut from an animation is still an animation frame.
pub fn enforce_frame_limit(
    parsed_options: &ParsedOptions,
    frame_count: usize,
    first_frame: Option<(i32, i32)>,
    source_is_animated: bool,
) -> (r: Result<(), ProcessingError>)
    ensures
        match (parsed_options@.max_animation_frame_resolution, first_frame) {
            (Some(limit), Some((w, h))) => if (frame_count <= 1 && !source_is_animated)
                || frame_pixels(w, h) <= limit {
                r is Ok
            } else {
                r matches Err(ProcessingError::FrameTooLarge { width, height, limit: l }) && width
                    == w && height == h && l == limit
            },
            _ => r is Ok,
        },
{
    let limit = match parsed_options.max_animation_frame_resolution {
        Some(l) => l,
        None => {
            return Ok(());
        },
    };
    let (width, height) = match first_frame {
        Some(f) => f,
        None => {
            return Ok(());
        },
    };
    if frame_count <= 1 && !source_is_animated {
        return Ok(());
    }
    let w: u64 = if width < 0 {
        0
    } else {
        width as u64
    };
    let h: u64 = if height < 0 {
        0
    } else {
        height as u64
    };
    assert(w * h <= i32::MAX * i32::MAX) by (nonlinear_arith)
        requires
            w <= i32::MAX,
            h <= i32::MAX,
    ;
    let pixels = w * h;
    let max = limit.pixels();
    if pixels > max {
        return Err(ProcessingError::FrameTooLarge { width, height, limit: max });
    }
    Ok(())
}

/// Enforces the result-dimension ceiling before encoding: the larger side of
/// a `width` by `height` result may not exceed it.
pub fn enforce_result_dimension(parsed_options: &ParsedOptions, width: i32, height: i32) -> (r: Result<
    (),
    ProcessingError,
>)
    ensures
        match parsed_options@.max_result_dimension {
            Some(limit) => {
                let side: int = if width >= height {
                    width as int
                } else {
                    height as int
                };
                if side >= 0 && side > limit {
                    r matches Err(ProcessingError::ResultTooLarge { width: w, height: h, limit: l })
                        && w == width && h == height && l == limit
                } else {
                    r is Ok
                }
            },
            None => r is Ok,
        },
{
    let limit = match parsed_options.max_result_dimension {
        Some(l) => l,
        None => {
            return Ok(());
        },
    };
    let side = if width >= height {
        width
    } else {
        height
    };
    let max = limit.get();
    if side >= 0 && side as u32 > max {
        return Err(ProcessingError::ResultTooLarge { width, height, limit: max });
    }
    Ok(())
}

/// What is decided about the output before any pixel is touched.
pub struct OutputPlan {
    /// The format to encode, `jpeg` unless the options name one.
    pub format: String,
    /// Keep more than 8 bits per channel through processing.
    pub keep_high_bit_depth: bool,
    /// Encoder quality.
    pub quality: u8,
    /// Flatten transparency onto this colour, for a format without alpha.
    pub flatten_onto: Option<[u8; 4]>,
    /// Hand the frame height to the encoder, for a format that animates.
    pub keep_page_height: bool,
    /// Put the copyright tags back after the metadata strip.
    pub reattach_copyright: bool,
}

/// The output format's name: the options' own, else `jpeg`.
pub open spec fn output_format_of(o: ParsedOptionsView) -> Seq<char> {
    match o.format {
        Some(f) => f,
        None => "jpeg"@,
    }
}

/// Whether a format name spells a format with a property.
pub open spec fn named_format_has(name: Seq<char>, p: spec_fn(crate::processing::save::ImageFormat) -> bool) -> bool {
    format_of(name) matches Some(f) && p(f)
}

/// The quality to encode at: the options' own, else the one configured for
/// the format under that exact name, else 85.
pub open spec fn output_quality_of(o: ParsedOptionsView) -> u8 {
    match o.quality {
        Some(q) => q,
        None => if o.save.format_quality.dom().contains(output_format_of(o)) {
            o.save.format_quality[output_format_of(o)]
        } else {
            85
        },
    }
}

/// Decides the output side of processing from the options.
pub fn output_plan(parsed_options: &ParsedOptions) -> (r: OutputPlan)
    ensures
        r.format@ == output_format_of(parsed_options@),
        r.keep_high_bit_depth == (parsed_options@.save.preserve_hdr == Some(true)
            && named_format_has(output_format_of(parsed_options@), |f: crate::processing::save::ImageFormat| f.high_bit_depth())),
        r.quality == output_quality_of(parsed_options@),
        r.flatten_onto == if parsed_options@.background is Some && !named_format_has(
            output_format_of(parsed_options@),
            |f: crate::processing::save::ImageFormat| f.alpha(),
        ) {
            parsed_options@.background
        } else {
            None
        },
        r.keep_page_height == named_format_has(
            output_format_of(parsed_options@),
            |f: crate::processing::save::ImageFormat| f.animation(),
        ),
        r.reattach_copyright == (parsed_options@.save.keep_copyright == Some(true)
            && parsed_options@.save.strip_metadata == Some(true)),
{
    let format: String = match &parsed_options.format {
        Some(f) => f.clone(),
        None => "jpeg".to_string(),
    };
    proof {
        if parsed_options.format is None {
            assert(format@ == "jpeg"@);
        }
    }
    let keep_high_bit_depth = parsed_options.save.preserve_hdr.unwrap_or(false)
        && crate::processing::save::format_supports_high_bit_depth(format.as_str());
    let quality = match parsed_options.quality {
        Some(q) => q,
        None => match parsed_options.save.format_quality.get(format.as_str()) {
            Some(q) => *q,
            None => 85,
        },
    };
    let flatten_onto = match parsed_options.background {
        Some(bg) => if !crate::processing::save::format_supports_alpha(format.as_str()) {
            Some(bg)
        } else {
            None
        },
        None => None,
    };
    let keep_page_height = crate::processing::save::format_supports_animation(format.as_str());
    let reattach_copyright = parsed_options.save.retains_copyright();
    OutputPlan {
        format,
        keep_high_bit_depth,
        quality,
        flatten_onto,
        keep_page_height,
        reattach_copyright,
    }
}

} // verus!
