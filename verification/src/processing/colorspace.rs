//! Colour management around the pipeline: which colourspace a frame is
//! processed in, and whether a result needs converting back before encoding.
//!
//! The image library reports an interpretation for each image; the ones these
//! decisions tell apart are named here, and every other is [`Interpretation::Other`].

use vstd::prelude::*;

verus! {

/// The colourspaces processing distinguishes.
#[derive(Debug, Clone, Copy, PartialEq, Eq, Structural)]
pub enum Interpretation {
    Srgb,
    Rgb,
    /// 8-bit greyscale.
    BW,
    Rgb16,
    Grey16,
    /// CMYK, Lab, HSV and the rest: sRGB can be produced from any of them.
    Other,
}

/// The colourspace a frame is processed in, given what the source was guessed
/// to be (`None` when no guess could be made).
pub open spec fn processing_space(guessed: Option<Interpretation>, keep_high_bit_depth: bool) -> Interpretation {
    match guessed {
        None => Interpretation::Srgb,
        Some(i) => match i {
            Interpretation::Srgb | Interpretation::Rgb | Interpretation::BW => i,
            Interpretation::Rgb16 => if keep_high_bit_depth {
                i
            } else {
                Interpretation::Srgb
            },
            Interpretation::Grey16 => if keep_high_bit_depth {
                i
            } else {
                Interpretation::BW
            },
            Interpretation::Other => if keep_high_bit_depth {
                Interpretation::Rgb16
            } else {
                Interpretation::Srgb
            },
        },
    }
}

/// The colourspace a frame is processed in.
///
/// 16-bit sources keep their depth when the output format can carry it and the
/// request asked to preserve it; everything else lands in 8-bit sRGB (or 8-bit
/// greyscale for a greyscale source), which any encoder can represent.
pub fn processing_interpretation(guessed: Option<Interpretation>, keep_high_bit_depth: bool) -> (r: Interpretation)
    ensures
        r == processing_space(guessed, keep_high_bit_depth),
{
    match guessed {
        None => Interpretation::Srgb,
        Some(i) => match i {
            Interpretation::Srgb | Interpretation::Rgb | Interpretation::BW => i,
            Interpretation::Rgb16 => if keep_high_bit_depth {
                i
            } else {
                Interpretation::Srgb
            },
            Interpretation::Grey16 => if keep_high_bit_depth {
                i
            } else {
                Interpretation::BW
            },
            Interpretation::Other => if keep_high_bit_depth {
                Interpretation::Rgb16
            } else {
                Interpretation::Srgb
            },
        },
    }
}

/// Whether a result in `current` (`None` when unknown) is converted to sRGB
/// before encoding: only for a format that cannot carry the profile, and only
/// when the result is not already sRGB or 8-bit greyscale.
pub fn result_needs_srgb(current: Option<Interpretation>, target_supports_profile: bool) -> (r: bool)
    ensures
        r == (!target_supports_profile && !(current == Some(Interpretation::Srgb) || current == Some(
            Interpretation::BW,
        ))),
{
    if target_supports_profile {
        return false;
    }
    match current {
        Some(Interpretation::Srgb) | Some(Interpretation::BW) => false,
        _ => true,
    }
}

} // verus!
