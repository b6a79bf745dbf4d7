//! The size arithmetic behind the geometry operations.

use crate::processing::options::geometry::{Resize, ResizingType};
use vstd::prelude::*;

verus! {

/// Errors produced while transforming an image.
#[derive(Debug)]
pub enum TransformError {
    /// An operation was asked for something it cannot do.
    InvalidArgument { operation: &'static str, message: String },
    /// libvips refused an operation, with what it said.
    Vips { context: &'static str, message: String },
}

impl TransformError {
    /// A refused argument to `operation`.
    pub fn invalid(operation: &'static str, message: &str) -> (r: Self)
        ensures
            r matches TransformError::InvalidArgument { operation: o, message: m } && o == operation
                && m@ == message@,
    {
        TransformError::InvalidArgument { operation, message: message.to_owned() }
    }

    /// The description of the failure.
    pub fn message(&self) -> (r: String)
        ensures
            r@ == match self {
                TransformError::InvalidArgument { message, .. } => message@,
                TransformError::Vips { message, .. } => message@,
            },
    {
        match self {
            TransformError::InvalidArgument { message, .. } => message.clone(),
            TransformError::Vips { message, .. } => message.clone(),
        }
    }
}

/// `n / d` rounded half up, held within a `u32`.
pub open spec fn scaled_side(other: nat, source_this: nat, source_other: nat) -> nat {
    if source_other == 0 {
        0
    } else {
        let q = (2 * (other * source_this) + source_other) / (2 * source_other);
        if q > u32::MAX {
            u32::MAX as nat
        } else {
            q
        }
    }
}

/// The box a resize asks for against a source: a zero side is the source's
/// own for `force`, and follows the source's aspect ratio otherwise.
pub open spec fn resize_box(resize: Resize, src_width: nat, src_height: nat) -> Option<(nat, nat)> {
    if resize.width == 0 && resize.height == 0 {
        None
    } else if resize.resizing_type == ResizingType::Force {
        Some(
            (
                if resize.width == 0 {
                    src_width
                } else {
                    resize.width as nat
                },
                if resize.height == 0 {
                    src_height
                } else {
                    resize.height as nat
                },
            ),
        )
    } else if resize.width == 0 {
        Some((scaled_side(resize.height as nat, src_width, src_height), resize.height as nat))
    } else if resize.height == 0 {
        Some((resize.width as nat, scaled_side(resize.width as nat, src_height, src_width)))
    } else {
        Some((resize.width as nat, resize.height as nat))
    }
}

fn scale_side(other: u32, source_this: u32, source_other: u32) -> (r: u32)
    ensures
        r == scaled_side(other as nat, source_this as nat, source_other as nat),
{
    if source_other == 0 {
        return 0;
    }
    assert((other as u128) * (source_this as u128) <= 0xffff_ffffu128 * 0xffff_ffffu128) by (nonlinear_arith)
        requires
            other <= 0xffff_ffff,
            source_this <= 0xffff_ffff,
    ;
    let n: u128 = 2 * (other as u128 * source_this as u128) + source_other as u128;
    let q: u128 = n / (2 * source_other as u128);
    if q > u32::MAX as u128 {
        u32::MAX
    } else {
        q as u32
    }
}

/// The dimensions a resize targets for a source of the given size.
pub fn resolve_resize_dimensions(resize: &Resize, src_width: u32, src_height: u32) -> (r: Result<
    (u32, u32),
    TransformError,
>)
    ensures
        match resize_box(*resize, src_width as nat, src_height as nat) {
            Some((w, h)) => r matches Ok(d) && d.0 == w && d.1 == h,
            None => r matches Err(TransformError::InvalidArgument { operation: o, .. }) && o@
                == "resize"@,
        },
{
    if resize.width == 0 && resize.height == 0 {
        return Err(
            TransformError::invalid("resize", "resize requires at least one non-zero dimension"),
        );
    }
    if resize.resizing_type.fills_zero_axis_from_source() {
        let w = if resize.width == 0 {
            src_width
        } else {
            resize.width
        };
        let h = if resize.height == 0 {
            src_height
        } else {
            resize.height
        };
        return Ok((w, h));
    }
    if resize.width == 0 {
        Ok((scale_side(resize.height, src_width, src_height), resize.height))
    } else if resize.height == 0 {
        Ok((resize.width, scale_side(resize.width, src_height, src_width)))
    } else {
        Ok((resize.width, resize.height))
    }
}

/// The axis a flip mirrors across.
#[derive(Debug, Clone, Copy, PartialEq, Eq, Structural)]
pub enum FlipAxis {
    Horizontal,
    Vertical,
}

/// What turns a stored image upright: a clockwise rotation in degrees, then
/// an optional flip.
#[derive(Debug, Clone, Copy, PartialEq, Eq, Structural)]
pub struct OrientationFix {
    pub rotation: u16,
    pub flip: Option<FlipAxis>,
}

/// The fix an Exif orientation asks for: 2 mirrors, 3 turns half round, 4
/// flips upside down, 5 and 7 turn a quarter (clockwise and anticlockwise)
/// and mirror, 6 and 8 turn a quarter. Orientation 1, and any value outside
/// 1 to 8, needs nothing.
pub open spec fn spec_orientation_fix(orientation: u32) -> Option<OrientationFix> {
    if orientation == 2 {
        Some(OrientationFix { rotation: 0, flip: Some(FlipAxis::Horizontal) })
    } else if orientation == 3 {
        Some(OrientationFix { rotation: 180, flip: None })
    } else if orientation == 4 {
        Some(OrientationFix { rotation: 0, flip: Some(FlipAxis::Vertical) })
    } else if orientation == 5 {
        Some(OrientationFix { rotation: 90, flip: Some(FlipAxis::Horizontal) })
    } else if orientation == 6 {
        Some(OrientationFix { rotation: 90, flip: None })
    } else if orientation == 7 {
        Some(OrientationFix { rotation: 270, flip: Some(FlipAxis::Horizontal) })
    } else if orientation == 8 {
        Some(OrientationFix { rotation: 270, flip: None })
    } else {
        None
    }
}

/// The fix an Exif orientation value asks for, as [`spec_orientation_fix`]
/// says.
pub fn orientation_fix(orientation: u32) -> (r: Option<OrientationFix>)
    ensures
        r == spec_orientation_fix(orientation),
{
    match orientation {
        2 => Some(OrientationFix { rotation: 0, flip: Some(FlipAxis::Horizontal) }),
        3 => Some(OrientationFix { rotation: 180, flip: None }),
        4 => Some(OrientationFix { rotation: 0, flip: Some(FlipAxis::Vertical) }),
        5 => Some(OrientationFix { rotation: 90, flip: Some(FlipAxis::Horizontal) }),
        6 => Some(OrientationFix { rotation: 90, flip: None }),
        7 => Some(OrientationFix { rotation: 270, flip: Some(FlipAxis::Horizontal) }),
        8 => Some(OrientationFix { rotation: 270, flip: None }),
        _ => None,
    }
}

} // verus!
