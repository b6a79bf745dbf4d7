//! Validated security limits: how large a source may be, and how large a result.

use crate::numbers::{parse_decimal, parse_fixed, parse_uint, parse_unsigned, Fixed};
use crate::text::chars_of;
use vstd::prelude::*;

verus! {

/// Why a security limit was refused.
#[derive(Debug, Clone, Copy, PartialEq, Eq, Structural)]
pub enum SecurityLimitError {
    /// Not a whole number of bytes.
    InvalidFileSize,
    /// Zero bytes.
    ZeroFileSize,
    /// Not a number of megapixels.
    InvalidResolution,
    /// Zero or negative megapixels.
    NonPositiveResolution,
    /// Less than one pixel.
    ResolutionBelowOnePixel,
    /// More pixels than a 64-bit count holds.
    ResolutionTooLarge,
    /// Not a whole number of pixels.
    InvalidDimension,
    /// Zero pixels or frames.
    ZeroDimension,
}

impl SecurityLimitError {
    /// The sentence describing the refusal.
    pub fn message(&self) -> (r: &'static str)
        ensures
            r@ == limit_error_message(*self),
    {
        match self {
            SecurityLimitError::InvalidFileSize => "must be a positive integer number of bytes",
            SecurityLimitError::ZeroFileSize => "must be greater than zero",
            SecurityLimitError::InvalidResolution => "must be a finite positive number of megapixels",
            SecurityLimitError::NonPositiveResolution => "must be a finite positive number of megapixels",
            SecurityLimitError::ResolutionBelowOnePixel => "must allow at least one pixel",
            SecurityLimitError::ResolutionTooLarge => "is too large to represent as a pixel count",
            SecurityLimitError::InvalidDimension => "must be a positive whole number of pixels",
            SecurityLimitError::ZeroDimension => "must be greater than zero",
        }
    }
}

pub open spec fn limit_error_message(e: SecurityLimitError) -> Seq<char> {
    match e {
        SecurityLimitError::InvalidFileSize => "must be a positive integer number of bytes"@,
        SecurityLimitError::ZeroFileSize => "must be greater than zero"@,
        SecurityLimitError::InvalidResolution => "must be a finite positive number of megapixels"@,
        SecurityLimitError::NonPositiveResolution => "must be a finite positive number of megapixels"@,
        SecurityLimitError::ResolutionBelowOnePixel => "must allow at least one pixel"@,
        SecurityLimitError::ResolutionTooLarge => "is too large to represent as a pixel count"@,
        SecurityLimitError::InvalidDimension => "must be a positive whole number of pixels"@,
        SecurityLimitError::ZeroDimension => "must be greater than zero"@,
    }
}

/// What a byte-count limit spelled `s` gives.
pub open spec fn file_size_from_text(s: Seq<char>) -> Result<nat, SecurityLimitError> {
    match parse_unsigned(s, usize::MAX as nat) {
        None => Err(SecurityLimitError::InvalidFileSize),
        Some(n) => if n == 0 {
            Err(SecurityLimitError::ZeroFileSize)
        } else {
            Ok(n)
        },
    }
}

/// What a pixel or frame limit spelled `s` gives.
pub open spec fn dimension_from_text(s: Seq<char>) -> Result<nat, SecurityLimitError> {
    match parse_unsigned(s, u32::MAX as nat) {
        None => Err(SecurityLimitError::InvalidDimension),
        Some(n) => if n == 0 {
            Err(SecurityLimitError::ZeroDimension)
        } else {
            Ok(n)
        },
    }
}

/// Pixels allowed by a megapixel count given in billionths: the count times a
/// million, rounded down.
pub open spec fn pixels_from_megapixel_nanos(nanos: int) -> Result<nat, SecurityLimitError> {
    if nanos <= 0 {
        Err(SecurityLimitError::NonPositiveResolution)
    } else if nanos / 1000 == 0 {
        Err(SecurityLimitError::ResolutionBelowOnePixel)
    } else if nanos / 1000 > u64::MAX {
        Err(SecurityLimitError::ResolutionTooLarge)
    } else {
        Ok((nanos / 1000) as nat)
    }
}

/// What a megapixel limit spelled `s` gives.
pub open spec fn resolution_from_text(s: Seq<char>) -> Result<nat, SecurityLimitError> {
    match parse_decimal(s) {
        None => Err(SecurityLimitError::InvalidResolution),
        Some(n) => pixels_from_megapixel_nanos(n),
    }
}

/// Validated maximum source-image size in bytes.
#[derive(Clone, Copy, Debug, PartialEq, Eq, PartialOrd, Ord)]
pub struct MaxSourceFileSize {
    bytes: usize,
}

impl MaxSourceFileSize {
    #[verifier::type_invariant]
    spec fn positive(self) -> bool {
        self.bytes > 0
    }

    pub closed spec fn spec_get(self) -> nat {
        self.bytes as nat
    }

    /// Constructs a limit from a positive byte count.
    pub fn new(bytes: usize) -> (r: Result<Self, SecurityLimitError>)
        ensures
            bytes == 0 ==> r == Err::<Self, _>(SecurityLimitError::ZeroFileSize),
            bytes > 0 ==> (r matches Ok(l) && l.spec_get() == bytes),
    {
        if bytes == 0 {
            Err(SecurityLimitError::ZeroFileSize)
        } else {
            Ok(MaxSourceFileSize { bytes })
        }
    }

    /// The configured byte count.
    pub fn get(self) -> (r: usize)
        ensures
            r == self.spec_get(),
            r > 0,
    {
        proof {
            use_type_invariant(&self);
        }
        self.bytes
    }

    /// Reads a limit as `from_str` does: a positive whole number of bytes.
    pub fn parse_text(value: &str) -> (r: Result<Self, SecurityLimitError>)
        ensures
            match file_size_from_text(value@) {
                Ok(n) => r matches Ok(l) && l.spec_get() == n,
                Err(e) => r == Err::<Self, _>(e),
            },
    {
        let v = chars_of(value);
        match parse_uint(v.as_slice(), usize::MAX as u64) {
            None => Err(SecurityLimitError::InvalidFileSize),
            Some(n) => Self::new(n as usize),
        }
    }
}

impl core::str::FromStr for MaxSourceFileSize {
    type Err = SecurityLimitError;

    fn from_str(value: &str) -> Result<Self, Self::Err> {
        Self::parse_text(value)
    }
}

/// Validated maximum source-image resolution, held as a pixel count.
#[derive(Clone, Copy, Debug, PartialEq, Eq, PartialOrd, Ord)]
pub struct MaxSourceResolution {
    pixels: u64,
}

impl MaxSourceResolution {
    #[verifier::type_invariant]
    spec fn positive(self) -> bool {
        self.pixels > 0
    }

    pub closed spec fn spec_pixels(self) -> nat {
        self.pixels as nat
    }

    /// Constructs a limit from a positive megapixel count.
    pub fn from_megapixels(megapixels: Fixed) -> (r: Result<Self, SecurityLimitError>)
        ensures
            match pixels_from_megapixel_nanos(megapixels.nanos as int) {
                Ok(n) => r matches Ok(l) && l.spec_pixels() == n,
                Err(e) => r == Err::<Self, _>(e),
            },
    {
        if megapixels.nanos <= 0 {
            return Err(SecurityLimitError::NonPositiveResolution);
        }
        let pixels: u64 = (megapixels.nanos / 1000) as u64;
        if pixels == 0 {
            return Err(SecurityLimitError::ResolutionBelowOnePixel);
        }
        Ok(MaxSourceResolution { pixels })
    }

    /// The maximum allowed pixel count.
    pub fn pixels(self) -> (r: u64)
        ensures
            r == self.spec_pixels(),
            r > 0,
    {
        proof {
            use_type_invariant(&self);
        }
        self.pixels
    }

    /// Reads a limit as `from_str` does: a positive number of megapixels.
    pub fn parse_text(value: &str) -> (r: Result<Self, SecurityLimitError>)
        ensures
            match resolution_from_text(value@) {
                Ok(n) => r matches Ok(l) && l.spec_pixels() == n,
                Err(e) => r == Err::<Self, _>(e),
            },
    {
        let v = chars_of(value);
        match parse_fixed(v.as_slice()) {
            None => Err(SecurityLimitError::InvalidResolution),
            Some(mp) => Self::from_megapixels(mp),
        }
    }
}

impl core::str::FromStr for MaxSourceResolution {
    type Err = SecurityLimitError;

    fn from_str(value: &str) -> Result<Self, Self::Err> {
        Self::parse_text(value)
    }
}

/// Validated ceiling for either dimension of the processed image.
#[derive(Clone, Copy, Debug, PartialEq, Eq, PartialOrd, Ord)]
pub struct MaxResultDimension {
    pixels: u32,
}

impl MaxResultDimension {
    #[verifier::type_invariant]
    spec fn positive(self) -> bool {
        self.pixels > 0
    }

    pub closed spec fn spec_get(self) -> nat {
        self.pixels as nat
    }

    /// Constructs a limit from a positive pixel count.
    pub fn new(pixels: u32) -> (r: Result<Self, SecurityLimitError>)
        ensures
            pixels == 0 ==> r == Err::<Self, _>(SecurityLimitError::ZeroDimension),
            pixels > 0 ==> (r matches Ok(l) && l.spec_get() == pixels),
    {
        if pixels == 0 {
            Err(SecurityLimitError::ZeroDimension)
        } else {
            Ok(MaxResultDimension { pixels })
        }
    }

    /// The maximum allowed width or height, in pixels.
    pub fn get(self) -> (r: u32)
        ensures
            r == self.spec_get(),
            r > 0,
    {
        proof {
            use_type_invariant(&self);
        }
        self.pixels
    }

    /// Reads a limit as `from_str` does: a positive whole number of pixels.
    pub fn parse_text(value: &str) -> (r: Result<Self, SecurityLimitError>)
        ensures
            match dimension_from_text(value@) {
                Ok(n) => r matches Ok(l) && l.spec_get() == n,
                Err(e) => r == Err::<Self, _>(e),
            },
    {
        let v = chars_of(value);
        match parse_uint(v.as_slice(), u32::MAX as u64) {
            None => Err(SecurityLimitError::InvalidDimension),
            Some(n) => Self::new(n as u32),
        }
    }
}

impl core::str::FromStr for MaxResultDimension {
    type Err = SecurityLimitError;

    fn from_str(value: &str) -> Result<Self, Self::Err> {
        Self::parse_text(value)
    }
}

/// Validated ceiling on how many frames of an animated source are decoded.
#[derive(Clone, Copy, Debug, PartialEq, Eq, PartialOrd, Ord)]
pub struct MaxAnimationFrames {
    frames: u32,
}

impl MaxAnimationFrames {
    #[verifier::type_invariant]
    spec fn positive(self) -> bool {
        self.frames > 0
    }

    pub closed spec fn spec_get(self) -> nat {
        self.frames as nat
    }

    /// Constructs a limit from a positive frame count.
    pub fn new(frames: u32) -> (r: Result<Self, SecurityLimitError>)
        ensures
            frames == 0 ==> r == Err::<Self, _>(SecurityLimitError::ZeroDimension),
            frames > 0 ==> (r matches Ok(l) && l.spec_get() == frames),
    {
        if frames == 0 {
            Err(SecurityLimitError::ZeroDimension)
        } else {
            Ok(MaxAnimationFrames { frames })
        }
    }

    /// The maximum allowed frame count.
    pub fn get(self) -> (r: u32)
        ensures
            r == self.spec_get(),
            r > 0,
    {
        proof {
            use_type_invariant(&self);
        }
        self.frames
    }

    /// Reads a limit as `from_str` does: a positive whole number of frames.
    pub fn parse_text(value: &str) -> (r: Result<Self, SecurityLimitError>)
        ensures
            match dimension_from_text(value@) {
                Ok(n) => r matches Ok(l) && l.spec_get() == n,
                Err(e) => r == Err::<Self, _>(e),
            },
    {
        let v = chars_of(value);
        match parse_uint(v.as_slice(), u32::MAX as u64) {
            None => Err(SecurityLimitError::InvalidDimension),
            Some(n) => Self::new(n as u32),
        }
    }
}

impl core::str::FromStr for MaxAnimationFrames {
    type Err = SecurityLimitError;

    fn from_str(value: &str) -> Result<Self, Self::Err> {
        Self::parse_text(value)
    }
}

/// Validated ceiling on the pixel count of a single animation frame.
#[derive(Clone, Copy, Debug, PartialEq, Eq, PartialOrd, Ord)]
pub struct MaxAnimationFrameResolution {
    pixels: u64,
}

impl MaxAnimationFrameResolution {
    #[verifier::type_invariant]
    spec fn positive(self) -> bool {
        self.pixels > 0
    }

    pub closed spec fn spec_pixels(self) -> nat {
        self.pixels as nat
    }

    /// Constructs a limit from a positive megapixel count.
    pub fn from_megapixels(megapixels: Fixed) -> (r: Result<Self, SecurityLimitError>)
        ensures
            match pixels_from_megapixel_nanos(megapixels.nanos as int) {
                Ok(n) => r matches Ok(l) && l.spec_pixels() == n,
                Err(e) => r == Err::<Self, _>(e),
            },
    {
        match MaxSourceResolution::from_megapixels(megapixels) {
            Ok(limit) => Ok(MaxAnimationFrameResolution { pixels: limit.pixels() }),
            Err(e) => Err(e),
        }
    }

    /// The maximum allowed pixel count per frame.
    pub fn pixels(self) -> (r: u64)
        ensures
            r == self.spec_pixels(),
            r > 0,
    {
        proof {
            use_type_invariant(&self);
        }
        self.pixels
    }

    /// Reads a limit as `from_str` does: a positive number of megapixels.
    pub fn parse_text(value: &str) -> (r: Result<Self, SecurityLimitError>)
        ensures
            match resolution_from_text(value@) {
                Ok(n) => r matches Ok(l) && l.spec_pixels() == n,
                Err(e) => r == Err::<Self, _>(e),
            },
    {
        let v = chars_of(value);
        match parse_fixed(v.as_slice()) {
            None => Err(SecurityLimitError::InvalidResolution),
            Some(mp) => Self::from_megapixels(mp),
        }
    }
}

impl core::str::FromStr for MaxAnimationFrameResolution {
    type Err = SecurityLimitError;

    fn from_str(value: &str) -> Result<Self, Self::Err> {
        Self::parse_text(value)
    }
}

} // verus!
