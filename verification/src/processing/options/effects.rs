//! Pixel-effect options: colour adjustment, zoom and watermarking.

use super::error::{
    arg, arg_views, color_arg, parse_color, parse_float, parse_integer, parse_positive,
    parse_signed_integer, parse_unit, spec_arg, spec_decimal, spec_positive, spec_sint, spec_uint,
    spec_unit, OptionErrorKind, OptionParseError,
};
use super::geometry::{gravity_type_of, GravityType};
use crate::numbers::Fixed;
use crate::processing::utils::{is_true, is_true_chars};
use crate::text::{chars_of, is};
use vstd::prelude::*;

verus! {

/// How far a factor may sit from 1 and still count as 1, in billionths: the
/// machine epsilon of a single-precision float.
pub const UNIT_TOLERANCE_NANOS: i64 = 119;

/// Whether a factor counts as exactly 1.
pub open spec fn is_unit_factor(f: Fixed) -> bool {
    -UNIT_TOLERANCE_NANOS <= f.nanos - 1_000_000_000 <= UNIT_TOLERANCE_NANOS
}

fn unit_factor(f: Fixed) -> (r: bool)
    ensures
        r == is_unit_factor(f),
{
    let d: i128 = f.nanos as i128 - 1_000_000_000;
    -119 <= d && d <= 119
}

/// Represents the parameters for colour adjustment.
#[derive(Debug, Clone, Copy, PartialEq, Eq, Structural)]
pub struct Adjust {
    /// Added to every colour channel, in 8-bit units.
    pub brightness: i16,
    /// Multiplier applied around mid-grey.
    pub contrast: Fixed,
    /// Multiplier applied to chroma.
    pub saturation: Fixed,
}

impl Adjust {
    pub open spec fn spec_default() -> Adjust {
        Adjust {
            brightness: 0,
            contrast: Fixed { nanos: 1_000_000_000 },
            saturation: Fixed { nanos: 1_000_000_000 },
        }
    }

    /// Whether this adjustment leaves every pixel as it is: no brightness
    /// shift, and contrast and saturation that count as 1.
    pub open spec fn spec_is_identity(self) -> bool {
        self.brightness == 0 && is_unit_factor(self.contrast) && is_unit_factor(self.saturation)
    }

    /// Whether this adjustment would change any pixel.
    pub fn is_identity(&self) -> (r: bool)
        ensures
            r == (self.brightness == 0 && is_unit_factor(self.contrast) && is_unit_factor(
                self.saturation,
            )),
            r == self.spec_is_identity(),
    {
        self.brightness == 0 && unit_factor(self.contrast) && unit_factor(self.saturation)
    }
}

impl Default for Adjust {
    fn default() -> (r: Self)
        ensures
            r == Adjust::spec_default(),
    {
        Adjust {
            brightness: 0,
            contrast: Fixed { nanos: 1_000_000_000 },
            saturation: Fixed { nanos: 1_000_000_000 },
        }
    }
}

/// What a brightness argument gives: a whole number in -255..=255.
pub open spec fn brightness_from_text(v: Seq<char>) -> Result<i16, OptionErrorKind> {
    match spec_sint(v, i16::MIN as int, i16::MAX as int, "brightness"@) {
        Err(e) => Err(e),
        Ok(n) => if -255 <= n <= 255 {
            Ok(n as i16)
        } else {
            Err(OptionErrorKind::Invalid("brightness must be between -255 and 255"@))
        },
    }
}

/// Reads a brightness.
pub fn parse_brightness(value: &[char]) -> (r: Result<i16, OptionParseError>)
    ensures
        match brightness_from_text(value@) {
            Ok(n) => r matches Ok(x) && x == n,
            Err(k) => r matches Err(e) && e.kind() == k,
        },
{
    let parsed = parse_signed_integer(value, i16::MIN as i64, i16::MAX as i64, "brightness")?;
    if parsed < -255 || parsed > 255 {
        return Err(OptionParseError::invalid("brightness must be between -255 and 255"));
    }
    Ok(parsed as i16)
}

/// Independent horizontal and vertical zoom factors.
#[derive(Debug, Clone, Copy, PartialEq, Eq, Structural)]
pub struct Zoom {
    pub x: Fixed,
    pub y: Fixed,
}

impl Default for Zoom {
    fn default() -> (r: Self)
        ensures
            r == Zoom::spec_default(),
    {
        Zoom { x: Fixed { nanos: 1_000_000_000 }, y: Fixed { nanos: 1_000_000_000 } }
    }
}

/// What the `zoom` arguments give: one positive factor for both axes, or one
/// for each.
pub open spec fn zoom_from_args(args: Seq<Seq<char>>) -> Result<Zoom, OptionErrorKind> {
    match spec_arg(args, 0) {
        None => Err(OptionErrorKind::Invalid("zoom option requires one argument"@)),
        Some(a) => match spec_positive(a, "zoom"@) {
            Err(e) => Err(e),
            Ok(x) => match spec_arg(args, 1) {
                None => Ok(Zoom { x: Fixed { nanos: x as i64 }, y: Fixed { nanos: x as i64 } }),
                Some(b) => match spec_positive(b, "zoom"@) {
                    Err(e) => Err(e),
                    Ok(y) => Ok(Zoom { x: Fixed { nanos: x as i64 }, y: Fixed { nanos: y as i64 } }),
                },
            },
        },
    }
}

/// The larger of two decimals.
pub open spec fn max_fixed(a: Fixed, b: Fixed) -> Fixed {
    if a.nanos >= b.nanos {
        a
    } else {
        b
    }
}

impl Zoom {
    pub open spec fn spec_default() -> Zoom {
        Zoom { x: Fixed { nanos: 1_000_000_000 }, y: Fixed { nanos: 1_000_000_000 } }
    }

    /// Parses `zoom_x_y` or `zoom_x:zoom_y`.
    pub fn parse(args: &[String]) -> (r: Result<Self, OptionParseError>)
        ensures
            match zoom_from_args(arg_views(args@)) {
                Ok(z) => r == Ok::<Zoom, OptionParseError>(z),
                Err(k) => r matches Err(e) && e.kind() == k,
            },
    {
        let x = match arg(args, 0) {
            None => {
                return Err(OptionParseError::invalid("zoom option requires one argument"));
            },
            Some(v) => v,
        };
        let x = parse_positive(x.as_slice(), "zoom")?;
        let y = match arg(args, 1) {
            Some(value) => parse_positive(value.as_slice(), "zoom")?,
            None => x,
        };
        Ok(Zoom { x, y })
    }

    /// Whether both factors count as 1.
    pub fn is_identity(&self) -> (r: bool)
        ensures
            r == (is_unit_factor(self.x) && is_unit_factor(self.y)),
    {
        unit_factor(self.x) && unit_factor(self.y)
    }

    /// The largest of the two factors and 1, which is what a target size has to
    /// be grown by before deciding how far the source may be shrunk on load.
    pub fn max_factor(&self) -> (r: Fixed)
        ensures
            r == max_fixed(max_fixed(self.x, self.y), Fixed { nanos: 1_000_000_000 }),
    {
        let m = if self.x.nanos >= self.y.nanos {
            self.x
        } else {
            self.y
        };
        if m.nanos >= 1_000_000_000 {
            m
        } else {
            Fixed { nanos: 1_000_000_000 }
        }
    }
}

/// Where a watermark sits on the image.
#[derive(Debug, Clone, Copy, PartialEq, Eq, Structural)]
pub enum WatermarkPosition {
    /// Anchored to one of the nine standard positions.
    Anchor(GravityType),
    /// Tiled across the whole image.
    Replicate,
}

impl Default for WatermarkPosition {
    fn default() -> (r: Self)
        ensures
            r == WatermarkPosition::Replicate,
    {
        WatermarkPosition::Replicate
    }
}

/// The watermark position a name gives: `re` tiles, and the nine anchors place.
/// Focus point and smart gravity find a place in the picture, which has no
/// meaning for something that is placed, so they name no position.
pub open spec fn watermark_position_of(v: Seq<char>) -> Option<WatermarkPosition> {
    if v == "re"@ {
        Some(WatermarkPosition::Replicate)
    } else {
        match gravity_type_of(v) {
            Some(g) => if g == GravityType::FocusPoint || g == GravityType::Smart {
                None
            } else {
                Some(WatermarkPosition::Anchor(g))
            },
            None => None,
        }
    }
}

impl WatermarkPosition {
    /// Reads a position from the characters of its name.
    pub fn from_chars(v: &[char]) -> (r: Option<Self>)
        ensures
            r == watermark_position_of(v@),
    {
        if is(v, "re") {
            return Some(WatermarkPosition::Replicate);
        }
        match GravityType::from_chars(v) {
            Some(g) => if g == GravityType::FocusPoint || g.is_content_aware() {
                None
            } else {
                Some(WatermarkPosition::Anchor(g))
            },
            None => None,
        }
    }

    /// Reads a position from its name.
    pub fn parse(value: &str) -> (r: Option<Self>)
        ensures
            r == watermark_position_of(value@),
    {
        let v = chars_of(value);
        Self::from_chars(v.as_slice())
    }
}

/// Represents the parameters for a watermark operation.
#[derive(Debug, Clone, Copy, PartialEq, Eq, Structural)]
pub struct Watermark {
    /// Opacity multiplier applied to the watermark's own alpha.
    pub opacity: Fixed,
    /// Anchor, or `re` to tile.
    pub position: WatermarkPosition,
    /// Horizontal nudge: pixels at magnitude 1 or more, else a fraction.
    pub x_offset: Fixed,
    /// Vertical nudge, read the same way.
    pub y_offset: Fixed,
    /// Scale relative to the image's width. Zero keeps the default sizing.
    pub scale: Fixed,
}

impl Default for Watermark {
    fn default() -> (r: Self)
        ensures
            r == (Watermark {
                opacity: Fixed { nanos: 1_000_000_000 },
                position: WatermarkPosition::Anchor(GravityType::Center),
                x_offset: Fixed { nanos: 0 },
                y_offset: Fixed { nanos: 0 },
                scale: Fixed { nanos: 0 },
            }),
    {
        Watermark {
            opacity: Fixed { nanos: 1_000_000_000 },
            position: WatermarkPosition::Anchor(GravityType::Center),
            x_offset: Fixed { nanos: 0 },
            y_offset: Fixed { nanos: 0 },
            scale: Fixed { nanos: 0 },
        }
    }
}

/// A decimal at argument `i`, zero when it is absent.
pub open spec fn decimal_or_zero(args: Seq<Seq<char>>, i: int, option: Seq<char>) -> Result<int, OptionErrorKind> {
    match spec_arg(args, i) {
        Some(v) => spec_decimal(v, option),
        None => Ok(0),
    }
}

/// What `opacity:position[:x_offset[:y_offset[:scale]]]` gives.
pub open spec fn watermark_from_args(args: Seq<Seq<char>>) -> Result<Watermark, OptionErrorKind> {
    match spec_arg(args, 0) {
        None => Err(OptionErrorKind::Invalid("watermark option requires at least one argument: opacity"@)),
        Some(o) => match spec_decimal(o, "watermark opacity"@) {
            Err(e) => Err(e),
            Ok(opacity) => if !(0 <= opacity <= 1_000_000_000) {
                Err(OptionErrorKind::Invalid("watermark opacity must be between 0 and 1"@))
            } else {
                let position = match spec_arg(args, 1) {
                    Some(p) => watermark_position_of(p),
                    None => Some(WatermarkPosition::Anchor(GravityType::Center)),
                };
                match position {
                    None => Err(
                        OptionErrorKind::Invalid(
                            "watermark position must be one of: ce, no, so, ea, we, noea, nowe, soea, sowe, re"@,
                        ),
                    ),
                    Some(position) => match decimal_or_zero(args, 2, "watermark x offset"@) {
                        Err(e) => Err(e),
                        Ok(x) => match decimal_or_zero(args, 3, "watermark y offset"@) {
                            Err(e) => Err(e),
                            Ok(y) => match decimal_or_zero(args, 4, "watermark scale"@) {
                                Err(e) => Err(e),
                                Ok(scale) => if scale < 0 {
                                    Err(OptionErrorKind::Invalid("watermark scale must be a finite non-negative number"@))
                                } else {
                                    Ok(
                                        Watermark {
                                            opacity: Fixed { nanos: opacity as i64 },
                                            position,
                                            x_offset: Fixed { nanos: x as i64 },
                                            y_offset: Fixed { nanos: y as i64 },
                                            scale: Fixed { nanos: scale as i64 },
                                        },
                                    )
                                },
                            },
                        },
                    },
                }
            },
        },
    }
}

/// Reads the decimal at argument `index`, zero when it is absent.
fn decimal_arg_or_zero(args: &[String], index: usize, option: &str) -> (r: Result<
    Fixed,
    OptionParseError,
>)
    ensures
        match decimal_or_zero(arg_views(args@), index as int, option@) {
            Ok(n) => r matches Ok(x) && x.nanos == n,
            Err(k) => r matches Err(e) && e.kind() == k,
        },
{
    match arg(args, index) {
        Some(value) => parse_float(value.as_slice(), option),
        None => Ok(Fixed { nanos: 0 }),
    }
}

impl Watermark {
    /// Parses `opacity:position[:x_offset[:y_offset[:scale]]]`.
    pub fn parse(args: &[String]) -> (r: Result<Self, OptionParseError>)
        ensures
            match watermark_from_args(arg_views(args@)) {
                Ok(w) => r == Ok::<Watermark, OptionParseError>(w),
                Err(k) => r matches Err(e) && e.kind() == k,
            },
    {
        let opacity = match arg(args, 0) {
            None => {
                return Err(
                    OptionParseError::invalid(
                        "watermark option requires at least one argument: opacity",
                    ),
                );
            },
            Some(v) => v,
        };
        let opacity = parse_float(opacity.as_slice(), "watermark opacity")?;
        if opacity.nanos < 0 || opacity.nanos > 1_000_000_000 {
            return Err(OptionParseError::invalid("watermark opacity must be between 0 and 1"));
        }
        let position = match arg(args, 1) {
            Some(value) => match WatermarkPosition::from_chars(value.as_slice()) {
                Some(p) => p,
                None => {
                    return Err(
                        OptionParseError::invalid(
                            "watermark position must be one of: ce, no, so, ea, we, noea, nowe, soea, sowe, re",
                        ),
                    );
                },
            },
            None => WatermarkPosition::Anchor(GravityType::Center),
        };
        let x_offset = decimal_arg_or_zero(args, 2, "watermark x offset")?;
        let y_offset = decimal_arg_or_zero(args, 3, "watermark y offset")?;
        let scale = decimal_arg_or_zero(args, 4, "watermark scale")?;
        if scale.nanos < 0 {
            return Err(
                OptionParseError::invalid("watermark scale must be a finite non-negative number"),
            );
        }
        Ok(Watermark { opacity, position, x_offset, y_offset, scale })
    }
}

/// A colour at argument `i`, or `default` when it is absent.
pub open spec fn color_or(args: Seq<Seq<char>>, i: int, default: [u8; 4]) -> Result<
    [u8; 4],
    OptionErrorKind,
> {
    match spec_arg(args, i) {
        Some(v) => color_arg(v),
        None => Ok(default),
    }
}

fn color_arg_or(args: &[String], index: usize, default: [u8; 4]) -> (r: Result<
    [u8; 4],
    OptionParseError,
>)
    ensures
        match color_or(arg_views(args@), index as int, default) {
            Ok(c) => r matches Ok(x) && x == c,
            Err(k) => r matches Err(e) && e.kind() == k,
        },
{
    match arg(args, index) {
        Some(value) => parse_color(value.as_slice()),
        None => Ok(default),
    }
}

/// The intensity, opacity or other 0..1 amount at argument 0, which must be
/// given.
pub open spec fn amount_from_args(args: Seq<Seq<char>>, option: Seq<char>, missing: Seq<char>) -> Result<int, OptionErrorKind> {
    match spec_arg(args, 0) {
        None => Err(OptionErrorKind::Invalid(missing)),
        Some(v) => spec_unit(v, option),
    }
}

fn amount_arg(args: &[String], option: &str, missing: &str) -> (r: Result<Fixed, OptionParseError>)
    ensures
        match amount_from_args(arg_views(args@), option@, missing@) {
            Ok(n) => r matches Ok(x) && x.nanos == n,
            Err(k) => r matches Err(e) && e.kind() == k,
        },
{
    match arg(args, 0) {
        None => Err(OptionParseError::invalid(missing)),
        Some(value) => parse_unit(value.as_slice(), option),
    }
}

/// Recolouring an image from a single base colour.
#[derive(Debug, Clone, Copy, PartialEq)]
pub struct Monochrome {
    /// How much of the effect to apply, 0 to 1.
    pub intensity: Fixed,
    /// The colour a fully lit pixel becomes.
    pub color: [u8; 4],
}

/// imgproxy's default monochrome base, a neutral mid grey.
pub open spec fn monochrome_base() -> [u8; 4] {
    [0xb3, 0xb3, 0xb3, 255]
}

/// What `intensity[:color]` gives.
pub open spec fn monochrome_from_args(args: Seq<Seq<char>>) -> Result<Monochrome, OptionErrorKind> {
    match amount_from_args(args, "monochrome intensity"@, "monochrome option requires an intensity"@) {
        Err(e) => Err(e),
        Ok(i) => match color_or(args, 1, monochrome_base()) {
            Err(e) => Err(e),
            Ok(color) => Ok(Monochrome { intensity: Fixed { nanos: i as i64 }, color }),
        },
    }
}

impl Monochrome {
    /// Parses `intensity[:color]`.
    pub fn parse(args: &[String]) -> (r: Result<Self, OptionParseError>)
        ensures
            match monochrome_from_args(arg_views(args@)) {
                Ok(m) => r == Ok::<Monochrome, OptionParseError>(m),
                Err(k) => r matches Err(e) && e.kind() == k,
            },
    {
        let intensity = amount_arg(
            args,
            "monochrome intensity",
            "monochrome option requires an intensity",
        )?;
        let color = color_arg_or(args, 1, [0xb3, 0xb3, 0xb3, 255])?;
        Ok(Monochrome { intensity, color })
    }
}

impl Default for Monochrome {
    fn default() -> (r: Self)
        ensures
            r == (Monochrome { intensity: Fixed { nanos: 0 }, color: monochrome_base() }),
    {
        Monochrome { intensity: Fixed { nanos: 0 }, color: [0xb3, 0xb3, 0xb3, 255] }
    }
}

/// Mapping the tonal range between two colours.
#[derive(Debug, Clone, Copy, PartialEq)]
pub struct Duotone {
    pub intensity: Fixed,
    /// The colour the darkest pixels become.
    pub shadow: [u8; 4],
    /// The colour the brightest pixels become.
    pub highlight: [u8; 4],
}

/// What `intensity[:shadow_color[:highlight_color]]` gives.
pub open spec fn duotone_from_args(args: Seq<Seq<char>>) -> Result<Duotone, OptionErrorKind> {
    match amount_from_args(args, "duotone intensity"@, "duotone option requires an intensity"@) {
        Err(e) => Err(e),
        Ok(i) => match color_or(args, 1, [0, 0, 0, 255]) {
            Err(e) => Err(e),
            Ok(shadow) => match color_or(args, 2, [255, 255, 255, 255]) {
                Err(e) => Err(e),
                Ok(highlight) => Ok(
                    Duotone { intensity: Fixed { nanos: i as i64 }, shadow, highlight },
                ),
            },
        },
    }
}

impl Duotone {
    /// Parses `intensity[:shadow_color[:highlight_color]]`.
    pub fn parse(args: &[String]) -> (r: Result<Self, OptionParseError>)
        ensures
            match duotone_from_args(arg_views(args@)) {
                Ok(d) => r == Ok::<Duotone, OptionParseError>(d),
                Err(k) => r matches Err(e) && e.kind() == k,
            },
    {
        let intensity = amount_arg(args, "duotone intensity", "duotone option requires an intensity")?;
        let shadow = color_arg_or(args, 1, [0, 0, 0, 255])?;
        let highlight = color_arg_or(args, 2, [255, 255, 255, 255])?;
        Ok(Duotone { intensity, shadow, highlight })
    }
}

impl Default for Duotone {
    fn default() -> (r: Self)
        ensures
            r == (Duotone {
                intensity: Fixed { nanos: 0 },
                shadow: [0, 0, 0, 255],
                highlight: [255, 255, 255, 255],
            }),
    {
        Duotone { intensity: Fixed { nanos: 0 }, shadow: [0, 0, 0, 255], highlight: [255, 255, 255, 255] }
    }
}

/// Washing a flat colour over the image.
#[derive(Debug, Clone, Copy, PartialEq)]
pub struct Colorize {
    pub opacity: Fixed,
    pub color: [u8; 4],
    /// Whether the transparent parts stay transparent.
    pub keep_alpha: bool,
}

/// What `opacity[:color[:keep_alpha]]` gives.
pub open spec fn colorize_from_args(args: Seq<Seq<char>>) -> Result<Colorize, OptionErrorKind> {
    match amount_from_args(args, "colorize opacity"@, "colorize option requires an opacity"@) {
        Err(e) => Err(e),
        Ok(o) => match color_or(args, 1, [0, 0, 0, 255]) {
            Err(e) => Err(e),
            Ok(color) => Ok(
                Colorize {
                    opacity: Fixed { nanos: o as i64 },
                    color,
                    keep_alpha: match spec_arg(args, 2) {
                        Some(a) => is_true(a),
                        None => false,
                    },
                },
            ),
        },
    }
}

impl Colorize {
    /// Parses `opacity[:color[:keep_alpha]]`.
    pub fn parse(args: &[String]) -> (r: Result<Self, OptionParseError>)
        ensures
            match colorize_from_args(arg_views(args@)) {
                Ok(c) => r == Ok::<Colorize, OptionParseError>(c),
                Err(k) => r matches Err(e) && e.kind() == k,
            },
    {
        let opacity = amount_arg(args, "colorize opacity", "colorize option requires an opacity")?;
        let color = color_arg_or(args, 1, [0, 0, 0, 255])?;
        let keep_alpha = match arg(args, 2) {
            Some(v) => is_true_chars(v.as_slice()),
            None => false,
        };
        Ok(Colorize { opacity, color, keep_alpha })
    }
}

impl Default for Colorize {
    fn default() -> (r: Self)
        ensures
            r == (Colorize { opacity: Fixed { nanos: 0 }, color: [0, 0, 0, 255], keep_alpha: false }),
    {
        Colorize { opacity: Fixed { nanos: 0 }, color: [0, 0, 0, 255], keep_alpha: false }
    }
}

/// An explicit size for the watermark, in place of the `scale` fraction.
#[derive(Debug, Clone, Copy, PartialEq, Eq, Structural)]
pub struct WatermarkSize {
    pub width: u32,
    pub height: u32,
}

/// A `u32` at argument `i`, zero when it is absent.
pub open spec fn dimension_or_zero(args: Seq<Seq<char>>, i: int, option: Seq<char>) -> Result<nat, OptionErrorKind> {
    match spec_arg(args, i) {
        Some(v) => spec_uint(v, u32::MAX as nat, option),
        None => Ok(0),
    }
}

/// What `width:height` gives: at least one axis must be non-zero.
pub open spec fn watermark_size_from_args(args: Seq<Seq<char>>) -> Result<
    WatermarkSize,
    OptionErrorKind,
> {
    match dimension_or_zero(args, 0, "watermark width"@) {
        Err(e) => Err(e),
        Ok(w) => match dimension_or_zero(args, 1, "watermark height"@) {
            Err(e) => Err(e),
            Ok(h) => if w == 0 && h == 0 {
                Err(OptionErrorKind::Invalid("watermark_size requires at least one non-zero dimension"@))
            } else {
                Ok(WatermarkSize { width: w as u32, height: h as u32 })
            },
        },
    }
}

fn dimension_arg_or_zero(args: &[String], index: usize, option: &str) -> (r: Result<
    u32,
    OptionParseError,
>)
    ensures
        match dimension_or_zero(arg_views(args@), index as int, option@) {
            Ok(n) => r matches Ok(x) && x == n,
            Err(k) => r matches Err(e) && e.kind() == k,
        },
{
    match arg(args, index) {
        Some(value) => {
            let n = parse_integer(value.as_slice(), u32::MAX as u64, option)?;
            Ok(n as u32)
        },
        None => Ok(0),
    }
}

impl WatermarkSize {
    /// Parses `width:height`, where a zero axis is derived from the other.
    pub fn parse(args: &[String]) -> (r: Result<Self, OptionParseError>)
        ensures
            match watermark_size_from_args(arg_views(args@)) {
                Ok(s) => r == Ok::<WatermarkSize, OptionParseError>(s),
                Err(k) => r matches Err(e) && e.kind() == k,
            },
    {
        let width = dimension_arg_or_zero(args, 0, "watermark width")?;
        let height = dimension_arg_or_zero(args, 1, "watermark height")?;
        if width == 0 && height == 0 {
            return Err(
                OptionParseError::invalid("watermark_size requires at least one non-zero dimension"),
            );
        }
        Ok(WatermarkSize { width, height })
    }
}

impl Default for WatermarkSize {
    fn default() -> (r: Self)
        ensures
            r == (WatermarkSize { width: 0, height: 0 }),
    {
        WatermarkSize { width: 0, height: 0 }
    }
}

} // verus!
