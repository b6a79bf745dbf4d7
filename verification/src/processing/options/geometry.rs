//! Geometry options: resizing, gravity, cropping, extending, trimming and
//! flipping.

use super::error::{
    arg, arg_views, parse_float, parse_integer, spec_arg, spec_decimal, spec_uint,
    OptionErrorKind, OptionParseError,
};
use crate::numbers::Fixed;
use crate::processing::utils::{hex_color, is_true, is_true_chars, parse_hex_color};
use crate::text::{chars_of, is, string_of};
use vstd::prelude::*;

verus! {

/// How a resize maps the source onto the requested box.
#[derive(Debug, Clone, Copy, PartialEq, Eq, Structural)]
pub enum ResizingType {
    /// Keep the aspect ratio and fit inside the box.
    Fit,
    /// Keep the aspect ratio, cover the box, and crop what projects out.
    Fill,
    /// `Fill`, except that a result smaller than the box is cropped to the
    /// box's aspect ratio rather than padded out to its size.
    FillDown,
    /// Ignore the aspect ratio and hit the box exactly.
    Force,
    /// `Fill` when the source and the box share an orientation, `Fit` otherwise.
    Auto,
}

impl Default for ResizingType {
    fn default() -> (r: Self)
        ensures
            r == ResizingType::Fit,
    {
        ResizingType::Fit
    }
}

/// Rejected value for [`ResizingType`].
#[derive(Debug, Clone, Copy, PartialEq, Eq, Structural)]
pub struct ResizingTypeParseError;

/// The resizing type a name spells.
pub open spec fn resizing_type_of(s: Seq<char>) -> Option<ResizingType> {
    if s == "fit"@ {
        Some(ResizingType::Fit)
    } else if s == "fill"@ {
        Some(ResizingType::Fill)
    } else if s == "fill-down"@ || s == "fill_down"@ {
        Some(ResizingType::FillDown)
    } else if s == "force"@ {
        Some(ResizingType::Force)
    } else if s == "auto"@ {
        Some(ResizingType::Auto)
    } else {
        None
    }
}

/// The name a resizing type is written with.
pub open spec fn resizing_type_name(t: ResizingType) -> Seq<char> {
    match t {
        ResizingType::Fit => "fit"@,
        ResizingType::Fill => "fill"@,
        ResizingType::FillDown => "fill-down"@,
        ResizingType::Force => "force"@,
        ResizingType::Auto => "auto"@,
    }
}

/// Resizing types round-trip through their names: each type's name reads
/// back as that type, and a name that reads as a type is that type's name,
/// but for `fill_down`, which is read as `fill-down`.
pub proof fn lemma_resizing_type_names_round_trip(t: ResizingType, s: Seq<char>)
    ensures
        resizing_type_of(resizing_type_name(t)) == Some(t),
        resizing_type_of(s) == Some(t) ==> resizing_type_name(t) == s || (s == "fill_down"@ && t
            == ResizingType::FillDown),
{
    reveal_strlit("fit");
    reveal_strlit("fill");
    reveal_strlit("fill-down");
    reveal_strlit("fill_down");
    reveal_strlit("force");
    reveal_strlit("auto");
    assert("fill"@[0] != "auto"@[0]);
    assert("fill"@[2] != "fit"@[2]);
    assert("force"@[1] != "fill"@[1]);
    assert("fill-down"@[4] != "fill_down"@[4]);
    assert("fit"@.len() == 3 && "fill"@.len() == 4 && "fill-down"@.len() == 9);
    assert("force"@.len() == 5 && "auto"@.len() == 4);
}

impl ResizingType {
    /// Reads a resizing type from the characters of its name.
    pub fn from_chars(v: &[char]) -> (r: Result<Self, ResizingTypeParseError>)
        ensures
            match resizing_type_of(v@) {
                Some(t) => r == Ok::<Self, ResizingTypeParseError>(t),
                None => r is Err,
            },
    {
        if is(v, "fit") {
            Ok(ResizingType::Fit)
        } else if is(v, "fill") {
            Ok(ResizingType::Fill)
        } else if is(v, "fill-down") || is(v, "fill_down") {
            Ok(ResizingType::FillDown)
        } else if is(v, "force") {
            Ok(ResizingType::Force)
        } else if is(v, "auto") {
            Ok(ResizingType::Auto)
        } else {
            Err(ResizingTypeParseError)
        }
    }

    /// Reads a resizing type from its name.
    pub fn parse_text(value: &str) -> (r: Result<Self, ResizingTypeParseError>)
        ensures
            match resizing_type_of(value@) {
                Some(t) => r == Ok::<Self, ResizingTypeParseError>(t),
                None => r is Err,
            },
    {
        let v = chars_of(value);
        Self::from_chars(v.as_slice())
    }

    /// The name of this resizing type.
    pub fn as_str(self) -> (r: &'static str)
        ensures
            r@ == resizing_type_name(self),
            resizing_type_of(r@) == Some(self),
    {
        proof {
            reveal_strlit("fit");
            reveal_strlit("fill");
            reveal_strlit("fill-down");
            reveal_strlit("fill_down");
            reveal_strlit("force");
            reveal_strlit("auto");
            assert("fill"@[0] != "auto"@[0]);
            assert("fill"@[2] != "fit"@[2]);
            assert("force"@[1] != "fill"@[1]);
            assert("fill-down"@[4] != "fill_down"@[4]);
            assert("fit"@.len() == 3 && "fill"@.len() == 4 && "fill-down"@.len() == 9);
            assert("force"@.len() == 5 && "auto"@.len() == 4);
        }
        match self {
            ResizingType::Fit => "fit",
            ResizingType::Fill => "fill",
            ResizingType::FillDown => "fill-down",
            ResizingType::Force => "force",
            ResizingType::Auto => "auto",
        }
    }

    /// Whether a zero axis is taken from the source rather than derived from
    /// the aspect ratio. Only `force` does that.
    pub fn fills_zero_axis_from_source(self) -> (r: bool)
        ensures
            r == (self == ResizingType::Force),
    {
        match self {
            ResizingType::Force => true,
            _ => false,
        }
    }
}

impl core::str::FromStr for ResizingType {
    type Err = ResizingTypeParseError;

    fn from_str(value: &str) -> Result<Self, Self::Err> {
        Self::parse_text(value)
    }
}

/// The parameters of a resize operation.
#[derive(Debug, Clone, Copy, PartialEq, Eq, Structural)]
pub struct Resize {
    /// The type of resizing to perform.
    pub resizing_type: ResizingType,
    /// The target width.
    pub width: u32,
    /// The target height.
    pub height: u32,
}

impl Default for Resize {
    fn default() -> (r: Self)
        ensures
            r == (Resize { resizing_type: ResizingType::Fit, width: 0, height: 0 }),
    {
        Resize { resizing_type: ResizingType::Fit, width: 0, height: 0 }
    }
}

/// Anchor used when an operation has to choose which part of an image to keep.
#[derive(Debug, Clone, Copy, PartialEq, Eq, Structural)]
pub enum GravityType {
    Center,
    North,
    South,
    East,
    West,
    NorthEast,
    NorthWest,
    SouthEast,
    SouthWest,
    /// The offsets name a point, in 0..1 of each axis, to centre the result on.
    FocusPoint,
    /// libvips picks the window by looking at the image's content.
    Smart,
}

impl Default for GravityType {
    fn default() -> (r: Self)
        ensures
            r == GravityType::Center,
    {
        GravityType::Center
    }
}

/// The gravity type an abbreviation names.
pub open spec fn gravity_type_of(s: Seq<char>) -> Option<GravityType> {
    if s == "ce"@ {
        Some(GravityType::Center)
    } else if s == "no"@ {
        Some(GravityType::North)
    } else if s == "so"@ {
        Some(GravityType::South)
    } else if s == "ea"@ {
        Some(GravityType::East)
    } else if s == "we"@ {
        Some(GravityType::West)
    } else if s == "noea"@ {
        Some(GravityType::NorthEast)
    } else if s == "nowe"@ {
        Some(GravityType::NorthWest)
    } else if s == "soea"@ {
        Some(GravityType::SouthEast)
    } else if s == "sowe"@ {
        Some(GravityType::SouthWest)
    } else if s == "fp"@ {
        Some(GravityType::FocusPoint)
    } else if s == "sm"@ {
        Some(GravityType::Smart)
    } else {
        None
    }
}

/// The abbreviation a gravity type is written with.
pub open spec fn gravity_type_name(g: GravityType) -> Seq<char> {
    match g {
        GravityType::Center => "ce"@,
        GravityType::North => "no"@,
        GravityType::South => "so"@,
        GravityType::East => "ea"@,
        GravityType::West => "we"@,
        GravityType::NorthEast => "noea"@,
        GravityType::NorthWest => "nowe"@,
        GravityType::SouthEast => "soea"@,
        GravityType::SouthWest => "sowe"@,
        GravityType::FocusPoint => "fp"@,
        GravityType::Smart => "sm"@,
    }
}

/// Gravity types round-trip through their abbreviations: each type's
/// abbreviation reads back as that type, an abbreviation that reads as a type
/// is that type's, and a long name such as `center` is no abbreviation.
pub proof fn lemma_gravity_type_names_round_trip(g: GravityType, s: Seq<char>)
    ensures
        gravity_type_of(gravity_type_name(g)) == Some(g),
        gravity_type_of(s) == Some(g) ==> gravity_type_name(g) == s,
        gravity_type_of("center"@) is None,
{
    reveal_strlit("ce");
    reveal_strlit("no");
    reveal_strlit("so");
    reveal_strlit("ea");
    reveal_strlit("we");
    reveal_strlit("noea");
    reveal_strlit("nowe");
    reveal_strlit("soea");
    reveal_strlit("sowe");
    reveal_strlit("fp");
    reveal_strlit("sm");
    reveal_strlit("center");
    assert("ce"@[0] == 'c' && "no"@[0] == 'n' && "so"@[0] == 's' && "ea"@[0] == 'e');
    assert("we"@[0] == 'w' && "fp"@[0] == 'f' && "sm"@[0] == 's');
    assert("so"@[1] == 'o' && "sm"@[1] == 'm');
    assert("noea"@[0] == 'n' && "nowe"@[0] == 'n' && "soea"@[0] == 's' && "sowe"@[0] == 's');
    assert("noea"@[2] == 'e' && "nowe"@[2] == 'w' && "soea"@[2] == 'e' && "sowe"@[2] == 'w');
    assert("ce"@.len() == 2 && "no"@.len() == 2 && "so"@.len() == 2 && "ea"@.len() == 2);
    assert("we"@.len() == 2 && "fp"@.len() == 2 && "sm"@.len() == 2);
    assert("noea"@.len() == 4 && "nowe"@.len() == 4 && "soea"@.len() == 4 && "sowe"@.len() == 4);
    assert("center"@.len() == 6);
}

impl GravityType {
    /// Reads a gravity type from the characters of its abbreviation.
    pub fn from_chars(v: &[char]) -> (r: Option<Self>)
        ensures
            r == gravity_type_of(v@),
    {
        if is(v, "ce") {
            Some(GravityType::Center)
        } else if is(v, "no") {
            Some(GravityType::North)
        } else if is(v, "so") {
            Some(GravityType::South)
        } else if is(v, "ea") {
            Some(GravityType::East)
        } else if is(v, "we") {
            Some(GravityType::West)
        } else if is(v, "noea") {
            Some(GravityType::NorthEast)
        } else if is(v, "nowe") {
            Some(GravityType::NorthWest)
        } else if is(v, "soea") {
            Some(GravityType::SouthEast)
        } else if is(v, "sowe") {
            Some(GravityType::SouthWest)
        } else if is(v, "fp") {
            Some(GravityType::FocusPoint)
        } else if is(v, "sm") {
            Some(GravityType::Smart)
        } else {
            None
        }
    }

    /// Reads a gravity type from its abbreviation.
    pub fn parse(value: &str) -> (r: Option<Self>)
        ensures
            r == gravity_type_of(value@),
    {
        let v = chars_of(value);
        Self::from_chars(v.as_slice())
    }

    /// Whether the window position is chosen by looking at the pixels.
    pub fn is_content_aware(self) -> (r: bool)
        ensures
            r == (self == GravityType::Smart),
    {
        match self {
            GravityType::Smart => true,
            _ => false,
        }
    }

    /// The abbreviation of this gravity type.
    pub fn as_str(self) -> (r: &'static str)
        ensures
            r@ == gravity_type_name(self),
            gravity_type_of(r@) == Some(self),
    {
        proof {
            reveal_strlit("ce");
            reveal_strlit("no");
            reveal_strlit("so");
            reveal_strlit("ea");
            reveal_strlit("we");
            reveal_strlit("noea");
            reveal_strlit("nowe");
            reveal_strlit("soea");
            reveal_strlit("sowe");
            reveal_strlit("fp");
            reveal_strlit("sm");
            assert("ce"@[0] == 'c' && "no"@[0] == 'n' && "so"@[0] == 's' && "ea"@[0] == 'e');
            assert("we"@[0] == 'w' && "fp"@[0] == 'f' && "sm"@[0] == 's');
            assert("so"@[1] == 'o' && "sm"@[1] == 'm');
            assert("noea"@[0] == 'n' && "nowe"@[0] == 'n' && "soea"@[0] == 's' && "sowe"@[0] == 's');
            assert("noea"@[2] == 'e' && "nowe"@[2] == 'w' && "soea"@[2] == 'e' && "sowe"@[2] == 'w');
            assert("ce"@.len() == 2 && "no"@.len() == 2 && "so"@.len() == 2 && "ea"@.len() == 2);
            assert("we"@.len() == 2 && "fp"@.len() == 2 && "sm"@.len() == 2);
            assert("noea"@.len() == 4 && "nowe"@.len() == 4 && "soea"@.len() == 4 && "sowe"@.len() == 4);
        }
        match self {
            GravityType::Center => "ce",
            GravityType::North => "no",
            GravityType::South => "so",
            GravityType::East => "ea",
            GravityType::West => "we",
            GravityType::NorthEast => "noea",
            GravityType::NorthWest => "nowe",
            GravityType::SouthEast => "soea",
            GravityType::SouthWest => "sowe",
            GravityType::FocusPoint => "fp",
            GravityType::Smart => "sm",
        }
    }
}

/// An anchor plus its offsets.
///
/// For every anchor but `sm` and `fp` the offsets nudge the window away from
/// the anchor: pixels when the magnitude is at least 1, otherwise a fraction of
/// the axis. Focus point reads them as the coordinates, in 0..1, that the
/// result centres on.
#[derive(Debug, Clone, Copy, PartialEq, Eq, Structural)]
pub struct Gravity {
    pub kind: GravityType,
    pub x: Fixed,
    pub y: Fixed,
}

impl Default for Gravity {
    fn default() -> (r: Self)
        ensures
            r == Gravity::spec_new(GravityType::Center),
    {
        Self::new(GravityType::Center)
    }
}

/// What parsing `type[:x_offset[:y_offset]]` from argument `start` gives.
pub open spec fn gravity_from_args(args: Seq<Seq<char>>, start: int, option: Seq<char>) -> Result<
    Gravity,
    OptionErrorKind,
> {
    match spec_arg(args, start) {
        None => Err(OptionErrorKind::Invalid(option + " gravity requires a gravity type"@)),
        Some(k) => match gravity_type_of(k) {
            None => Err(
                OptionErrorKind::Invalid(
                    option + " gravity must be one of: ce, no, so, ea, we, noea, nowe, soea, sowe, fp, sm"@,
                ),
            ),
            Some(kind) => {
                let x = match spec_arg(args, start + 1) {
                    Some(v) => spec_decimal(v, "gravity x offset"@),
                    None => Ok(0int),
                };
                let y = match spec_arg(args, start + 2) {
                    Some(v) => spec_decimal(v, "gravity y offset"@),
                    None => Ok(0int),
                };
                match (x, y) {
                    (Err(e), _) => Err(e),
                    (Ok(_), Err(e)) => Err(e),
                    (Ok(x), Ok(y)) => if kind == GravityType::FocusPoint && !(0 <= x
                        <= 1_000_000_000 && 0 <= y <= 1_000_000_000) {
                        Err(OptionErrorKind::Invalid("focus point gravity coordinates must be between 0 and 1"@))
                    } else {
                        Ok(Gravity { kind, x: Fixed { nanos: x as i64 }, y: Fixed { nanos: y as i64 } })
                    },
                }
            },
        },
    }
}

impl Gravity {
    pub open spec fn spec_new(kind: GravityType) -> Gravity {
        Gravity { kind, x: Fixed { nanos: 0 }, y: Fixed { nanos: 0 } }
    }

    /// A gravity with no offsets.
    pub fn new(kind: GravityType) -> (r: Self)
        ensures
            r == Gravity::spec_new(kind),
    {
        Gravity { kind, x: Fixed { nanos: 0 }, y: Fixed { nanos: 0 } }
    }

    /// Parses `type[:x_offset[:y_offset]]` starting at `start` in `args`.
    pub fn parse(args: &[String], start: usize, option: &str) -> (r: Result<Self, OptionParseError>)
        requires
            start < usize::MAX - 2,
        ensures
            match gravity_from_args(arg_views(args@), start as int, option@) {
                Ok(g) => r == Ok::<Gravity, OptionParseError>(g),
                Err(k) => r matches Err(e) && e.kind() == k,
            },
    {
        let kind = match arg(args, start) {
            None => {
                return Err(OptionParseError::invalid_for(option, " gravity requires a gravity type"));
            },
            Some(k) => k,
        };
        let kind = match GravityType::from_chars(kind.as_slice()) {
            None => {
                return Err(
                    OptionParseError::invalid_for(
                        option,
                        " gravity must be one of: ce, no, so, ea, we, noea, nowe, soea, sowe, fp, sm",
                    ),
                );
            },
            Some(k) => k,
        };
        let x = match arg(args, start + 1) {
            Some(value) => parse_float(value.as_slice(), "gravity x offset")?,
            None => Fixed { nanos: 0 },
        };
        let y = match arg(args, start + 2) {
            Some(value) => parse_float(value.as_slice(), "gravity y offset")?,
            None => Fixed { nanos: 0 },
        };
        if matches!(kind, GravityType::FocusPoint) && !(0 <= x.nanos && x.nanos <= 1_000_000_000
            && 0 <= y.nanos && y.nanos <= 1_000_000_000) {
            return Err(
                OptionParseError::invalid("focus point gravity coordinates must be between 0 and 1"),
            );
        }
        Ok(Gravity { kind, x, y })
    }
}

/// The parameters of a crop.
///
/// Extents follow imgproxy: at least 1 is a pixel count, below 1 a fraction of
/// the source axis, and 0 means "the whole axis".
#[derive(Debug, Clone, Copy, PartialEq, Eq, Structural)]
pub struct Crop {
    pub width: Fixed,
    pub height: Fixed,
    /// Optional crop gravity, falling back to the request's own `gravity`.
    pub gravity: Option<Gravity>,
}

/// The pixel count a crop extent resolves to against a source axis.
pub open spec fn crop_extent(extent: int, source: nat) -> nat {
    if extent <= 0 {
        0
    } else if extent >= 1_000_000_000 {
        let whole = extent / 1_000_000_000;
        if whole > u32::MAX {
            u32::MAX as nat
        } else {
            whole as nat
        }
    } else {
        let rounded = (source * extent / 500_000_000 + 1) / 2;
        if rounded < 1 {
            1
        } else if rounded > u32::MAX {
            u32::MAX as nat
        } else {
            rounded as nat
        }
    }
}

impl Crop {
    /// Resolves one extent against the source axis it is measured on.
    pub fn resolve_extent(extent: Fixed, source: u32) -> (r: u32)
        ensures
            r == crop_extent(extent.nanos as int, source as nat),
    {
        if extent.nanos <= 0 {
            return 0;
        }
        if extent.nanos >= 1_000_000_000 {
            let whole: i64 = extent.nanos / 1_000_000_000;
            return if whole > u32::MAX as i64 {
                u32::MAX
            } else {
                whole as u32
            };
        }
        assert(source as u128 * extent.nanos as u128 <= 4_294_967_295u128 * 1_000_000_000u128) by (nonlinear_arith)
            requires
                source <= u32::MAX,
                0 < extent.nanos < 1_000_000_000,
        ;
        let product: u128 = source as u128 * extent.nanos as u128;
        let rounded: u128 = (product / 500_000_000 + 1) / 2;
        if rounded < 1 {
            1
        } else if rounded > u32::MAX as u128 {
            u32::MAX
        } else {
            rounded as u32
        }
    }

    /// The pixel extents this crop resolves to against a given source.
    pub fn resolve(&self, src_width: u32, src_height: u32) -> (r: (u32, u32))
        ensures
            r.0 == crop_extent(self.width.nanos as int, src_width as nat),
            r.1 == crop_extent(self.height.nanos as int, src_height as nat),
    {
        (Self::resolve_extent(self.width, src_width), Self::resolve_extent(self.height, src_height))
    }
}

/// A crop extent argument: a non-negative decimal.
pub open spec fn crop_extent_arg(v: Seq<char>, option: Seq<char>) -> Result<int, OptionErrorKind> {
    match spec_decimal(v, option) {
        Err(e) => Err(e),
        Ok(n) => if n < 0 {
            Err(OptionErrorKind::Invalid(option + " must be a finite non-negative number"@))
        } else {
            Ok(n)
        },
    }
}

/// What the `crop:width:height[:gravity...]` arguments give.
pub open spec fn crop_from_args(args: Seq<Seq<char>>) -> Result<Crop, OptionErrorKind> {
    if args.len() < 2 {
        Err(OptionErrorKind::Invalid("crop option requires at least two arguments: width, height"@))
    } else {
        match (crop_extent_arg(args[0], "crop width"@), crop_extent_arg(args[1], "crop height"@)) {
            (Err(e), _) => Err(e),
            (Ok(_), Err(e)) => Err(e),
            (Ok(w), Ok(h)) => match spec_arg(args, 2) {
                None => Ok(
                    Crop {
                        width: Fixed { nanos: w as i64 },
                        height: Fixed { nanos: h as i64 },
                        gravity: None,
                    },
                ),
                Some(_) => match gravity_from_args(args, 2, "crop"@) {
                    Err(e) => Err(e),
                    Ok(g) => Ok(
                        Crop {
                            width: Fixed { nanos: w as i64 },
                            height: Fixed { nanos: h as i64 },
                            gravity: Some(g),
                        },
                    ),
                },
            },
        }
    }
}

fn parse_crop_extent(value: &[char], option: &str) -> (r: Result<Fixed, OptionParseError>)
    ensures
        match crop_extent_arg(value@, option@) {
            Ok(n) => r matches Ok(x) && x.nanos == n,
            Err(k) => r matches Err(e) && e.kind() == k,
        },
{
    let extent = parse_float(value, option)?;
    if extent.nanos < 0 {
        return Err(OptionParseError::invalid_for(option, " must be a finite non-negative number"));
    }
    Ok(extent)
}

/// Parses `crop:width:height[:gravity[:x[:y]]]`.
pub fn parse_crop(args: &[String]) -> (r: Result<Crop, OptionParseError>)
    ensures
        match crop_from_args(arg_views(args@)) {
            Ok(c) => r == Ok::<Crop, OptionParseError>(c),
            Err(k) => r matches Err(e) && e.kind() == k,
        },
{
    if args.len() < 2 {
        return Err(
            OptionParseError::invalid("crop option requires at least two arguments: width, height"),
        );
    }
    let w = chars_of(args[0].as_str());
    let h = chars_of(args[1].as_str());
    let width = parse_crop_extent(w.as_slice(), "crop width")?;
    let height = parse_crop_extent(h.as_slice(), "crop height")?;
    let gravity = match arg(args, 2) {
        Some(_) => Some(Gravity::parse(args, 2, "crop")?),
        None => None,
    };
    Ok(Crop { width, height, gravity })
}

/// Correcting the crop area's shape, independently of its size.
#[derive(Debug, Clone, Copy, PartialEq, Eq, Structural)]
pub struct CropAspectRatio {
    /// The ratio the crop area should match. Zero means "leave it alone".
    pub ratio: Fixed,
    /// Grow the crop area to reach the ratio instead of shrinking it.
    pub enlarge: bool,
}

/// What the `crop_aspect_ratio:ratio[:enlarge]` arguments give.
pub open spec fn crop_aspect_ratio_from_args(args: Seq<Seq<char>>) -> Result<
    CropAspectRatio,
    OptionErrorKind,
> {
    match spec_arg(args, 0) {
        None => Err(OptionErrorKind::Invalid("crop_aspect_ratio option requires an aspect ratio"@)),
        Some(v) => match crop_extent_arg(v, "crop aspect ratio"@) {
            Err(e) => Err(e),
            Ok(n) => Ok(
                CropAspectRatio {
                    ratio: Fixed { nanos: n as i64 },
                    enlarge: match spec_arg(args, 1) {
                        Some(a) => is_true(a),
                        None => false,
                    },
                },
            ),
        },
    }
}

/// `n / d` rounded half up, saturated to `u32` and at least 1.
pub open spec fn round_ratio_at_least_one(n: nat, d: nat) -> nat {
    let q = (2 * n + d) / (2 * d);
    if q < 1 {
        1
    } else if q > u32::MAX {
        u32::MAX as nat
    } else {
        q
    }
}

/// The window a ratio correction produces.
pub open spec fn corrected_window(ratio: int, enlarge: bool, width: nat, height: nat) -> (
    nat,
    nat,
) {
    if ratio <= 0 || width == 0 || height == 0 {
        (width, height)
    } else if width * 1_000_000_000 == ratio * height {
        (width, height)
    } else {
        let too_wide = width * 1_000_000_000 > ratio * height;
        if too_wide == enlarge {
            (width, round_ratio_at_least_one(width * 1_000_000_000, ratio as nat))
        } else {
            (round_ratio_at_least_one(height * (ratio as nat), 1_000_000_000), height)
        }
    }
}

fn round_ratio(n: u128, d: u128) -> (r: u32)
    requires
        d > 0,
        n <= 100_000_000_000_000_000_000_000_000_000,
        d <= 1_000_000_000_000_000_000_000,
    ensures
        r == round_ratio_at_least_one(n as nat, d as nat),
{
    let q: u128 = (2 * n + d) / (2 * d);
    if q < 1 {
        1
    } else if q > u32::MAX as u128 {
        u32::MAX
    } else {
        q as u32
    }
}

impl CropAspectRatio {
    /// Parses `aspect_ratio[:enlarge]`.
    pub fn parse(args: &[String]) -> (r: Result<Self, OptionParseError>)
        ensures
            match crop_aspect_ratio_from_args(arg_views(args@)) {
                Ok(c) => r == Ok::<CropAspectRatio, OptionParseError>(c),
                Err(k) => r matches Err(e) && e.kind() == k,
            },
    {
        let ratio = match arg(args, 0) {
            None => {
                return Err(OptionParseError::invalid("crop_aspect_ratio option requires an aspect ratio"));
            },
            Some(v) => v,
        };
        let ratio = parse_crop_extent(ratio.as_slice(), "crop aspect ratio")?;
        let enlarge = match arg(args, 1) {
            Some(v) => is_true_chars(v.as_slice()),
            None => false,
        };
        Ok(CropAspectRatio { ratio, enlarge })
    }

    /// Reshapes a crop window to the requested ratio: the long axis shrinks,
    /// or with `enlarge` the short axis grows.
    pub fn correct(&self, width: u32, height: u32) -> (r: (u32, u32))
        ensures
            r.0 == corrected_window(self.ratio.nanos as int, self.enlarge, width as nat, height as nat).0,
            r.1 == corrected_window(self.ratio.nanos as int, self.enlarge, width as nat, height as nat).1,
    {
        if self.ratio.nanos <= 0 || width == 0 || height == 0 {
            return (width, height);
        }
        assert(self.ratio.nanos as u128 * height as u128 <= 9_223_372_036_854_775_807u128 * 4_294_967_295u128) by (nonlinear_arith)
            requires
                0 < self.ratio.nanos <= i64::MAX,
                height <= u32::MAX,
        ;
        let w: u128 = width as u128 * 1_000_000_000;
        let rh: u128 = self.ratio.nanos as u128 * height as u128;
        if w == rh {
            return (width, height);
        }
        let too_wide = w > rh;
        if too_wide == self.enlarge {
            (width, round_ratio(w, self.ratio.nanos as u128))
        } else {
            (round_ratio(height as u128 * self.ratio.nanos as u128, 1_000_000_000), height)
        }
    }
}

/// Padding out to a target size or to a target aspect ratio.
#[derive(Debug, Clone, Copy, PartialEq, Eq, Structural)]
pub struct Extend {
    pub enabled: bool,
    /// Where the source sits on the extended canvas, falling back to centre.
    pub gravity: Option<Gravity>,
}

impl Default for Extend {
    fn default() -> (r: Self)
        ensures
            r == (Extend { enabled: false, gravity: None }),
    {
        Extend { enabled: false, gravity: None }
    }
}

/// What `enabled[:gravity_type[:x[:y]]]` gives; smart gravity is refused,
/// since extending adds canvas rather than choosing a window.
pub open spec fn extend_from_args(args: Seq<Seq<char>>, option: Seq<char>) -> Result<Extend, OptionErrorKind> {
    let enabled = match spec_arg(args, 0) {
        Some(a) => is_true(a),
        None => false,
    };
    match spec_arg(args, 1) {
        None => Ok(Extend { enabled, gravity: None }),
        Some(_) => match gravity_from_args(args, 1, option) {
            Err(e) => Err(e),
            Ok(g) => if g.kind == GravityType::Smart {
                Err(
                    OptionErrorKind::Invalid(
                        option
                            + " gravity cannot be sm: it positions the image on a larger canvas, which has no content to choose from"@,
                    ),
                )
            } else {
                Ok(Extend { enabled, gravity: Some(g) })
            },
        },
    }
}

impl Extend {
    /// Parses `enabled[:gravity_type[:x[:y]]]`.
    pub fn parse(args: &[String], option: &str) -> (r: Result<Self, OptionParseError>)
        ensures
            match extend_from_args(arg_views(args@), option@) {
                Ok(x) => r == Ok::<Extend, OptionParseError>(x),
                Err(k) => r matches Err(e) && e.kind() == k,
            },
    {
        let enabled = match arg(args, 0) {
            Some(v) => is_true_chars(v.as_slice()),
            None => false,
        };
        let gravity = match arg(args, 1) {
            Some(_) => {
                let gravity = Gravity::parse(args, 1, option)?;
                if gravity.kind.is_content_aware() {
                    return Err(
                        OptionParseError::invalid_for(
                            option,
                            " gravity cannot be sm: it positions the image on a larger canvas, which has no content to choose from",
                        ),
                    );
                }
                Some(gravity)
            },
            None => None,
        };
        Ok(Extend { enabled, gravity })
    }
}

/// A flip.
#[derive(Debug, Clone, Copy, PartialEq, Eq, Structural)]
pub struct Flip {
    pub horizontal: bool,
    pub vertical: bool,
}

/// Border trimming controls.
#[derive(Debug, Clone, Copy, PartialEq, Eq)]
pub struct Trim {
    /// How far a pixel may differ from the background and still be trimmed.
    pub threshold: Fixed,
    /// Colour to treat as background; detected from the image when absent.
    pub color: Option<[u8; 4]>,
    /// Cut equal amounts from the left and right.
    pub equal_hor: bool,
    /// Cut equal amounts from the top and bottom.
    pub equal_ver: bool,
}

/// Whether padding argument `i` is the first that is no `u32`.
pub open spec fn first_bad_padding(args: Seq<Seq<char>>, i: int) -> bool {
    &&& 0 <= i < args.len()
    &&& spec_uint(args[i], u32::MAX as nat, "padding"@) is Err
    &&& forall|j: int| 0 <= j < i ==> spec_uint(#[trigger] args[j], u32::MAX as nat, "padding"@) is Ok
}

/// The padding the arguments give, as (top, right, bottom, left); the first
/// argument that is no `u32` is the one reported.
pub open spec fn padding_from_args(args: Seq<Seq<char>>) -> Result<(u32, u32, u32, u32), OptionErrorKind> {
    if args.len() == 0 {
        Err(OptionErrorKind::Invalid("padding option requires at least one argument"@))
    } else if exists|i: int| 0 <= i < args.len() && spec_uint(args[i], u32::MAX as nat, "padding"@) is Err {
        Err(OptionErrorKind::Integer("padding"@, args[choose|i: int| first_bad_padding(args, i)]))
    } else {
        let v = |i: int| spec_uint(args[i], u32::MAX as nat, "padding"@)->Ok_0 as u32;
        if args.len() == 1 {
            Ok((v(0), v(0), v(0), v(0)))
        } else if args.len() == 2 {
            Ok((v(0), v(1), v(0), v(1)))
        } else if args.len() == 4 {
            Ok((v(0), v(1), v(2), v(3)))
        } else {
            Err(OptionErrorKind::Invalid("padding must have 1, 2 or 4 arguments"@))
        }
    }
}

/// Parses `padding:all`, `padding:vertical:horizontal` or
/// `padding:top:right:bottom:left` into (top, right, bottom, left).
pub fn parse_padding(args: &[String]) -> (r: Result<(u32, u32, u32, u32), OptionParseError>)
    ensures
        match padding_from_args(arg_views(args@)) {
            Ok(p) => r == Ok::<(u32, u32, u32, u32), OptionParseError>(p),
            Err(k) => r matches Err(e) && e.kind() == k,
        },
{
    let ghost a = arg_views(args@);
    if args.len() == 0 {
        return Err(OptionParseError::invalid("padding option requires at least one argument"));
    }
    let mut values: Vec<u32> = Vec::new();
    let mut i: usize = 0;
    while i < args.len()
        invariant
            a == arg_views(args@),
            i <= args@.len(),
            values@.len() == i,
            forall|j: int|
                0 <= j < i ==> spec_uint(#[trigger] a[j], u32::MAX as nat, "padding"@) == Ok::<
                    nat,
                    OptionErrorKind,
                >(values@[j] as nat),
        decreases args@.len() - i,
    {
        let v = chars_of(args[i].as_str());
        assert(v@ == a[i as int]);
        match parse_integer(v.as_slice(), u32::MAX as u64, "padding") {
            Ok(n) => {
                values.push(n as u32);
            },
            Err(e) => {
                assert(spec_uint(a[i as int], u32::MAX as nat, "padding"@) is Err);
                proof {
                    assert(first_bad_padding(a, i as int));
                    let c = choose|k: int| first_bad_padding(a, k);
                    if c < i {
                        assert(spec_uint(a[c], u32::MAX as nat, "padding"@) is Ok);
                    } else if c > i {
                        assert(spec_uint(a[i as int], u32::MAX as nat, "padding"@) is Ok);
                    }
                }
                return Err(e);
            },
        }
        i = i + 1;
    }
    assert(!exists|j: int| 0 <= j < a.len() && spec_uint(a[j], u32::MAX as nat, "padding"@) is Err);
    match values.len() {
        1 => Ok((values[0], values[0], values[0], values[0])),
        2 => Ok((values[0], values[1], values[0], values[1])),
        4 => Ok((values[0], values[1], values[2], values[3])),
        _ => Err(OptionParseError::invalid("padding must have 1, 2 or 4 arguments")),
    }
}

/// What the `trim` arguments give.
pub open spec fn trim_from_args(args: Seq<Seq<char>>) -> Result<Trim, OptionErrorKind> {
    match spec_arg(args, 0) {
        None => Err(OptionErrorKind::Invalid("trim option requires at least one argument: threshold"@)),
        Some(t) => match spec_decimal(t, "trim threshold"@) {
            Err(e) => Err(e),
            Ok(threshold) => if threshold < 0 {
                Err(OptionErrorKind::Invalid("trim threshold must be a finite, non-negative number"@))
            } else {
                let color = match spec_arg(args, 1) {
                    Some(c) => match hex_color(c) {
                        Ok(rgba) => Ok(Some(rgba)),
                        Err(e) => Err(e),
                    },
                    None => Ok(None),
                };
                match color {
                    Err(e) => Err(OptionErrorKind::Color(e)),
                    Ok(color) => Ok(
                        Trim {
                            threshold: Fixed { nanos: threshold as i64 },
                            color: match color {
                                Some(c) => Some([c[0], c[1], c[2], c[3]]),
                                None => None,
                            },
                            equal_hor: match spec_arg(args, 2) {
                                Some(a) => is_true(a),
                                None => false,
                            },
                            equal_ver: match spec_arg(args, 3) {
                                Some(a) => is_true(a),
                                None => false,
                            },
                        },
                    ),
                }
            },
        },
    }
}

/// Parses the `trim` arguments.
pub fn parse_trim(args: &[String]) -> (r: Result<Trim, OptionParseError>)
    ensures
        match trim_from_args(arg_views(args@)) {
            Ok(t) => r == Ok::<Trim, OptionParseError>(t),
            Err(k) => r matches Err(e) && e.kind() == k,
        },
{
    let threshold = match arg(args, 0) {
        None => {
            return Err(OptionParseError::invalid("trim option requires at least one argument: threshold"));
        },
        Some(v) => v,
    };
    let threshold = parse_float(threshold.as_slice(), "trim threshold")?;
    if threshold.nanos < 0 {
        return Err(OptionParseError::invalid("trim threshold must be a finite, non-negative number"));
    }
    let color = match arg(args, 1) {
        Some(value) => {
            let text = string_of(value.as_slice());
            match parse_hex_color(text.as_str()) {
                Ok(c) => {
                    assert(c =~= [c@[0], c@[1], c@[2], c@[3]]);
                    Some(c)
                },
                Err(e) => {
                    return Err(OptionParseError::Color(e));
                },
            }
        },
        None => None,
    };
    let equal_hor = match arg(args, 2) {
        Some(v) => is_true_chars(v.as_slice()),
        None => false,
    };
    let equal_ver = match arg(args, 3) {
        Some(v) => is_true_chars(v.as_slice()),
        None => false,
    };
    Ok(Trim { threshold, color, equal_hor, equal_ver })
}

/// What a rotation argument gives: one of 0, 90, 180 and 270.
pub open spec fn rotation_from_text(v: Seq<char>) -> Result<u16, OptionErrorKind> {
    match spec_uint(v, u16::MAX as nat, "rotation"@) {
        Err(e) => Err(e),
        Ok(n) => if n == 0 || n == 90 || n == 180 || n == 270 {
            Ok(n as u16)
        } else {
            Err(OptionErrorKind::Invalid("rotation must be one of: 0, 90, 180, 270"@))
        },
    }
}

/// Parses a rotation angle.
pub fn parse_rotation(value: &[char]) -> (r: Result<u16, OptionParseError>)
    ensures
        match rotation_from_text(value@) {
            Ok(n) => r matches Ok(x) && x == n,
            Err(k) => r matches Err(e) && e.kind() == k,
        },
{
    let rotation = parse_integer(value, u16::MAX as u64, "rotation")?;
    if !(rotation == 0 || rotation == 90 || rotation == 180 || rotation == 270) {
        return Err(OptionParseError::invalid("rotation must be one of: 0, 90, 180, 270"));
    }
    Ok(rotation as u16)
}

} // verus!
