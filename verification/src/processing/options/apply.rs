//! The parsed form of a request's directives, and how each directive changes
//! it.

use super::effects::{
    amount_from_args, brightness_from_text, dimension_or_zero, parse_brightness, watermark_from_args,
    zoom_from_args, Adjust, Watermark, Zoom,
};
use super::encoder::{
    format_quality_from_args, jpeg_options_from_args, parse_format_quality, parse_jpeg_options,
    parse_png_options, parse_webp_options, png_options_from_args, webp_options_from_args,
    SaveOptions, SaveOptionsView,
};
use super::error::{
    arg, arg_views, color_arg, decode_base64_text, parse_color, parse_float, parse_integer,
    parse_optional_bool, parse_positive, parse_quality, parse_unit, spec_arg, spec_base64_text,
    spec_decimal, spec_optional_bool, spec_positive, spec_quality, spec_uint, spec_unit,
    OptionErrorKind, OptionParseError,
};
use super::geometry::{
    crop_from_args, extend_from_args, gravity_from_args, padding_from_args, parse_crop, parse_padding,
    parse_rotation, parse_trim, resizing_type_of, rotation_from_text, trim_from_args, Crop, Extend,
    Flip, Gravity, GravityType, Resize, ResizingType, Trim,
};
use super::kinds::{option_kind_of, OptionKind};
use crate::limits::{
    dimension_from_text, file_size_from_text, resolution_from_text, MaxAnimationFrameResolution,
    MaxAnimationFrames, MaxResultDimension, MaxSourceFileSize, MaxSourceResolution,
};
use crate::numbers::{round_nanos, Fixed};
use crate::processing::utils::{is_true, is_true_chars};
use crate::text::{chars_of, is, lowercase_chars, string_of, unicode_lower};
use vstd::prelude::*;
use vstd::slice::slice_subrange;

verus! {

/// Represents a single image processing option from the URL path.
#[derive(Debug, Clone)]
pub struct ProcessingOption {
    /// The name of the processing option (e.g., "resize", "quality").
    pub name: String,
    /// Arguments for the processing option.
    pub args: Vec<String>,
}

/// Holds all parsed image processing options.
#[derive(Debug)]
pub struct ParsedOptions {
    pub resize: Option<Resize>,
    pub blur: Option<Fixed>,
    pub crop: Option<Crop>,
    pub format: Option<String>,
    /// Output quality, 1 to 100.
    pub quality: Option<u8>,
    /// Background colour for transparent areas or extending, as RGBA.
    pub background: Option<[u8; 4]>,
    /// Target width, used with `resize` when no resize was given.
    pub width: Option<u32>,
    /// Target height, used with `resize` when no resize was given.
    pub height: Option<u32>,
    pub gravity: Option<Gravity>,
    /// Whether to allow enlarging the image beyond its original dimensions.
    pub enlarge: bool,
    /// Padding out to the requested dimensions after resizing.
    pub extend: Extend,
    /// Padding out to the requested aspect ratio after resizing.
    pub extend_aspect_ratio: Extend,
    /// Padding as (top, right, bottom, left).
    pub padding: Option<(u32, u32, u32, u32)>,
    pub rotation: Option<u16>,
    pub flip: Option<Flip>,
    /// Whether to rotate the image as its EXIF orientation says.
    pub auto_rotate: bool,
    /// Whether to return the source untouched.
    pub raw: bool,
    pub max_src_resolution: Option<MaxSourceResolution>,
    /// Ceiling for either dimension of the processed image.
    pub max_result_dimension: Option<MaxResultDimension>,
    /// Ceiling on how many frames of an animated source are decoded.
    pub max_animation_frames: Option<MaxAnimationFrames>,
    /// Ceiling on the pixel count of a single animation frame.
    pub max_animation_frame_resolution: Option<MaxAnimationFrameResolution>,
    /// Border trimming, applied before crop and resize.
    pub trim: Option<Trim>,
    pub max_src_file_size: Option<MaxSourceFileSize>,
    /// Value to bypass caches (e.g., a timestamp).
    pub cache_buster: Option<String>,
    /// Unix timestamp after which the request expires.
    pub expires: Option<u64>,
    /// Response filename for Content-Disposition.
    pub filename: Option<String>,
    /// Whether to return Content-Disposition as attachment.
    pub return_attachment: bool,
    /// Device pixel ratio; absent until the URL names one, so that an explicit
    /// `dpr:1` stays distinguishable from no `dpr` at all.
    pub dpr: Option<Fixed>,
    pub min_width: Option<u32>,
    pub min_height: Option<u32>,
    /// Zoom factors applied after resizing.
    pub zoom: Option<Zoom>,
    pub sharpen: Option<Fixed>,
    pub pixelate: Option<u32>,
    /// Watermark placement, when a watermark source is configured.
    pub watermark: Option<Watermark>,
    pub watermark_url: Option<String>,
    /// Resizing algorithm (nearest, linear, cubic, lanczos2, lanczos3).
    pub resizing_algorithm: Option<String>,
    /// Alpha applied to the background colour.
    pub background_alpha: Option<Fixed>,
    pub adjust: Option<Adjust>,
    /// Encoder-specific output options.
    pub save: SaveOptions,
    /// Prefer the source's embedded thumbnail when one is large enough.
    pub enforce_thumbnail: bool,
    /// First page of a multi-page source to read.
    pub page: Option<u32>,
    /// How many pages of a multi-page source to read.
    pub pages: Option<u32>,
    /// Whether to collapse an animated source to its first frame.
    pub disable_animation: bool,
    /// Source formats that may bypass processing when the output matches.
    pub skip_processing: Vec<String>,
}

/// What parsed options hold: text as characters, limits as their numbers.
pub struct ParsedOptionsView {
    pub resize: Option<Resize>,
    pub blur: Option<Fixed>,
    pub crop: Option<Crop>,
    pub format: Option<Seq<char>>,
    pub quality: Option<u8>,
    pub background: Option<[u8; 4]>,
    pub width: Option<u32>,
    pub height: Option<u32>,
    pub gravity: Option<Gravity>,
    pub enlarge: bool,
    pub extend: Extend,
    pub extend_aspect_ratio: Extend,
    pub padding: Option<(u32, u32, u32, u32)>,
    pub rotation: Option<u16>,
    pub flip: Option<Flip>,
    pub auto_rotate: bool,
    pub raw: bool,
    pub max_src_resolution: Option<nat>,
    pub max_result_dimension: Option<nat>,
    pub max_animation_frames: Option<nat>,
    pub max_animation_frame_resolution: Option<nat>,
    pub trim: Option<Trim>,
    pub max_src_file_size: Option<nat>,
    pub cache_buster: Option<Seq<char>>,
    pub expires: Option<u64>,
    pub filename: Option<Seq<char>>,
    pub return_attachment: bool,
    pub dpr: Option<Fixed>,
    pub min_width: Option<u32>,
    pub min_height: Option<u32>,
    pub zoom: Option<Zoom>,
    pub sharpen: Option<Fixed>,
    pub pixelate: Option<u32>,
    pub watermark: Option<Watermark>,
    pub watermark_url: Option<Seq<char>>,
    pub resizing_algorithm: Option<Seq<char>>,
    pub background_alpha: Option<Fixed>,
    pub adjust: Option<Adjust>,
    pub save: SaveOptionsView,
    pub enforce_thumbnail: bool,
    pub page: Option<u32>,
    pub pages: Option<u32>,
    pub disable_animation: bool,
    pub skip_processing: Seq<Seq<char>>,
}

/// The characters of an optional string.
pub open spec fn opt_view(s: Option<String>) -> Option<Seq<char>> {
    match s {
        Some(t) => Some(t@),
        None => None,
    }
}

impl View for ParsedOptions {
    type V = ParsedOptionsView;

    open spec fn view(&self) -> ParsedOptionsView {
        ParsedOptionsView {
            resize: self.resize,
            blur: self.blur,
            crop: self.crop,
            format: opt_view(self.format),
            quality: self.quality,
            background: self.background,
            width: self.width,
            height: self.height,
            gravity: self.gravity,
            enlarge: self.enlarge,
            extend: self.extend,
            extend_aspect_ratio: self.extend_aspect_ratio,
            padding: self.padding,
            rotation: self.rotation,
            flip: self.flip,
            auto_rotate: self.auto_rotate,
            raw: self.raw,
            max_src_resolution: match self.max_src_resolution {
                Some(m) => Some(m.spec_pixels()),
                None => None,
            },
            max_result_dimension: match self.max_result_dimension {
                Some(m) => Some(m.spec_get()),
                None => None,
            },
            max_animation_frames: match self.max_animation_frames {
                Some(m) => Some(m.spec_get()),
                None => None,
            },
            max_animation_frame_resolution: match self.max_animation_frame_resolution {
                Some(m) => Some(m.spec_pixels()),
                None => None,
            },
            trim: self.trim,
            max_src_file_size: match self.max_src_file_size {
                Some(m) => Some(m.spec_get()),
                None => None,
            },
            cache_buster: opt_view(self.cache_buster),
            expires: self.expires,
            filename: opt_view(self.filename),
            return_attachment: self.return_attachment,
            dpr: self.dpr,
            min_width: self.min_width,
            min_height: self.min_height,
            zoom: self.zoom,
            sharpen: self.sharpen,
            pixelate: self.pixelate,
            watermark: self.watermark,
            watermark_url: opt_view(self.watermark_url),
            resizing_algorithm: opt_view(self.resizing_algorithm),
            background_alpha: self.background_alpha,
            adjust: self.adjust,
            save: self.save@,
            enforce_thumbnail: self.enforce_thumbnail,
            page: self.page,
            pages: self.pages,
            disable_animation: self.disable_animation,
            skip_processing: arg_views(self.skip_processing@),
        }
    }
}

/// Server-configured starting values for the options a URL may override.
///
/// The parse is seeded with them rather than patched afterwards, which keeps
/// it a single rule: the URL always wins because it is applied second.
#[derive(Debug, Clone, Copy, PartialEq, Eq, Structural)]
pub struct OptionDefaults {
    pub auto_rotate: bool,
    pub strip_metadata: bool,
    pub keep_copyright: bool,
    pub strip_color_profile: bool,
    pub preserve_hdr: bool,
    pub enforce_thumbnail: bool,
    pub return_attachment: bool,
    pub quality: Option<u8>,
}

impl OptionDefaults {
    pub open spec fn spec_default() -> OptionDefaults {
        OptionDefaults {
            auto_rotate: true,
            strip_metadata: false,
            keep_copyright: false,
            strip_color_profile: false,
            preserve_hdr: false,
            enforce_thumbnail: false,
            return_attachment: false,
            quality: None,
        }
    }
}

impl Default for OptionDefaults {
    fn default() -> (r: Self)
        ensures
            r == OptionDefaults::spec_default(),
    {
        OptionDefaults {
            auto_rotate: true,
            strip_metadata: false,
            keep_copyright: false,
            strip_color_profile: false,
            preserve_hdr: false,
            enforce_thumbnail: false,
            return_attachment: false,
            quality: None,
        }
    }
}

/// The no-extend setting.
pub open spec fn no_extend() -> Extend {
    Extend { enabled: false, gravity: None }
}

/// The options a parse starts from: nothing requested, the server's defaults
/// in place, and `lanczos3` resampling.
pub open spec fn seeded(d: OptionDefaults) -> ParsedOptionsView {
    ParsedOptionsView {
        resize: None,
        blur: None,
        crop: None,
        format: None,
        quality: d.quality,
        background: None,
        width: None,
        height: None,
        gravity: None,
        enlarge: false,
        extend: no_extend(),
        extend_aspect_ratio: no_extend(),
        padding: None,
        rotation: None,
        flip: None,
        auto_rotate: d.auto_rotate,
        raw: false,
        max_src_resolution: None,
        max_result_dimension: None,
        max_animation_frames: None,
        max_animation_frame_resolution: None,
        trim: None,
        max_src_file_size: None,
        cache_buster: None,
        expires: None,
        filename: None,
        return_attachment: d.return_attachment,
        dpr: None,
        min_width: None,
        min_height: None,
        zoom: None,
        sharpen: None,
        pixelate: None,
        watermark: None,
        watermark_url: None,
        resizing_algorithm: Some("lanczos3"@),
        background_alpha: None,
        adjust: None,
        save: SaveOptionsView {
            strip_metadata: Some(d.strip_metadata),
            strip_color_profile: Some(d.strip_color_profile),
            keep_copyright: Some(d.keep_copyright),
            preserve_hdr: Some(d.preserve_hdr),
            ..SaveOptionsView::empty()
        },
        enforce_thumbnail: d.enforce_thumbnail,
        page: None,
        pages: None,
        disable_animation: false,
        skip_processing: Seq::empty(),
    }
}

/// The larger of a decimal and 1.
pub open spec fn at_least_one(f: Fixed) -> Fixed {
    if f.nanos >= 1_000_000_000 {
        f
    } else {
        Fixed { nanos: 1_000_000_000 }
    }
}

impl ParsedOptions {
    /// Builds the starting point for a parse, seeded from the server's
    /// configured defaults.
    pub fn with_defaults(defaults: OptionDefaults) -> (r: Self)
        ensures
            r@ == seeded(defaults),
    {
        let mut save = SaveOptions::default();
        save.strip_metadata = Some(defaults.strip_metadata);
        save.strip_color_profile = Some(defaults.strip_color_profile);
        save.keep_copyright = Some(defaults.keep_copyright);
        save.preserve_hdr = Some(defaults.preserve_hdr);
        let skip: Vec<String> = Vec::new();
        let r = ParsedOptions {
            resize: None,
            blur: None,
            crop: None,
            format: None,
            quality: defaults.quality,
            background: None,
            width: None,
            height: None,
            gravity: None,
            enlarge: false,
            extend: Extend { enabled: false, gravity: None },
            extend_aspect_ratio: Extend { enabled: false, gravity: None },
            padding: None,
            rotation: None,
            flip: None,
            auto_rotate: defaults.auto_rotate,
            raw: false,
            max_src_resolution: None,
            max_result_dimension: None,
            max_animation_frames: None,
            max_animation_frame_resolution: None,
            trim: None,
            max_src_file_size: None,
            cache_buster: None,
            expires: None,
            filename: None,
            return_attachment: defaults.return_attachment,
            dpr: None,
            min_width: None,
            min_height: None,
            zoom: None,
            sharpen: None,
            pixelate: None,
            watermark: None,
            watermark_url: None,
            resizing_algorithm: Some("lanczos3".to_owned()),
            background_alpha: None,
            adjust: None,
            save,
            enforce_thumbnail: defaults.enforce_thumbnail,
            page: None,
            pages: None,
            disable_animation: false,
            skip_processing: skip,
        };
        assert(r@.skip_processing =~= Seq::<Seq<char>>::empty());
        r
    }

    /// The zoom factors in effect, defaulting to no zoom.
    pub fn zoom_factors(&self) -> (r: Zoom)
        ensures
            r == match self.zoom {
                Some(z) => z,
                None => Zoom::spec_default(),
            },
    {
        match self.zoom {
            Some(z) => z,
            None => Zoom::default(),
        }
    }

    /// The device pixel ratio in effect, never below 1.
    pub fn dpr_factor(&self) -> (r: Fixed)
        ensures
            r == at_least_one(
                match self.dpr {
                    Some(d) => d,
                    None => Fixed { nanos: 1_000_000_000 },
                },
            ),
    {
        let d = match self.dpr {
            Some(d) => d,
            None => Fixed { nanos: 1_000_000_000 },
        };
        if d.nanos >= 1_000_000_000 {
            d
        } else {
            Fixed { nanos: 1_000_000_000 }
        }
    }

    /// Gravity for a crop: the crop's own if it names one, otherwise the
    /// request's `gravity`, otherwise centre.
    pub fn crop_gravity(&self) -> (r: Gravity)
        ensures
            r == match self.crop {
                Some(c) if c.gravity is Some => c.gravity->0,
                _ => match self.gravity {
                    Some(g) => g,
                    None => Gravity::spec_new(GravityType::Center),
                },
            },
    {
        match self.crop {
            Some(c) if c.gravity.is_some() => c.gravity.unwrap(),
            _ => match self.gravity {
                Some(g) => g,
                None => Gravity::new(GravityType::Center),
            },
        }
    }

    /// Gravity for the fill window, which never consults the crop's.
    pub fn fill_gravity(&self) -> (r: Gravity)
        ensures
            r == match self.gravity {
                Some(g) => g,
                None => Gravity::spec_new(GravityType::Center),
            },
    {
        match self.gravity {
            Some(g) => g,
            None => Gravity::new(GravityType::Center),
        }
    }
}

impl Default for ParsedOptions {
    fn default() -> (r: Self)
        ensures
            r@ == seeded(OptionDefaults::spec_default()),
    {
        Self::with_defaults(OptionDefaults::default())
    }
}

/// Argument 0, which the directive requires, refused with `missing` when
/// absent.
pub open spec fn required(args: Seq<Seq<char>>, missing: Seq<char>) -> Result<Seq<char>, OptionErrorKind> {
    match spec_arg(args, 0) {
        Some(v) => Ok(v),
        None => Err(OptionErrorKind::Invalid(missing)),
    }
}

/// A switch at argument 0: what it says, or on when it is absent.
pub open spec fn switch_on(args: Seq<Seq<char>>) -> bool {
    match spec_arg(args, 0) {
        Some(v) => is_true(v),
        None => true,
    }
}

/// A resize with nothing set.
pub open spec fn default_resize() -> Resize {
    Resize { resizing_type: ResizingType::Fit, width: 0, height: 0 }
}

/// The resize a request already has, or the default one.
pub open spec fn resize_or_default(r: Option<Resize>) -> Resize {
    match r {
        Some(x) => x,
        None => default_resize(),
    }
}

/// A resizing type argument at `i`, or `cur` when it is absent.
pub open spec fn resizing_type_or(args: Seq<Seq<char>>, i: int, cur: ResizingType) -> Result<
    ResizingType,
    OptionErrorKind,
> {
    match spec_arg(args, i) {
        Some(v) => match resizing_type_of(v) {
            Some(t) => Ok(t),
            None => Err(OptionErrorKind::Invalid("resizing_type must be one of: fit, fill, fill-down, force, auto"@)),
        },
        None => Ok(cur),
    }
}

/// A `u32` argument at `i`, or `cur` when it is absent.
pub open spec fn u32_or(args: Seq<Seq<char>>, i: int, cur: u32, option: Seq<char>) -> Result<u32, OptionErrorKind> {
    match spec_arg(args, i) {
        Some(v) => match spec_uint(v, u32::MAX as nat, option) {
            Ok(n) => Ok(n as u32),
            Err(e) => Err(e),
        },
        None => Ok(cur),
    }
}

/// The extend setting from argument `i` on, when argument `i` is given.
pub open spec fn extend_from(args: Seq<Seq<char>>, i: int, cur: Extend) -> Result<
    Extend,
    OptionErrorKind,
> {
    if spec_arg(args, i) is Some {
        extend_from_args(args.skip(i), "extend"@)
    } else {
        Ok(cur)
    }
}

/// A boolean at argument `i`, or `cur` when it is absent.
pub open spec fn bool_or(args: Seq<Seq<char>>, i: int, cur: bool) -> bool {
    match spec_arg(args, i) {
        Some(v) => is_true(v),
        None => cur,
    }
}

/// `resize:type:width:height:enlarge:extend...`: each given argument replaces
/// its part of the request's resize, which is stored once anything is given.
pub open spec fn resize_step(args: Seq<Seq<char>>, p: ParsedOptionsView) -> Result<
    ParsedOptionsView,
    OptionErrorKind,
> {
    let base = resize_or_default(p.resize);
    let store = p.resize is Some || spec_arg(args, 0) is Some || spec_arg(args, 1) is Some
        || spec_arg(args, 2) is Some;
    match resizing_type_or(args, 0, base.resizing_type) {
        Err(e) => Err(e),
        Ok(t) => match u32_or(args, 1, base.width, "resize width"@) {
            Err(e) => Err(e),
            Ok(w) => match u32_or(args, 2, base.height, "resize height"@) {
                Err(e) => Err(e),
                Ok(h) => match extend_from(args, 4, p.extend) {
                    Err(e) => Err(e),
                    Ok(extend) => Ok(
                        ParsedOptionsView {
                            resize: if store {
                                Some(Resize { resizing_type: t, width: w, height: h })
                            } else {
                                p.resize
                            },
                            enlarge: bool_or(args, 3, p.enlarge),
                            extend,
                            ..p
                        },
                    ),
                },
            },
        },
    }
}

/// `size:width:height:enlarge:extend...`, which is `resize` without a type.
pub open spec fn size_step(args: Seq<Seq<char>>, p: ParsedOptionsView) -> Result<
    ParsedOptionsView,
    OptionErrorKind,
> {
    let base = resize_or_default(p.resize);
    let store = p.resize is Some || spec_arg(args, 0) is Some || spec_arg(args, 1) is Some;
    match u32_or(args, 0, base.width, "size width"@) {
        Err(e) => Err(e),
        Ok(w) => match u32_or(args, 1, base.height, "size height"@) {
            Err(e) => Err(e),
            Ok(h) => match extend_from(args, 3, p.extend) {
                Err(e) => Err(e),
                Ok(extend) => Ok(
                    ParsedOptionsView {
                        resize: if store {
                            Some(Resize { resizing_type: base.resizing_type, width: w, height: h })
                        } else {
                            p.resize
                        },
                        enlarge: bool_or(args, 2, p.enlarge),
                        extend,
                        ..p
                    },
                ),
            },
        },
    }
}

/// The alpha byte an alpha in 0..1 gives: the value times 255, rounded, and
/// held within a byte.
pub open spec fn alpha_byte(alpha: Fixed) -> u8 {
    let v = round_nanos(alpha.nanos * 255);
    (if v < 0 {
        0
    } else if v > 255 {
        255
    } else {
        v
    }) as u8
}

/// A colour with its alpha replaced.
pub open spec fn with_alpha(c: [u8; 4], alpha: Fixed) -> [u8; 4] {
    [c[0], c[1], c[2], alpha_byte(alpha)]
}

/// Whether every argument is empty, or there are none.
pub open spec fn all_empty(args: Seq<Seq<char>>) -> bool {
    forall|i: int| 0 <= i < args.len() ==> (#[trigger] args[i]).len() == 0
}

/// The colour the `background` arguments give: three channels, or a hex
/// colour.
pub open spec fn background_color(args: Seq<Seq<char>>) -> Result<[u8; 4], OptionErrorKind> {
    if args.len() >= 3 {
        match spec_uint(args[0], 255, "background red channel"@) {
            Err(e) => Err(e),
            Ok(r) => match spec_uint(args[1], 255, "background green channel"@) {
                Err(e) => Err(e),
                Ok(g) => match spec_uint(args[2], 255, "background blue channel"@) {
                    Err(e) => Err(e),
                    Ok(b) => Ok([r as u8, g as u8, b as u8, 255u8]),
                },
            },
        }
    } else {
        color_arg(args[0])
    }
}

/// `background`: no arguments, or only empty ones, clear it; otherwise the
/// colour takes the request's background alpha if one was set.
pub open spec fn background_step(args: Seq<Seq<char>>, p: ParsedOptionsView) -> Result<
    ParsedOptionsView,
    OptionErrorKind,
> {
    if all_empty(args) {
        Ok(ParsedOptionsView { background: None, ..p })
    } else {
        match background_color(args) {
            Err(e) => Err(e),
            Ok(c) => Ok(
                ParsedOptionsView {
                    background: Some(
                        match p.background_alpha {
                            Some(a) => with_alpha(c, a),
                            None => c,
                        },
                    ),
                    ..p
                },
            ),
        }
    }
}

/// A positive decimal at argument `i`, or `cur` when it is absent.
pub open spec fn positive_or(args: Seq<Seq<char>>, i: int, cur: Fixed, option: Seq<char>) -> Result<
    Fixed,
    OptionErrorKind,
> {
    match spec_arg(args, i) {
        Some(v) => match spec_positive(v, option) {
            Ok(n) => Ok(Fixed { nanos: n as i64 }),
            Err(e) => Err(e),
        },
        None => Ok(cur),
    }
}

/// The adjustment a request already has, or the identity.
pub open spec fn adjust_or_default(a: Option<Adjust>) -> Adjust {
    match a {
        Some(x) => x,
        None => Adjust::spec_default(),
    }
}

/// `adjust:brightness:contrast:saturation`, each part optional.
pub open spec fn adjust_step(args: Seq<Seq<char>>, p: ParsedOptionsView) -> Result<
    ParsedOptionsView,
    OptionErrorKind,
> {
    let base = adjust_or_default(p.adjust);
    let brightness = match spec_arg(args, 0) {
        Some(v) => brightness_from_text(v),
        None => Ok(base.brightness),
    };
    match brightness {
        Err(e) => Err(e),
        Ok(b) => match positive_or(args, 1, base.contrast, "contrast"@) {
            Err(e) => Err(e),
            Ok(c) => match positive_or(args, 2, base.saturation, "saturation"@) {
                Err(e) => Err(e),
                Ok(s) => Ok(
                    ParsedOptionsView {
                        adjust: Some(Adjust { brightness: b, contrast: c, saturation: s }),
                        ..p
                    },
                ),
            },
        },
    }
}

/// Whether a lowercase name is a resizing algorithm libvips offers.
pub open spec fn is_resizing_algorithm(a: Seq<char>) -> bool {
    a == "nearest"@ || a == "linear"@ || a == "cubic"@ || a == "lanczos2"@ || a == "lanczos3"@
}

/// The lowercase of each argument.
pub open spec fn lowered(args: Seq<Seq<char>>) -> Seq<Seq<char>> {
    args.map_values(|a: Seq<char>| unicode_lower(a))
}

/// A limit option's value: argument 0, read as the configuration reads it.
pub open spec fn limit_value(
    args: Seq<Seq<char>>,
    read: spec_fn(Seq<char>) -> Result<nat, crate::limits::SecurityLimitError>,
    missing: Seq<char>,
    option: Seq<char>,
) -> Result<nat, OptionErrorKind> {
    match required(args, missing) {
        Err(e) => Err(e),
        Ok(v) => match read(v) {
            Ok(n) => Ok(n),
            Err(e) => Err(OptionErrorKind::SecurityLimit(option, e)),
        },
    }
}

/// What one directive does to the options parsed so far, or why it is
/// refused. A name that is no directive changes nothing.
pub open spec fn option_step(kind: Option<OptionKind>, args: Seq<Seq<char>>, p: ParsedOptionsView) -> Result<
    ParsedOptionsView,
    OptionErrorKind,
> {
    match kind {
        None => Ok(p),
        Some(k) => match k {
            OptionKind::Resize => resize_step(args, p),
            OptionKind::ResizingType => match required(args, "resizing_type option requires one argument"@) {
                Err(e) => Err(e),
                Ok(v) => match resizing_type_of(v) {
                    None => Err(OptionErrorKind::Invalid("resizing_type must be one of: fit, fill, fill-down, force, auto"@)),
                    Some(t) => Ok(
                        ParsedOptionsView {
                            resize: Some(Resize { resizing_type: t, ..resize_or_default(p.resize) }),
                            ..p
                        },
                    ),
                },
            },
            OptionKind::Size => size_step(args, p),
            OptionKind::Width => match dimension_or_zero(args, 0, "width"@) {
                Err(e) => Err(e),
                Ok(w) => Ok(ParsedOptionsView { width: Some(w as u32), ..p }),
            },
            OptionKind::Height => match dimension_or_zero(args, 0, "height"@) {
                Err(e) => Err(e),
                Ok(h) => Ok(ParsedOptionsView { height: Some(h as u32), ..p }),
            },
            OptionKind::Gravity => match gravity_from_args(args, 0, "gravity"@) {
                Err(e) => Err(e),
                Ok(g) => Ok(ParsedOptionsView { gravity: Some(g), ..p }),
            },
            OptionKind::Enlarge => match required(args, "enlarge option requires one argument"@) {
                Err(e) => Err(e),
                Ok(v) => Ok(ParsedOptionsView { enlarge: is_true(v), ..p }),
            },
            OptionKind::Extend => if args.len() == 0 {
                Err(OptionErrorKind::Invalid("extend option requires one argument"@))
            } else {
                match extend_from_args(args, "extend"@) {
                    Err(e) => Err(e),
                    Ok(x) => Ok(ParsedOptionsView { extend: x, ..p }),
                }
            },
            OptionKind::ExtendAspectRatio => if args.len() == 0 {
                Err(OptionErrorKind::Invalid("extend_aspect_ratio option requires one argument"@))
            } else {
                match extend_from_args(args, "extend_aspect_ratio"@) {
                    Err(e) => Err(e),
                    Ok(x) => Ok(ParsedOptionsView { extend_aspect_ratio: x, ..p }),
                }
            },
            OptionKind::Padding => match padding_from_args(args) {
                Err(e) => Err(e),
                Ok(x) => Ok(ParsedOptionsView { padding: Some(x), ..p }),
            },
            OptionKind::Rotate => match required(args, "rotation option requires one argument"@) {
                Err(e) => Err(e),
                Ok(v) => match rotation_from_text(v) {
                    Err(e) => Err(e),
                    Ok(r) => Ok(ParsedOptionsView { rotation: Some(r), ..p }),
                },
            },
            OptionKind::Flip => Ok(
                ParsedOptionsView {
                    flip: Some(
                        Flip {
                            horizontal: spec_optional_bool(args, 0) == Some(true),
                            vertical: spec_optional_bool(args, 1) == Some(true),
                        },
                    ),
                    ..p
                },
            ),
            OptionKind::AutoRotate => match required(args, "auto_rotate option requires one argument"@) {
                Err(e) => Err(e),
                Ok(v) => Ok(ParsedOptionsView { auto_rotate: is_true(v), ..p }),
            },
            OptionKind::Raw => Ok(ParsedOptionsView { raw: switch_on(args), ..p }),
            OptionKind::Blur => match required(args, "blur option requires one argument: sigma"@) {
                Err(e) => Err(e),
                Ok(v) => match spec_positive(v, "blur"@) {
                    Err(e) => Err(e),
                    Ok(n) => Ok(ParsedOptionsView { blur: Some(Fixed { nanos: n as i64 }), ..p }),
                },
            },
            OptionKind::Crop => match crop_from_args(args) {
                Err(e) => Err(e),
                Ok(c) => Ok(ParsedOptionsView { crop: Some(c), ..p }),
            },
            OptionKind::Format => match required(args, "format option requires one argument"@) {
                Err(e) => Err(e),
                Ok(v) => Ok(ParsedOptionsView { format: Some(unicode_lower(v)), ..p }),
            },
            OptionKind::Quality => match required(args, "quality option requires one argument"@) {
                Err(e) => Err(e),
                Ok(v) => match spec_quality(v, "quality"@) {
                    Err(e) => Err(e),
                    Ok(q) => Ok(ParsedOptionsView { quality: Some(q), ..p }),
                },
            },
            OptionKind::FormatQuality => match format_quality_from_args(p.save.format_quality, args) {
                Err(e) => Err(e),
                Ok(m) => Ok(
                    ParsedOptionsView { save: SaveOptionsView { format_quality: m, ..p.save }, ..p },
                ),
            },
            OptionKind::Background => background_step(args, p),
            OptionKind::BackgroundAlpha => match required(args, "background_alpha option requires one argument"@) {
                Err(e) => Err(e),
                Ok(v) => match spec_unit(v, "background_alpha"@) {
                    Err(e) => Err(e),
                    Ok(n) => Ok(
                        ParsedOptionsView {
                            background_alpha: Some(Fixed { nanos: n as i64 }),
                            background: match p.background {
                                Some(b) => Some(with_alpha(b, Fixed { nanos: n as i64 })),
                                None => None,
                            },
                            ..p
                        },
                    ),
                },
            },
            OptionKind::Trim => match trim_from_args(args) {
                Err(e) => Err(e),
                Ok(t) => Ok(ParsedOptionsView { trim: Some(t), ..p }),
            },
            OptionKind::MaxResultDimension => match limit_value(args, |v| dimension_from_text(v), "max_result_dimension option requires one argument"@, "max_result_dimension"@) {
                Err(e) => Err(e),
                Ok(n) => Ok(ParsedOptionsView { max_result_dimension: Some(n), ..p }),
            },
            OptionKind::MaxSrcResolution => match limit_value(args, |v| resolution_from_text(v), "max_src_resolution option requires one argument"@, "max_src_resolution"@) {
                Err(e) => Err(e),
                Ok(n) => Ok(ParsedOptionsView { max_src_resolution: Some(n), ..p }),
            },
            OptionKind::MaxSrcFileSize => match limit_value(args, |v| file_size_from_text(v), "max_src_file_size option requires one argument"@, "max_src_file_size"@) {
                Err(e) => Err(e),
                Ok(n) => Ok(ParsedOptionsView { max_src_file_size: Some(n), ..p }),
            },
            OptionKind::MaxAnimationFrames => match limit_value(args, |v| dimension_from_text(v), "max_animation_frames option requires one argument"@, "max_animation_frames"@) {
                Err(e) => Err(e),
                Ok(n) => Ok(ParsedOptionsView { max_animation_frames: Some(n), ..p }),
            },
            OptionKind::MaxAnimationFrameResolution => match limit_value(
                args,
                |v| resolution_from_text(v),
                "max_animation_frame_resolution option requires one argument"@,
                "max_animation_frame_resolution"@,
            ) {
                Err(e) => Err(e),
                Ok(n) => Ok(ParsedOptionsView { max_animation_frame_resolution: Some(n), ..p }),
            },
            OptionKind::CacheBuster => match required(args, "cachebuster option requires one argument"@) {
                Err(e) => Err(e),
                Ok(v) => Ok(ParsedOptionsView { cache_buster: Some(v), ..p }),
            },
            OptionKind::Dpr => match required(args, "dpr option requires one argument"@) {
                Err(e) => Err(e),
                Ok(v) => match spec_decimal(v, "dpr"@) {
                    Err(e) => Err(e),
                    Ok(d) => if 1_000_000_000 <= d <= 5_000_000_000 {
                        Ok(ParsedOptionsView { dpr: Some(Fixed { nanos: d as i64 }), ..p })
                    } else {
                        Err(OptionErrorKind::Invalid("dpr value must be between 1.0 and 5.0"@))
                    },
                },
            },
            OptionKind::MinWidth => match required(args, "min-width option requires one argument"@) {
                Err(e) => Err(e),
                Ok(v) => match spec_uint(v, u32::MAX as nat, "min-width"@) {
                    Err(e) => Err(e),
                    Ok(n) => Ok(ParsedOptionsView { min_width: Some(n as u32), ..p }),
                },
            },
            OptionKind::MinHeight => match required(args, "min-height option requires one argument"@) {
                Err(e) => Err(e),
                Ok(v) => match spec_uint(v, u32::MAX as nat, "min-height"@) {
                    Err(e) => Err(e),
                    Ok(n) => Ok(ParsedOptionsView { min_height: Some(n as u32), ..p }),
                },
            },
            OptionKind::Zoom => match zoom_from_args(args) {
                Err(e) => Err(e),
                Ok(z) => Ok(ParsedOptionsView { zoom: Some(z), ..p }),
            },
            OptionKind::Sharpen => match required(args, "sharpen option requires one argument"@) {
                Err(e) => Err(e),
                Ok(v) => match spec_positive(v, "sharpen"@) {
                    Err(e) => Err(e),
                    Ok(n) => Ok(ParsedOptionsView { sharpen: Some(Fixed { nanos: n as i64 }), ..p }),
                },
            },
            OptionKind::Pixelate => match required(args, "pixelate option requires one argument"@) {
                Err(e) => Err(e),
                Ok(v) => match spec_uint(v, u32::MAX as nat, "pixelate"@) {
                    Err(e) => Err(e),
                    Ok(n) => Ok(ParsedOptionsView { pixelate: Some(n as u32), ..p }),
                },
            },
            OptionKind::Adjust => adjust_step(args, p),
            OptionKind::Brightness => match required(args, "brightness option requires one argument"@) {
                Err(e) => Err(e),
                Ok(v) => match brightness_from_text(v) {
                    Err(e) => Err(e),
                    Ok(b) => Ok(
                        ParsedOptionsView {
                            adjust: Some(Adjust { brightness: b, ..adjust_or_default(p.adjust) }),
                            ..p
                        },
                    ),
                },
            },
            OptionKind::Contrast => match required(args, "contrast option requires one argument"@) {
                Err(e) => Err(e),
                Ok(v) => match spec_positive(v, "contrast"@) {
                    Err(e) => Err(e),
                    Ok(n) => Ok(
                        ParsedOptionsView {
                            adjust: Some(
                                Adjust {
                                    contrast: Fixed { nanos: n as i64 },
                                    ..adjust_or_default(p.adjust)
                                },
                            ),
                            ..p
                        },
                    ),
                },
            },
            OptionKind::Saturation => match required(args, "saturation option requires one argument"@) {
                Err(e) => Err(e),
                Ok(v) => match spec_positive(v, "saturation"@) {
                    Err(e) => Err(e),
                    Ok(n) => Ok(
                        ParsedOptionsView {
                            adjust: Some(
                                Adjust {
                                    saturation: Fixed { nanos: n as i64 },
                                    ..adjust_or_default(p.adjust)
                                },
                            ),
                            ..p
                        },
                    ),
                },
            },
            OptionKind::Watermark => match watermark_from_args(args) {
                Err(e) => Err(e),
                Ok(w) => Ok(ParsedOptionsView { watermark: Some(w), ..p }),
            },
            OptionKind::WatermarkUrl => match required(args, "watermark_url option requires one argument"@) {
                Err(e) => Err(e),
                Ok(v) => match spec_base64_text(v, "watermark_url"@) {
                    Err(e) => Err(e),
                    Ok(t) => Ok(ParsedOptionsView { watermark_url: Some(t), ..p }),
                },
            },
            OptionKind::ResizingAlgorithm => match required(args, "resizing_algorithm option requires one argument"@) {
                Err(e) => Err(e),
                Ok(v) => if is_resizing_algorithm(unicode_lower(v)) {
                    Ok(ParsedOptionsView { resizing_algorithm: Some(unicode_lower(v)), ..p })
                } else {
                    Err(
                        OptionErrorKind::Invalid(
                            "Invalid resizing algorithm: "@ + unicode_lower(v)
                                + ". Must be one of: nearest, linear, cubic, lanczos2, lanczos3"@,
                        ),
                    )
                },
            },
            OptionKind::MaxBytes => match required(args, "max_bytes option requires one argument"@) {
                Err(e) => Err(e),
                Ok(v) => match spec_uint(v, usize::MAX as nat, "max_bytes"@) {
                    Err(e) => Err(e),
                    Ok(n) => Ok(
                        ParsedOptionsView {
                            save: SaveOptionsView { max_bytes: Some(n as usize), ..p.save },
                            ..p
                        },
                    ),
                },
            },
            OptionKind::StripMetadata => Ok(
                ParsedOptionsView {
                    save: SaveOptionsView { strip_metadata: Some(switch_on(args)), ..p.save },
                    ..p
                },
            ),
            OptionKind::KeepCopyright => Ok(
                ParsedOptionsView {
                    save: SaveOptionsView { keep_copyright: Some(switch_on(args)), ..p.save },
                    ..p
                },
            ),
            OptionKind::StripColorProfile => Ok(
                ParsedOptionsView {
                    save: SaveOptionsView { strip_color_profile: Some(switch_on(args)), ..p.save },
                    ..p
                },
            ),
            OptionKind::PreserveHdr => Ok(
                ParsedOptionsView {
                    save: SaveOptionsView { preserve_hdr: Some(switch_on(args)), ..p.save },
                    ..p
                },
            ),
            OptionKind::EnforceThumbnail => Ok(
                ParsedOptionsView { enforce_thumbnail: switch_on(args), ..p },
            ),
            OptionKind::JpegOptions => match jpeg_options_from_args(p.save.jpeg, args) {
                Err(e) => Err(e),
                Ok(j) => Ok(ParsedOptionsView { save: SaveOptionsView { jpeg: j, ..p.save }, ..p }),
            },
            OptionKind::PngOptions => match png_options_from_args(p.save.png, args) {
                Err(e) => Err(e),
                Ok(x) => Ok(ParsedOptionsView { save: SaveOptionsView { png: x, ..p.save }, ..p }),
            },
            OptionKind::WebpOptions => Ok(
                ParsedOptionsView {
                    save: SaveOptionsView {
                        webp: webp_options_from_args(p.save.webp, args),
                        ..p.save
                    },
                    ..p
                },
            ),
            OptionKind::AvifOptions => Ok(
                ParsedOptionsView {
                    save: SaveOptionsView {
                        avif: super::encoder::AvifOptions {
                            no_subsample: spec_optional_bool(args, 0),
                        },
                        ..p.save
                    },
                    ..p
                },
            ),
            OptionKind::Page => match required(args, "page option requires one argument"@) {
                Err(e) => Err(e),
                Ok(v) => match spec_uint(v, u32::MAX as nat, "page"@) {
                    Err(e) => Err(e),
                    Ok(n) => Ok(ParsedOptionsView { page: Some(n as u32), ..p }),
                },
            },
            OptionKind::Pages => match required(args, "pages option requires one argument"@) {
                Err(e) => Err(e),
                Ok(v) => match spec_uint(v, u32::MAX as nat, "pages"@) {
                    Err(e) => Err(e),
                    Ok(n) => if n == 0 {
                        Err(OptionErrorKind::Invalid("pages must be greater than zero"@))
                    } else {
                        Ok(ParsedOptionsView { pages: Some(n as u32), ..p })
                    },
                },
            },
            OptionKind::DisableAnimation => Ok(
                ParsedOptionsView { disable_animation: switch_on(args), ..p },
            ),
            OptionKind::SkipProcessing => if args.len() == 0 {
                Err(OptionErrorKind::Invalid("skip_processing option requires at least one argument"@))
            } else {
                Ok(ParsedOptionsView { skip_processing: lowered(args), ..p })
            },
            OptionKind::Expires => match required(args, "expires option requires one argument"@) {
                Err(e) => Err(e),
                Ok(v) => match spec_uint(v, u64::MAX as nat, "expires timestamp"@) {
                    Err(e) => Err(e),
                    Ok(n) => Ok(ParsedOptionsView { expires: Some(n as u64), ..p }),
                },
            },
            OptionKind::Filename => match required(args, "filename option requires one argument"@) {
                Err(e) => Err(e),
                Ok(v) => if bool_or(args, 1, false) {
                    match spec_base64_text(v, "filename"@) {
                        Err(e) => Err(e),
                        Ok(t) => Ok(ParsedOptionsView { filename: Some(t), ..p }),
                    }
                } else {
                    Ok(ParsedOptionsView { filename: Some(v), ..p })
                },
            },
            OptionKind::ReturnAttachment => Ok(
                ParsedOptionsView { return_attachment: switch_on(args), ..p },
            ),
        },
    }
}

fn alpha_byte_of(alpha: Fixed) -> (r: u8)
    ensures
        r == alpha_byte(alpha),
{
    let x: i128 = alpha.nanos as i128 * 255;
    let v: i128 = if x >= 0 {
        (x / 500_000_000 + 1) / 2
    } else {
        0 - ((0 - x) / 500_000_000 + 1) / 2
    };
    if v < 0 {
        0
    } else if v > 255 {
        255
    } else {
        v as u8
    }
}

fn set_alpha(c: [u8; 4], alpha: Fixed) -> (r: [u8; 4])
    ensures
        r == with_alpha(c, alpha),
{
    let r = [c[0], c[1], c[2], alpha_byte_of(alpha)];
    assert(r =~= with_alpha(c, alpha));
    r
}

/// Argument 0, refused with `message` when absent.
fn required_arg(args: &[String], message: &str) -> (r: Result<Vec<char>, OptionParseError>)
    ensures
        match required(arg_views(args@), message@) {
            Ok(v) => r matches Ok(x) && x@ == v,
            Err(k) => r matches Err(e) && e.kind() == k,
        },
{
    match arg(args, 0) {
        Some(v) => Ok(v),
        None => Err(OptionParseError::invalid(message)),
    }
}

fn switch_arg(args: &[String]) -> (r: bool)
    ensures
        r == switch_on(arg_views(args@)),
{
    match arg(args, 0) {
        Some(v) => is_true_chars(v.as_slice()),
        None => true,
    }
}

fn bool_arg_or(args: &[String], index: usize, cur: bool) -> (r: bool)
    ensures
        r == bool_or(arg_views(args@), index as int, cur),
{
    match arg(args, index) {
        Some(v) => is_true_chars(v.as_slice()),
        None => cur,
    }
}

fn u32_arg_or(args: &[String], index: usize, cur: u32, option: &str) -> (r: Result<u32, OptionParseError>)
    ensures
        match u32_or(arg_views(args@), index as int, cur, option@) {
            Ok(n) => r matches Ok(x) && x == n,
            Err(k) => r matches Err(e) && e.kind() == k,
        },
{
    match arg(args, index) {
        Some(v) => {
            let n = parse_integer(v.as_slice(), u32::MAX as u64, option)?;
            Ok(n as u32)
        },
        None => Ok(cur),
    }
}

fn u32_required(args: &[String], option: &str, message: &str) -> (r: Result<u32, OptionParseError>)
    ensures
        match required(arg_views(args@), message@) {
            Err(k) => r matches Err(e) && e.kind() == k,
            Ok(v) => match spec_uint(v, u32::MAX as nat, option@) {
                Ok(n) => r matches Ok(x) && x == n,
                Err(k) => r matches Err(e) && e.kind() == k,
            },
        },
{
    let v = required_arg(args, message)?;
    let n = parse_integer(v.as_slice(), u32::MAX as u64, option)?;
    Ok(n as u32)
}

fn positive_required(args: &[String], option: &str, message: &str) -> (r: Result<Fixed, OptionParseError>)
    ensures
        match required(arg_views(args@), message@) {
            Err(k) => r matches Err(e) && e.kind() == k,
            Ok(v) => match spec_positive(v, option@) {
                Ok(n) => r matches Ok(x) && x.nanos == n,
                Err(k) => r matches Err(e) && e.kind() == k,
            },
        },
{
    let v = required_arg(args, message)?;
    parse_positive(v.as_slice(), option)
}

fn resizing_type_arg_or(args: &[String], index: usize, cur: ResizingType) -> (r: Result<
    ResizingType,
    OptionParseError,
>)
    ensures
        match resizing_type_or(arg_views(args@), index as int, cur) {
            Ok(t) => r matches Ok(x) && x == t,
            Err(k) => r matches Err(e) && e.kind() == k,
        },
{
    match arg(args, index) {
        Some(v) => match ResizingType::from_chars(v.as_slice()) {
            Ok(t) => Ok(t),
            Err(_) => Err(
                OptionParseError::invalid(
                    "resizing_type must be one of: fit, fill, fill-down, force, auto",
                ),
            ),
        },
        None => Ok(cur),
    }
}

fn extend_arg_from(args: &[String], index: usize, cur: Extend) -> (r: Result<Extend, OptionParseError>)
    ensures
        match extend_from(arg_views(args@), index as int, cur) {
            Ok(x) => r matches Ok(y) && y == x,
            Err(k) => r matches Err(e) && e.kind() == k,
        },
{
    if arg(args, index).is_some() {
        let rest = slice_subrange(args, index, args.len());
        assert(arg_views(rest@) =~= arg_views(args@).skip(index as int));
        Extend::parse(rest, "extend")
    } else {
        Ok(cur)
    }
}

fn apply_resize(args: &[String], parsed: &mut ParsedOptions) -> (r: Result<(), OptionParseError>)
    ensures
        match resize_step(arg_views(args@), old(parsed)@) {
            Ok(v) => r is Ok && final(parsed)@ == v,
            Err(k) => r matches Err(e) && e.kind() == k,
        },
{
    let base = match parsed.resize {
        Some(x) => x,
        None => Resize { resizing_type: ResizingType::Fit, width: 0, height: 0 },
    };
    let store = parsed.resize.is_some() || arg(args, 0).is_some() || arg(args, 1).is_some() || arg(
        args,
        2,
    ).is_some();
    let t = resizing_type_arg_or(args, 0, base.resizing_type)?;
    let w = u32_arg_or(args, 1, base.width, "resize width")?;
    let h = u32_arg_or(args, 2, base.height, "resize height")?;
    let extend = extend_arg_from(args, 4, parsed.extend)?;
    parsed.enlarge = bool_arg_or(args, 3, parsed.enlarge);
    parsed.extend = extend;
    if store {
        parsed.resize = Some(Resize { resizing_type: t, width: w, height: h });
    }
    Ok(())
}

fn apply_size(args: &[String], parsed: &mut ParsedOptions) -> (r: Result<(), OptionParseError>)
    ensures
        match size_step(arg_views(args@), old(parsed)@) {
            Ok(v) => r is Ok && final(parsed)@ == v,
            Err(k) => r matches Err(e) && e.kind() == k,
        },
{
    let base = match parsed.resize {
        Some(x) => x,
        None => Resize { resizing_type: ResizingType::Fit, width: 0, height: 0 },
    };
    let store = parsed.resize.is_some() || arg(args, 0).is_some() || arg(args, 1).is_some();
    let w = u32_arg_or(args, 0, base.width, "size width")?;
    let h = u32_arg_or(args, 1, base.height, "size height")?;
    let extend = extend_arg_from(args, 3, parsed.extend)?;
    parsed.enlarge = bool_arg_or(args, 2, parsed.enlarge);
    parsed.extend = extend;
    if store {
        parsed.resize = Some(Resize { resizing_type: base.resizing_type, width: w, height: h });
    }
    Ok(())
}

fn channel(args: &[String], index: usize, option: &str) -> (r: Result<u8, OptionParseError>)
    requires
        index < args@.len(),
    ensures
        match spec_uint(arg_views(args@)[index as int], 255, option@) {
            Ok(n) => r matches Ok(x) && x == n,
            Err(k) => r matches Err(e) && e.kind() == k,
        },
{
    let v = chars_of(args[index].as_str());
    let n = parse_integer(v.as_slice(), 255, option)?;
    Ok(n as u8)
}

fn apply_background(args: &[String], parsed: &mut ParsedOptions) -> (r: Result<(), OptionParseError>)
    ensures
        match background_step(arg_views(args@), old(parsed)@) {
            Ok(v) => r is Ok && final(parsed)@ == v,
            Err(k) => r matches Err(e) && e.kind() == k,
        },
{
    let ghost a = arg_views(args@);
    let mut empty = true;
    let mut i: usize = 0;
    while i < args.len()
        invariant
            a == arg_views(args@),
            i <= args@.len(),
            empty == (forall|j: int| 0 <= j < i ==> (#[trigger] a[j]).len() == 0),
        decreases args@.len() - i,
    {
        let n = args[i].as_str().unicode_len();
        assert(a[i as int] == args@[i as int]@);
        if n != 0 {
            empty = false;
        }
        i = i + 1;
    }
    if empty {
        parsed.background = None;
        return Ok(());
    }
    let color = if args.len() >= 3 {
        let r = channel(args, 0, "background red channel")?;
        let g = channel(args, 1, "background green channel")?;
        let b = channel(args, 2, "background blue channel")?;
        [r, g, b, 255u8]
    } else {
        let v = chars_of(args[0].as_str());
        parse_color(v.as_slice())?
    };
    assert(background_color(a) == Ok::<[u8; 4], OptionErrorKind>(color));
    parsed.background = Some(
        match parsed.background_alpha {
            Some(alpha) => set_alpha(color, alpha),
            None => color,
        },
    );
    Ok(())
}

fn apply_adjust(args: &[String], parsed: &mut ParsedOptions) -> (r: Result<(), OptionParseError>)
    ensures
        match adjust_step(arg_views(args@), old(parsed)@) {
            Ok(v) => r is Ok && final(parsed)@ == v,
            Err(k) => r matches Err(e) && e.kind() == k,
        },
{
    let base = match parsed.adjust {
        Some(x) => x,
        None => Adjust::default(),
    };
    let brightness = match arg(args, 0) {
        Some(v) => parse_brightness(v.as_slice())?,
        None => base.brightness,
    };
    let contrast = match arg(args, 1) {
        Some(v) => parse_positive(v.as_slice(), "contrast")?,
        None => base.contrast,
    };
    let saturation = match arg(args, 2) {
        Some(v) => parse_positive(v.as_slice(), "saturation")?,
        None => base.saturation,
    };
    parsed.adjust = Some(Adjust { brightness, contrast, saturation });
    Ok(())
}

/// Whether `r` and `after` are what applying the directive `kind` with `args`
/// to `before` gives.
pub open spec fn step_done(
    kind: OptionKind,
    args: Seq<Seq<char>>,
    before: ParsedOptionsView,
    after: ParsedOptionsView,
    r: Result<(), OptionParseError>,
) -> bool {
    match option_step(Some(kind), args, before) {
        Ok(v) => r is Ok && after == v,
        Err(k) => r matches Err(e) && e.kind() == k,
    }
}

fn apply_resizing_type(args: &[String], parsed: &mut ParsedOptions) -> (r: Result<(), OptionParseError>)
    ensures
        step_done(OptionKind::ResizingType, arg_views(args@), old(parsed)@, final(parsed)@, r),
{
    let v = required_arg(args, "resizing_type option requires one argument")?;
    let t = match ResizingType::from_chars(v.as_slice()) {
        Ok(t) => t,
        Err(_) => {
            return Err(
                OptionParseError::invalid(
                    "resizing_type must be one of: fit, fill, fill-down, force, auto",
                ),
            );
        },
    };
    let base = match parsed.resize {
        Some(x) => x,
        None => Resize { resizing_type: ResizingType::Fit, width: 0, height: 0 },
    };
    parsed.resize = Some(Resize { resizing_type: t, width: base.width, height: base.height });
    Ok(())
}

fn apply_width(args: &[String], parsed: &mut ParsedOptions) -> (r: Result<(), OptionParseError>)
    ensures
        step_done(OptionKind::Width, arg_views(args@), old(parsed)@, final(parsed)@, r),
{
    let w = match arg(args, 0) {
        Some(v) => parse_integer(v.as_slice(), u32::MAX as u64, "width")?,
        None => 0,
    };
    parsed.width = Some(w as u32);
    Ok(())
}

fn apply_height(args: &[String], parsed: &mut ParsedOptions) -> (r: Result<(), OptionParseError>)
    ensures
        step_done(OptionKind::Height, arg_views(args@), old(parsed)@, final(parsed)@, r),
{
    let h = match arg(args, 0) {
        Some(v) => parse_integer(v.as_slice(), u32::MAX as u64, "height")?,
        None => 0,
    };
    parsed.height = Some(h as u32);
    Ok(())
}

fn apply_gravity(args: &[String], parsed: &mut ParsedOptions) -> (r: Result<(), OptionParseError>)
    ensures
        step_done(OptionKind::Gravity, arg_views(args@), old(parsed)@, final(parsed)@, r),
{
    parsed.gravity = Some(Gravity::parse(args, 0, "gravity")?);
    Ok(())
}

fn apply_enlarge(args: &[String], parsed: &mut ParsedOptions) -> (r: Result<(), OptionParseError>)
    ensures
        step_done(OptionKind::Enlarge, arg_views(args@), old(parsed)@, final(parsed)@, r),
{
    let v = required_arg(args, "enlarge option requires one argument")?;
    parsed.enlarge = is_true_chars(v.as_slice());
    Ok(())
}

fn apply_extend(args: &[String], parsed: &mut ParsedOptions) -> (r: Result<(), OptionParseError>)
    ensures
        step_done(OptionKind::Extend, arg_views(args@), old(parsed)@, final(parsed)@, r),
{
    if args.len() == 0 {
        return Err(OptionParseError::invalid("extend option requires one argument"));
    }
    parsed.extend = Extend::parse(args, "extend")?;
    Ok(())
}

fn apply_extend_aspect_ratio(args: &[String], parsed: &mut ParsedOptions) -> (r: Result<(), OptionParseError>)
    ensures
        step_done(OptionKind::ExtendAspectRatio, arg_views(args@), old(parsed)@, final(parsed)@, r),
{
    if args.len() == 0 {
        return Err(OptionParseError::invalid("extend_aspect_ratio option requires one argument"));
    }
    parsed.extend_aspect_ratio = Extend::parse(args, "extend_aspect_ratio")?;
    Ok(())
}

fn apply_padding(args: &[String], parsed: &mut ParsedOptions) -> (r: Result<(), OptionParseError>)
    ensures
        step_done(OptionKind::Padding, arg_views(args@), old(parsed)@, final(parsed)@, r),
{
    parsed.padding = Some(parse_padding(args)?);
    Ok(())
}

fn apply_rotate(args: &[String], parsed: &mut ParsedOptions) -> (r: Result<(), OptionParseError>)
    ensures
        step_done(OptionKind::Rotate, arg_views(args@), old(parsed)@, final(parsed)@, r),
{
    let v = required_arg(args, "rotation option requires one argument")?;
    parsed.rotation = Some(parse_rotation(v.as_slice())?);
    Ok(())
}

fn apply_flip(args: &[String], parsed: &mut ParsedOptions) -> (r: Result<(), OptionParseError>)
    ensures
        step_done(OptionKind::Flip, arg_views(args@), old(parsed)@, final(parsed)@, r),
{
    parsed.flip = Some(
        Flip {
            horizontal: parse_optional_bool(args, 0).unwrap_or(false),
            vertical: parse_optional_bool(args, 1).unwrap_or(false),
        },
    );
    Ok(())
}

fn apply_auto_rotate(args: &[String], parsed: &mut ParsedOptions) -> (r: Result<(), OptionParseError>)
    ensures
        step_done(OptionKind::AutoRotate, arg_views(args@), old(parsed)@, final(parsed)@, r),
{
    let v = required_arg(args, "auto_rotate option requires one argument")?;
    parsed.auto_rotate = is_true_chars(v.as_slice());
    Ok(())
}

fn apply_raw(args: &[String], parsed: &mut ParsedOptions) -> (r: Result<(), OptionParseError>)
    ensures
        step_done(OptionKind::Raw, arg_views(args@), old(parsed)@, final(parsed)@, r),
{
    parsed.raw = switch_arg(args);
    Ok(())
}

fn apply_blur(args: &[String], parsed: &mut ParsedOptions) -> (r: Result<(), OptionParseError>)
    ensures
        step_done(OptionKind::Blur, arg_views(args@), old(parsed)@, final(parsed)@, r),
{
    let n = positive_required(args, "blur", "blur option requires one argument: sigma")?;
    parsed.blur = Some(n);
    Ok(())
}

fn apply_crop(args: &[String], parsed: &mut ParsedOptions) -> (r: Result<(), OptionParseError>)
    ensures
        step_done(OptionKind::Crop, arg_views(args@), old(parsed)@, final(parsed)@, r),
{
    parsed.crop = Some(parse_crop(args)?);
    Ok(())
}

fn apply_format(args: &[String], parsed: &mut ParsedOptions) -> (r: Result<(), OptionParseError>)
    ensures
        step_done(OptionKind::Format, arg_views(args@), old(parsed)@, final(parsed)@, r),
{
    let v = required_arg(args, "format option requires one argument")?;
    let lower = lowercase_chars(v.as_slice());
    parsed.format = Some(string_of(lower.as_slice()));
    Ok(())
}

fn apply_quality(args: &[String], parsed: &mut ParsedOptions) -> (r: Result<(), OptionParseError>)
    ensures
        step_done(OptionKind::Quality, arg_views(args@), old(parsed)@, final(parsed)@, r),
{
    let v = required_arg(args, "quality option requires one argument")?;
    parsed.quality = Some(parse_quality(v.as_slice(), "quality")?);
    Ok(())
}

fn apply_format_quality(args: &[String], parsed: &mut ParsedOptions) -> (r: Result<(), OptionParseError>)
    ensures
        step_done(OptionKind::FormatQuality, arg_views(args@), old(parsed)@, final(parsed)@, r),
{
    parse_format_quality(args, &mut parsed.save)
}

fn apply_background_alpha(args: &[String], parsed: &mut ParsedOptions) -> (r: Result<(), OptionParseError>)
    ensures
        step_done(OptionKind::BackgroundAlpha, arg_views(args@), old(parsed)@, final(parsed)@, r),
{
    let v = required_arg(args, "background_alpha option requires one argument")?;
    let alpha = parse_unit(v.as_slice(), "background_alpha")?;
    parsed.background_alpha = Some(alpha);
    parsed.background = match parsed.background {
        Some(b) => Some(set_alpha(b, alpha)),
        None => None,
    };
    Ok(())
}

fn apply_trim(args: &[String], parsed: &mut ParsedOptions) -> (r: Result<(), OptionParseError>)
    ensures
        step_done(OptionKind::Trim, arg_views(args@), old(parsed)@, final(parsed)@, r),
{
    parsed.trim = Some(parse_trim(args)?);
    Ok(())
}

fn apply_max_result_dimension(args: &[String], parsed: &mut ParsedOptions) -> (r: Result<(), OptionParseError>)
    ensures
        step_done(OptionKind::MaxResultDimension, arg_views(args@), old(parsed)@, final(parsed)@, r),
{
    let v = required_arg(args, "max_result_dimension option requires one argument")?;
    let text = string_of(v.as_slice());
    match MaxResultDimension::parse_text(text.as_str()) {
        Ok(limit) => {
            parsed.max_result_dimension = Some(limit);
            Ok(())
        },
        Err(source) => Err(OptionParseError::SecurityLimit { option: "max_result_dimension".to_owned(), source }),
    }
}

fn apply_max_src_resolution(args: &[String], parsed: &mut ParsedOptions) -> (r: Result<(), OptionParseError>)
    ensures
        step_done(OptionKind::MaxSrcResolution, arg_views(args@), old(parsed)@, final(parsed)@, r),
{
    let v = required_arg(args, "max_src_resolution option requires one argument")?;
    let text = string_of(v.as_slice());
    match MaxSourceResolution::parse_text(text.as_str()) {
        Ok(limit) => {
            parsed.max_src_resolution = Some(limit);
            Ok(())
        },
        Err(source) => Err(OptionParseError::SecurityLimit { option: "max_src_resolution".to_owned(), source }),
    }
}

fn apply_max_src_file_size(args: &[String], parsed: &mut ParsedOptions) -> (r: Result<(), OptionParseError>)
    ensures
        step_done(OptionKind::MaxSrcFileSize, arg_views(args@), old(parsed)@, final(parsed)@, r),
{
    let v = required_arg(args, "max_src_file_size option requires one argument")?;
    let text = string_of(v.as_slice());
    match MaxSourceFileSize::parse_text(text.as_str()) {
        Ok(limit) => {
            parsed.max_src_file_size = Some(limit);
            Ok(())
        },
        Err(source) => Err(OptionParseError::SecurityLimit { option: "max_src_file_size".to_owned(), source }),
    }
}

fn apply_max_animation_frames(args: &[String], parsed: &mut ParsedOptions) -> (r: Result<(), OptionParseError>)
    ensures
        step_done(OptionKind::MaxAnimationFrames, arg_views(args@), old(parsed)@, final(parsed)@, r),
{
    let v = required_arg(args, "max_animation_frames option requires one argument")?;
    let text = string_of(v.as_slice());
    match MaxAnimationFrames::parse_text(text.as_str()) {
        Ok(limit) => {
            parsed.max_animation_frames = Some(limit);
            Ok(())
        },
        Err(source) => Err(OptionParseError::SecurityLimit { option: "max_animation_frames".to_owned(), source }),
    }
}

fn apply_max_animation_frame_resolution(args: &[String], parsed: &mut ParsedOptions) -> (r: Result<(), OptionParseError>)
    ensures
        step_done(OptionKind::MaxAnimationFrameResolution, arg_views(args@), old(parsed)@, final(parsed)@, r),
{
    let v = required_arg(args, "max_animation_frame_resolution option requires one argument")?;
    let text = string_of(v.as_slice());
    match MaxAnimationFrameResolution::parse_text(text.as_str()) {
        Ok(limit) => {
            parsed.max_animation_frame_resolution = Some(limit);
            Ok(())
        },
        Err(source) => Err(OptionParseError::SecurityLimit { option: "max_animation_frame_resolution".to_owned(), source }),
    }
}

fn apply_cache_buster(args: &[String], parsed: &mut ParsedOptions) -> (r: Result<(), OptionParseError>)
    ensures
        step_done(OptionKind::CacheBuster, arg_views(args@), old(parsed)@, final(parsed)@, r),
{
    let v = required_arg(args, "cachebuster option requires one argument")?;
    parsed.cache_buster = Some(string_of(v.as_slice()));
    Ok(())
}

fn apply_dpr(args: &[String], parsed: &mut ParsedOptions) -> (r: Result<(), OptionParseError>)
    ensures
        step_done(OptionKind::Dpr, arg_views(args@), old(parsed)@, final(parsed)@, r),
{
    let v = required_arg(args, "dpr option requires one argument")?;
    let dpr = parse_float(v.as_slice(), "dpr")?;
    if dpr.nanos < 1_000_000_000 || dpr.nanos > 5_000_000_000 {
        return Err(OptionParseError::invalid("dpr value must be between 1.0 and 5.0"));
    }
    parsed.dpr = Some(dpr);
    Ok(())
}

fn apply_min_width(args: &[String], parsed: &mut ParsedOptions) -> (r: Result<(), OptionParseError>)
    ensures
        step_done(OptionKind::MinWidth, arg_views(args@), old(parsed)@, final(parsed)@, r),
{
    let n = u32_required(args, "min-width", "min-width option requires one argument")?;
    parsed.min_width = Some(n);
    Ok(())
}

fn apply_min_height(args: &[String], parsed: &mut ParsedOptions) -> (r: Result<(), OptionParseError>)
    ensures
        step_done(OptionKind::MinHeight, arg_views(args@), old(parsed)@, final(parsed)@, r),
{
    let n = u32_required(args, "min-height", "min-height option requires one argument")?;
    parsed.min_height = Some(n);
    Ok(())
}

fn apply_zoom(args: &[String], parsed: &mut ParsedOptions) -> (r: Result<(), OptionParseError>)
    ensures
        step_done(OptionKind::Zoom, arg_views(args@), old(parsed)@, final(parsed)@, r),
{
    parsed.zoom = Some(Zoom::parse(args)?);
    Ok(())
}

fn apply_sharpen(args: &[String], parsed: &mut ParsedOptions) -> (r: Result<(), OptionParseError>)
    ensures
        step_done(OptionKind::Sharpen, arg_views(args@), old(parsed)@, final(parsed)@, r),
{
    let n = positive_required(args, "sharpen", "sharpen option requires one argument")?;
    parsed.sharpen = Some(n);
    Ok(())
}

fn apply_pixelate(args: &[String], parsed: &mut ParsedOptions) -> (r: Result<(), OptionParseError>)
    ensures
        step_done(OptionKind::Pixelate, arg_views(args@), old(parsed)@, final(parsed)@, r),
{
    let n = u32_required(args, "pixelate", "pixelate option requires one argument")?;
    parsed.pixelate = Some(n);
    Ok(())
}

fn apply_brightness(args: &[String], parsed: &mut ParsedOptions) -> (r: Result<(), OptionParseError>)
    ensures
        step_done(OptionKind::Brightness, arg_views(args@), old(parsed)@, final(parsed)@, r),
{
    let v = required_arg(args, "brightness option requires one argument")?;
    let b = parse_brightness(v.as_slice())?;
    let base = match parsed.adjust {
        Some(x) => x,
        None => Adjust::default(),
    };
    parsed.adjust = Some(Adjust { brightness: b, contrast: base.contrast, saturation: base.saturation });
    Ok(())
}

fn apply_contrast(args: &[String], parsed: &mut ParsedOptions) -> (r: Result<(), OptionParseError>)
    ensures
        step_done(OptionKind::Contrast, arg_views(args@), old(parsed)@, final(parsed)@, r),
{
    let n = positive_required(args, "contrast", "contrast option requires one argument")?;
    let base = match parsed.adjust {
        Some(x) => x,
        None => Adjust::default(),
    };
    parsed.adjust = Some(Adjust { brightness: base.brightness, contrast: n, saturation: base.saturation });
    Ok(())
}

fn apply_saturation(args: &[String], parsed: &mut ParsedOptions) -> (r: Result<(), OptionParseError>)
    ensures
        step_done(OptionKind::Saturation, arg_views(args@), old(parsed)@, final(parsed)@, r),
{
    let n = positive_required(args, "saturation", "saturation option requires one argument")?;
    let base = match parsed.adjust {
        Some(x) => x,
        None => Adjust::default(),
    };
    parsed.adjust = Some(Adjust { brightness: base.brightness, contrast: base.contrast, saturation: n });
    Ok(())
}

fn apply_watermark(args: &[String], parsed: &mut ParsedOptions) -> (r: Result<(), OptionParseError>)
    ensures
        step_done(OptionKind::Watermark, arg_views(args@), old(parsed)@, final(parsed)@, r),
{
    parsed.watermark = Some(Watermark::parse(args)?);
    Ok(())
}

fn apply_watermark_url(args: &[String], parsed: &mut ParsedOptions) -> (r: Result<(), OptionParseError>)
    ensures
        step_done(OptionKind::WatermarkUrl, arg_views(args@), old(parsed)@, final(parsed)@, r),
{
    let v = required_arg(args, "watermark_url option requires one argument")?;
    parsed.watermark_url = Some(decode_base64_text(v.as_slice(), "watermark_url")?);
    Ok(())
}

fn apply_resizing_algorithm(args: &[String], parsed: &mut ParsedOptions) -> (r: Result<(), OptionParseError>)
    ensures
        step_done(OptionKind::ResizingAlgorithm, arg_views(args@), old(parsed)@, final(parsed)@, r),
{
    let v = required_arg(args, "resizing_algorithm option requires one argument")?;
    let lower = lowercase_chars(v.as_slice());
    let l = lower.as_slice();
    if is(l, "nearest") || is(l, "linear") || is(l, "cubic") || is(l, "lanczos2") || is(l, "lanczos3") {
        parsed.resizing_algorithm = Some(string_of(l));
        Ok(())
    } else {
        let mut message = "Invalid resizing algorithm: ".to_owned();
        message.append(string_of(l).as_str());
        message.append(". Must be one of: nearest, linear, cubic, lanczos2, lanczos3");
        Err(OptionParseError::InvalidValue(message))
    }
}

fn apply_max_bytes(args: &[String], parsed: &mut ParsedOptions) -> (r: Result<(), OptionParseError>)
    ensures
        step_done(OptionKind::MaxBytes, arg_views(args@), old(parsed)@, final(parsed)@, r),
{
    let v = required_arg(args, "max_bytes option requires one argument")?;
    let n = parse_integer(v.as_slice(), usize::MAX as u64, "max_bytes")?;
    parsed.save.max_bytes = Some(n as usize);
    Ok(())
}

fn apply_strip_metadata(args: &[String], parsed: &mut ParsedOptions) -> (r: Result<(), OptionParseError>)
    ensures
        step_done(OptionKind::StripMetadata, arg_views(args@), old(parsed)@, final(parsed)@, r),
{
    parsed.save.strip_metadata = Some(switch_arg(args));
    Ok(())
}

fn apply_keep_copyright(args: &[String], parsed: &mut ParsedOptions) -> (r: Result<(), OptionParseError>)
    ensures
        step_done(OptionKind::KeepCopyright, arg_views(args@), old(parsed)@, final(parsed)@, r),
{
    parsed.save.keep_copyright = Some(switch_arg(args));
    Ok(())
}

fn apply_strip_color_profile(args: &[String], parsed: &mut ParsedOptions) -> (r: Result<(), OptionParseError>)
    ensures
        step_done(OptionKind::StripColorProfile, arg_views(args@), old(parsed)@, final(parsed)@, r),
{
    parsed.save.strip_color_profile = Some(switch_arg(args));
    Ok(())
}

fn apply_preserve_hdr(args: &[String], parsed: &mut ParsedOptions) -> (r: Result<(), OptionParseError>)
    ensures
        step_done(OptionKind::PreserveHdr, arg_views(args@), old(parsed)@, final(parsed)@, r),
{
    parsed.save.preserve_hdr = Some(switch_arg(args));
    Ok(())
}

fn apply_enforce_thumbnail(args: &[String], parsed: &mut ParsedOptions) -> (r: Result<(), OptionParseError>)
    ensures
        step_done(OptionKind::EnforceThumbnail, arg_views(args@), old(parsed)@, final(parsed)@, r),
{
    parsed.enforce_thumbnail = switch_arg(args);
    Ok(())
}

fn apply_jpeg_options(args: &[String], parsed: &mut ParsedOptions) -> (r: Result<(), OptionParseError>)
    ensures
        step_done(OptionKind::JpegOptions, arg_views(args@), old(parsed)@, final(parsed)@, r),
{
    let mut jpeg = parsed.save.jpeg;
    parse_jpeg_options(args, &mut jpeg)?;
    parsed.save.jpeg = jpeg;
    Ok(())
}

fn apply_png_options(args: &[String], parsed: &mut ParsedOptions) -> (r: Result<(), OptionParseError>)
    ensures
        step_done(OptionKind::PngOptions, arg_views(args@), old(parsed)@, final(parsed)@, r),
{
    let mut png = parsed.save.png;
    parse_png_options(args, &mut png)?;
    parsed.save.png = png;
    Ok(())
}

fn apply_webp_options(args: &[String], parsed: &mut ParsedOptions) -> (r: Result<(), OptionParseError>)
    ensures
        step_done(OptionKind::WebpOptions, arg_views(args@), old(parsed)@, final(parsed)@, r),
{
    parse_webp_options(args, &mut parsed.save.webp);
    Ok(())
}

fn apply_avif_options(args: &[String], parsed: &mut ParsedOptions) -> (r: Result<(), OptionParseError>)
    ensures
        step_done(OptionKind::AvifOptions, arg_views(args@), old(parsed)@, final(parsed)@, r),
{
    parsed.save.avif.no_subsample = parse_optional_bool(args, 0);
    Ok(())
}

fn apply_page(args: &[String], parsed: &mut ParsedOptions) -> (r: Result<(), OptionParseError>)
    ensures
        step_done(OptionKind::Page, arg_views(args@), old(parsed)@, final(parsed)@, r),
{
    let n = u32_required(args, "page", "page option requires one argument")?;
    parsed.page = Some(n);
    Ok(())
}

fn apply_pages(args: &[String], parsed: &mut ParsedOptions) -> (r: Result<(), OptionParseError>)
    ensures
        step_done(OptionKind::Pages, arg_views(args@), old(parsed)@, final(parsed)@, r),
{
    let n = u32_required(args, "pages", "pages option requires one argument")?;
    if n == 0 {
        return Err(OptionParseError::invalid("pages must be greater than zero"));
    }
    parsed.pages = Some(n);
    Ok(())
}

fn apply_disable_animation(args: &[String], parsed: &mut ParsedOptions) -> (r: Result<(), OptionParseError>)
    ensures
        step_done(OptionKind::DisableAnimation, arg_views(args@), old(parsed)@, final(parsed)@, r),
{
    parsed.disable_animation = switch_arg(args);
    Ok(())
}

fn apply_skip_processing(args: &[String], parsed: &mut ParsedOptions) -> (r: Result<(), OptionParseError>)
    ensures
        step_done(OptionKind::SkipProcessing, arg_views(args@), old(parsed)@, final(parsed)@, r),
{
    if args.len() == 0 {
        return Err(OptionParseError::invalid("skip_processing option requires at least one argument"));
    }
    let ghost a = arg_views(args@);
    let mut formats: Vec<String> = Vec::new();
    let mut i: usize = 0;
    while i < args.len()
        invariant
            a == arg_views(args@),
            i <= args@.len(),
            arg_views(formats@) == lowered(a).take(i as int),
        decreases args@.len() - i,
    {
        let v = chars_of(args[i].as_str());
        let lower = lowercase_chars(v.as_slice());
        assert(a[i as int] == args@[i as int]@);
        assert(lowered(a)[i as int] == unicode_lower(a[i as int]));
        let ghost before = formats@;
        formats.push(string_of(lower.as_slice()));
        assert(arg_views(formats@) =~= arg_views(before).push(lower@));
        i = i + 1;
        assert(arg_views(formats@) =~= lowered(a).take(i as int));
    }
    assert(lowered(a).take(args@.len() as int) =~= lowered(a));
    parsed.skip_processing = formats;
    Ok(())
}

fn apply_expires(args: &[String], parsed: &mut ParsedOptions) -> (r: Result<(), OptionParseError>)
    ensures
        step_done(OptionKind::Expires, arg_views(args@), old(parsed)@, final(parsed)@, r),
{
    let v = required_arg(args, "expires option requires one argument")?;
    parsed.expires = Some(parse_integer(v.as_slice(), u64::MAX, "expires timestamp")?);
    Ok(())
}

fn apply_filename(args: &[String], parsed: &mut ParsedOptions) -> (r: Result<(), OptionParseError>)
    ensures
        step_done(OptionKind::Filename, arg_views(args@), old(parsed)@, final(parsed)@, r),
{
    let v = required_arg(args, "filename option requires one argument")?;
    let encoded = bool_arg_or(args, 1, false);
    let name = if encoded {
        decode_base64_text(v.as_slice(), "filename")?
    } else {
        string_of(v.as_slice())
    };
    parsed.filename = Some(name);
    Ok(())
}

fn apply_return_attachment(args: &[String], parsed: &mut ParsedOptions) -> (r: Result<(), OptionParseError>)
    ensures
        step_done(OptionKind::ReturnAttachment, arg_views(args@), old(parsed)@, final(parsed)@, r),
{
    parsed.return_attachment = switch_arg(args);
    Ok(())
}

/// Applies one directive to the options parsed so far.
pub fn apply_option(option: &ProcessingOption, parsed: &mut ParsedOptions) -> (r: Result<
    (),
    OptionParseError,
>)
    ensures
        match option_step(option_kind_of(option.name@), arg_views(option.args@), old(parsed)@) {
            Ok(v) => r is Ok && final(parsed)@ == v,
            Err(k) => r matches Err(e) && e.kind() == k,
        },
{
    let name = chars_of(option.name.as_str());
    let args = option.args.as_slice();
    match OptionKind::of(name.as_slice()) {
        None => Ok(()),
        Some(kind) => match kind {
            OptionKind::Resize => apply_resize(args, parsed),
            OptionKind::ResizingType => apply_resizing_type(args, parsed),
            OptionKind::Size => apply_size(args, parsed),
            OptionKind::Width => apply_width(args, parsed),
            OptionKind::Height => apply_height(args, parsed),
            OptionKind::Gravity => apply_gravity(args, parsed),
            OptionKind::Enlarge => apply_enlarge(args, parsed),
            OptionKind::Extend => apply_extend(args, parsed),
            OptionKind::ExtendAspectRatio => apply_extend_aspect_ratio(args, parsed),
            OptionKind::Padding => apply_padding(args, parsed),
            OptionKind::Rotate => apply_rotate(args, parsed),
            OptionKind::Flip => apply_flip(args, parsed),
            OptionKind::AutoRotate => apply_auto_rotate(args, parsed),
            OptionKind::Raw => apply_raw(args, parsed),
            OptionKind::Blur => apply_blur(args, parsed),
            OptionKind::Crop => apply_crop(args, parsed),
            OptionKind::Format => apply_format(args, parsed),
            OptionKind::Quality => apply_quality(args, parsed),
            OptionKind::FormatQuality => apply_format_quality(args, parsed),
            OptionKind::Background => apply_background(args, parsed),
            OptionKind::BackgroundAlpha => apply_background_alpha(args, parsed),
            OptionKind::Trim => apply_trim(args, parsed),
            OptionKind::MaxResultDimension => apply_max_result_dimension(args, parsed),
            OptionKind::MaxSrcResolution => apply_max_src_resolution(args, parsed),
            OptionKind::MaxSrcFileSize => apply_max_src_file_size(args, parsed),
            OptionKind::MaxAnimationFrames => apply_max_animation_frames(args, parsed),
            OptionKind::MaxAnimationFrameResolution => apply_max_animation_frame_resolution(args, parsed),
            OptionKind::CacheBuster => apply_cache_buster(args, parsed),
            OptionKind::Dpr => apply_dpr(args, parsed),
            OptionKind::MinWidth => apply_min_width(args, parsed),
            OptionKind::MinHeight => apply_min_height(args, parsed),
            OptionKind::Zoom => apply_zoom(args, parsed),
            OptionKind::Sharpen => apply_sharpen(args, parsed),
            OptionKind::Pixelate => apply_pixelate(args, parsed),
            OptionKind::Adjust => apply_adjust(args, parsed),
            OptionKind::Brightness => apply_brightness(args, parsed),
            OptionKind::Contrast => apply_contrast(args, parsed),
            OptionKind::Saturation => apply_saturation(args, parsed),
            OptionKind::Watermark => apply_watermark(args, parsed),
            OptionKind::WatermarkUrl => apply_watermark_url(args, parsed),
            OptionKind::ResizingAlgorithm => apply_resizing_algorithm(args, parsed),
            OptionKind::MaxBytes => apply_max_bytes(args, parsed),
            OptionKind::StripMetadata => apply_strip_metadata(args, parsed),
            OptionKind::KeepCopyright => apply_keep_copyright(args, parsed),
            OptionKind::StripColorProfile => apply_strip_color_profile(args, parsed),
            OptionKind::PreserveHdr => apply_preserve_hdr(args, parsed),
            OptionKind::EnforceThumbnail => apply_enforce_thumbnail(args, parsed),
            OptionKind::JpegOptions => apply_jpeg_options(args, parsed),
            OptionKind::PngOptions => apply_png_options(args, parsed),
            OptionKind::WebpOptions => apply_webp_options(args, parsed),
            OptionKind::AvifOptions => apply_avif_options(args, parsed),
            OptionKind::Page => apply_page(args, parsed),
            OptionKind::Pages => apply_pages(args, parsed),
            OptionKind::DisableAnimation => apply_disable_animation(args, parsed),
            OptionKind::SkipProcessing => apply_skip_processing(args, parsed),
            OptionKind::Expires => apply_expires(args, parsed),
            OptionKind::Filename => apply_filename(args, parsed),
            OptionKind::ReturnAttachment => apply_return_attachment(args, parsed),
        },
    }
}

/// The options the directives from `i` on make of `p`, applied in order; the
/// first refused directive refuses them all.
pub open spec fn fold_options(ops: Seq<ProcessingOption>, i: nat, p: ParsedOptionsView) -> Result<
    ParsedOptionsView,
    OptionErrorKind,
>
    decreases ops.len() - i,
{
    if i >= ops.len() {
        Ok(p)
    } else {
        match option_step(option_kind_of(ops[i as int].name@), arg_views(ops[i as int].args@), p) {
            Err(e) => Err(e),
            Ok(q) => fold_options(ops, i + 1, q),
        }
    }
}

/// A width or height given without a resize asks for a `fit` resize to it.
pub open spec fn with_default_fit(p: ParsedOptionsView) -> ParsedOptionsView {
    if p.resize is None && (p.width is Some || p.height is Some) {
        ParsedOptionsView {
            resize: Some(
                Resize {
                    resizing_type: ResizingType::Fit,
                    width: match p.width {
                        Some(w) => w,
                        None => 0,
                    },
                    height: match p.height {
                        Some(h) => h,
                        None => 0,
                    },
                },
            ),
            ..p
        }
    } else {
        p
    }
}

/// What a request's directives make of the server's defaults.
pub open spec fn parsed_from(ops: Seq<ProcessingOption>, defaults: OptionDefaults) -> Result<
    ParsedOptionsView,
    OptionErrorKind,
> {
    match fold_options(ops, 0, seeded(defaults)) {
        Ok(p) => Ok(with_default_fit(p)),
        Err(e) => Err(e),
    }
}

/// Parses processing options on top of the server's configured defaults.
pub fn parse_all_options_with_defaults(options: Vec<ProcessingOption>, defaults: OptionDefaults) -> (r: Result<
    ParsedOptions,
    OptionParseError,
>)
    ensures
        match parsed_from(options@, defaults) {
            Ok(v) => r matches Ok(x) && x@ == v,
            Err(k) => r matches Err(e) && e.kind() == k,
        },
{
    let mut parsed = ParsedOptions::with_defaults(defaults);
    let mut i: usize = 0;
    while i < options.len()
        invariant
            i <= options@.len(),
            fold_options(options@, 0, seeded(defaults)) == fold_options(options@, i as nat, parsed@),
        decreases options@.len() - i,
    {
        apply_option(&options[i], &mut parsed)?;
        i = i + 1;
    }
    if parsed.resize.is_none() && (parsed.width.is_some() || parsed.height.is_some()) {
        parsed.resize = Some(
            Resize {
                resizing_type: ResizingType::Fit,
                width: parsed.width.unwrap_or(0),
                height: parsed.height.unwrap_or(0),
            },
        );
    }
    Ok(parsed)
}

/// Parses a request's directives on top of the built-in defaults.
pub fn parse_all_options(options: Vec<ProcessingOption>) -> (r: Result<ParsedOptions, OptionParseError>)
    ensures
        match parsed_from(options@, OptionDefaults::spec_default()) {
            Ok(v) => r matches Ok(x) && x@ == v,
            Err(k) => r matches Err(e) && e.kind() == k,
        },
{
    parse_all_options_with_defaults(options, OptionDefaults::default())
}

} // verus!
