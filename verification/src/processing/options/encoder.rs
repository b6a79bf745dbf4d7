//! Output options: what the encoder is told, and what metadata survives.

use super::error::{
    arg, arg_views, parse_optional_bool, parse_quality, parse_signed_integer, parse_integer,
    spec_arg, spec_optional_bool, spec_quality, spec_sint, spec_uint, OptionErrorKind,
    OptionParseError,
};
use crate::processing::save::{canonical_format_name, format_name, format_of};
use crate::string_map::StringMap;
use crate::text::{chars_of, lowercase_chars, string_of, unicode_lower};
use vstd::prelude::*;

verus! {

/// JPEG encoder controls.
#[derive(Debug, Clone, Copy, PartialEq, Eq, Structural)]
pub struct JpegOptions {
    pub progressive: Option<bool>,
    pub no_subsample: Option<bool>,
    pub trellis_quant: Option<bool>,
    pub overshoot_deringing: Option<bool>,
    pub optimize_scans: Option<bool>,
    pub quant_table: Option<i32>,
}

impl Default for JpegOptions {
    fn default() -> (r: Self)
        ensures
            r == JpegOptions::spec_default(),
    {
        JpegOptions {
            progressive: None,
            no_subsample: None,
            trellis_quant: None,
            overshoot_deringing: None,
            optimize_scans: None,
            quant_table: None,
        }
    }
}

impl JpegOptions {
    pub open spec fn spec_default() -> JpegOptions {
        JpegOptions {
            progressive: None,
            no_subsample: None,
            trellis_quant: None,
            overshoot_deringing: None,
            optimize_scans: None,
            quant_table: None,
        }
    }
}

/// PNG encoder controls.
#[derive(Debug, Clone, Copy, PartialEq, Eq, Structural)]
pub struct PngOptions {
    pub interlaced: Option<bool>,
    pub quantize: Option<bool>,
    pub quantization_colors: Option<u16>,
}

impl Default for PngOptions {
    fn default() -> (r: Self)
        ensures
            r == (PngOptions { interlaced: None, quantize: None, quantization_colors: None }),
    {
        PngOptions { interlaced: None, quantize: None, quantization_colors: None }
    }
}

/// WebP encoder controls.
#[derive(Debug, Clone, PartialEq, Eq)]
pub struct WebpOptions {
    pub lossless: Option<bool>,
    pub smart_subsample: Option<bool>,
    pub preset: Option<String>,
}

/// What WebP encoder controls hold.
pub struct WebpOptionsView {
    pub lossless: Option<bool>,
    pub smart_subsample: Option<bool>,
    pub preset: Option<Seq<char>>,
}

impl View for WebpOptions {
    type V = WebpOptionsView;

    open spec fn view(&self) -> WebpOptionsView {
        WebpOptionsView {
            lossless: self.lossless,
            smart_subsample: self.smart_subsample,
            preset: match self.preset {
                Some(p) => Some(p@),
                None => None,
            },
        }
    }
}

impl Default for WebpOptions {
    fn default() -> (r: Self)
        ensures
            r@ == (WebpOptionsView { lossless: None, smart_subsample: None, preset: None }),
    {
        WebpOptions { lossless: None, smart_subsample: None, preset: None }
    }
}

/// AVIF/HEIF encoder controls.
#[derive(Debug, Clone, Copy, PartialEq, Eq, Structural)]
pub struct AvifOptions {
    pub no_subsample: Option<bool>,
}

impl Default for AvifOptions {
    fn default() -> (r: Self)
        ensures
            r == (AvifOptions { no_subsample: None }),
    {
        AvifOptions { no_subsample: None }
    }
}

/// Encoder-specific output controls.
#[derive(Debug)]
pub struct SaveOptions {
    /// Quality per output format, keyed by the format's canonical name.
    pub format_quality: StringMap<u8>,
    pub max_bytes: Option<usize>,
    pub strip_metadata: Option<bool>,
    pub strip_color_profile: Option<bool>,
    /// Retain the copyright tags when metadata is stripped.
    pub keep_copyright: Option<bool>,
    /// Keep a high bit-depth image high bit-depth, and carry any gain map
    /// through to the result.
    pub preserve_hdr: Option<bool>,
    pub jpeg: JpegOptions,
    pub png: PngOptions,
    pub webp: WebpOptions,
    pub avif: AvifOptions,
}

/// What encoder-specific output controls hold.
pub struct SaveOptionsView {
    pub format_quality: Map<Seq<char>, u8>,
    pub max_bytes: Option<usize>,
    pub strip_metadata: Option<bool>,
    pub strip_color_profile: Option<bool>,
    pub keep_copyright: Option<bool>,
    pub preserve_hdr: Option<bool>,
    pub jpeg: JpegOptions,
    pub png: PngOptions,
    pub webp: WebpOptionsView,
    pub avif: AvifOptions,
}

impl View for SaveOptions {
    type V = SaveOptionsView;

    open spec fn view(&self) -> SaveOptionsView {
        SaveOptionsView {
            format_quality: self.format_quality.spec_map(),
            max_bytes: self.max_bytes,
            strip_metadata: self.strip_metadata,
            strip_color_profile: self.strip_color_profile,
            keep_copyright: self.keep_copyright,
            preserve_hdr: self.preserve_hdr,
            jpeg: self.jpeg,
            png: self.png,
            webp: self.webp@,
            avif: self.avif,
        }
    }
}

impl SaveOptionsView {
    /// Output controls with nothing set.
    pub open spec fn empty() -> SaveOptionsView {
        SaveOptionsView {
            format_quality: Map::empty(),
            max_bytes: None,
            strip_metadata: None,
            strip_color_profile: None,
            keep_copyright: None,
            preserve_hdr: None,
            jpeg: JpegOptions::spec_default(),
            png: PngOptions { interlaced: None, quantize: None, quantization_colors: None },
            webp: WebpOptionsView { lossless: None, smart_subsample: None, preset: None },
            avif: AvifOptions { no_subsample: None },
        }
    }
}

/// `flag.unwrap_or(false)`.
pub open spec fn is_set(flag: Option<bool>) -> bool {
    flag == Some(true)
}

impl Default for SaveOptions {
    fn default() -> (r: Self)
        ensures
            r@ == SaveOptionsView::empty(),
    {
        SaveOptions {
            format_quality: StringMap::new(),
            max_bytes: None,
            strip_metadata: None,
            strip_color_profile: None,
            keep_copyright: None,
            preserve_hdr: None,
            jpeg: JpegOptions::default(),
            png: PngOptions::default(),
            webp: WebpOptions::default(),
            avif: AvifOptions::default(),
        }
    }
}

impl SaveOptions {
    /// Whether the request asked for any metadata to be dropped.
    pub fn strips_anything(&self) -> (r: bool)
        ensures
            r == (is_set(self.strip_metadata) || is_set(self.strip_color_profile)),
    {
        self.strip_metadata.unwrap_or(false) || self.strip_color_profile.unwrap_or(false)
    }

    /// Whether the copyright tags must be carried across a metadata strip.
    pub fn retains_copyright(&self) -> (r: bool)
        ensures
            r == (is_set(self.keep_copyright) && is_set(self.strip_metadata)),
    {
        self.keep_copyright.unwrap_or(false) && self.strip_metadata.unwrap_or(false)
    }
}

/// The key a `format_quality` name is stored under: the canonical name of the
/// format it spells, or its lowercase when it spells none. An unrecognised name
/// is kept as written so that it can only ever miss, visibly, rather than be
/// rewritten into something it did not say.
pub open spec fn quality_key(name: Seq<char>) -> Seq<char> {
    let lower = unicode_lower(name);
    match format_of(lower) {
        Some(f) => format_name(f),
        None => lower,
    }
}

/// The qualities of the pairs from argument `i` on, added to `m` in order.
pub open spec fn quality_pairs(m: Map<Seq<char>, u8>, args: Seq<Seq<char>>, i: nat) -> Result<
    Map<Seq<char>, u8>,
    OptionErrorKind,
>
    decreases args.len() - i,
{
    if i + 1 >= args.len() {
        Ok(m)
    } else {
        match spec_quality(args[i + 1 as int], "format_quality"@) {
            Err(e) => Err(e),
            Ok(q) => quality_pairs(m.insert(quality_key(args[i as int]), q), args, i + 2),
        }
    }
}

/// What `format_quality` makes of the qualities already set: the arguments
/// must come in `format:quality` pairs, at least one of them.
pub open spec fn format_quality_from_args(m: Map<Seq<char>, u8>, args: Seq<Seq<char>>) -> Result<
    Map<Seq<char>, u8>,
    OptionErrorKind,
> {
    if args.len() < 2 || args.len() % 2 != 0 {
        Err(OptionErrorKind::Invalid("format_quality option requires format/quality pairs"@))
    } else {
        quality_pairs(m, args, 0)
    }
}

/// The key that `format_quality` stores a name's quality under.
fn quality_key_of(name: &[char]) -> (r: String)
    ensures
        r@ == quality_key(name@),
{
    let lower = lowercase_chars(name);
    let text = string_of(lower.as_slice());
    match canonical_format_name(text.as_str()) {
        Some(c) => c.to_owned(),
        None => text,
    }
}

/// Parses `format:quality[:format:quality...]` into the per-format qualities.
pub fn parse_format_quality(args: &[String], save: &mut SaveOptions) -> (r: Result<
    (),
    OptionParseError,
>)
    ensures
        match format_quality_from_args(old(save).format_quality.spec_map(), arg_views(args@)) {
            Ok(m) => r is Ok && final(save).format_quality.spec_map() == m,
            Err(k) => r matches Err(e) && e.kind() == k,
        },
        final(save).max_bytes == old(save).max_bytes,
        final(save).strip_metadata == old(save).strip_metadata,
        final(save).strip_color_profile == old(save).strip_color_profile,
        final(save).keep_copyright == old(save).keep_copyright,
        final(save).preserve_hdr == old(save).preserve_hdr,
        final(save).jpeg == old(save).jpeg,
        final(save).png == old(save).png,
        final(save).webp@ == old(save).webp@,
        final(save).avif == old(save).avif,
{
    let ghost a = arg_views(args@);
    if args.len() < 2 || args.len() % 2 != 0 {
        return Err(OptionParseError::invalid("format_quality option requires format/quality pairs"));
    }
    let mut i: usize = 0;
    while i + 1 < args.len()
        invariant
            a == arg_views(args@),
            args@.len() % 2 == 0,
            i % 2 == 0,
            i <= args@.len(),
            quality_pairs(old(save).format_quality.spec_map(), a, 0) == quality_pairs(
                save.format_quality.spec_map(),
                a,
                i as nat,
            ),
            save.max_bytes == old(save).max_bytes,
            save.strip_metadata == old(save).strip_metadata,
            save.strip_color_profile == old(save).strip_color_profile,
            save.keep_copyright == old(save).keep_copyright,
            save.preserve_hdr == old(save).preserve_hdr,
            save.jpeg == old(save).jpeg,
            save.png == old(save).png,
            save.webp@ == old(save).webp@,
            save.avif == old(save).avif,
        decreases args@.len() - i,
    {
        let name = chars_of(args[i].as_str());
        let value = chars_of(args[i + 1].as_str());
        let key = quality_key_of(name.as_slice());
        let q = parse_quality(value.as_slice(), "format_quality")?;
        save.format_quality.insert(key, q);
        i = i + 2;
    }
    Ok(())
}

/// What `jpeg_options` arguments make of the JPEG controls: each positional
/// flag is replaced, absent or not, and a quant table is set when given.
pub open spec fn jpeg_options_from_args(jpeg: JpegOptions, args: Seq<Seq<char>>) -> Result<
    JpegOptions,
    OptionErrorKind,
> {
    let quant = match spec_arg(args, 5) {
        Some(v) => match spec_sint(v, i32::MIN as int, i32::MAX as int, "jpeg quant_table"@) {
            Ok(n) => Ok(Some(n as i32)),
            Err(e) => Err(e),
        },
        None => Ok(jpeg.quant_table),
    };
    match quant {
        Err(e) => Err(e),
        Ok(quant_table) => Ok(
            JpegOptions {
                progressive: spec_optional_bool(args, 0),
                no_subsample: spec_optional_bool(args, 1),
                trellis_quant: spec_optional_bool(args, 2),
                overshoot_deringing: spec_optional_bool(args, 3),
                optimize_scans: spec_optional_bool(args, 4),
                quant_table,
            },
        ),
    }
}

/// Parses `progressive:no_subsample:trellis_quant:overshoot_deringing:optimize_scans:quant_table`.
pub fn parse_jpeg_options(args: &[String], jpeg: &mut JpegOptions) -> (r: Result<(), OptionParseError>)
    ensures
        match jpeg_options_from_args(*old(jpeg), arg_views(args@)) {
            Ok(j) => r is Ok && *final(jpeg) == j,
            Err(k) => r matches Err(e) && e.kind() == k,
        },
{
    jpeg.progressive = parse_optional_bool(args, 0);
    jpeg.no_subsample = parse_optional_bool(args, 1);
    jpeg.trellis_quant = parse_optional_bool(args, 2);
    jpeg.overshoot_deringing = parse_optional_bool(args, 3);
    jpeg.optimize_scans = parse_optional_bool(args, 4);
    if let Some(value) = arg(args, 5) {
        let n = parse_signed_integer(
            value.as_slice(),
            i32::MIN as i64,
            i32::MAX as i64,
            "jpeg quant_table",
        )?;
        jpeg.quant_table = Some(n as i32);
    }
    Ok(())
}

/// What `png_options` arguments make of the PNG controls.
pub open spec fn png_options_from_args(png: PngOptions, args: Seq<Seq<char>>) -> Result<
    PngOptions,
    OptionErrorKind,
> {
    let colors = match spec_arg(args, 2) {
        Some(v) => match spec_uint(v, u16::MAX as nat, "png quantization_colors"@) {
            Ok(n) => Ok(Some(n as u16)),
            Err(e) => Err(e),
        },
        None => Ok(png.quantization_colors),
    };
    match colors {
        Err(e) => Err(e),
        Ok(quantization_colors) => Ok(
            PngOptions {
                interlaced: spec_optional_bool(args, 0),
                quantize: spec_optional_bool(args, 1),
                quantization_colors,
            },
        ),
    }
}

/// Parses `interlaced:quantize:quantization_colors`.
pub fn parse_png_options(args: &[String], png: &mut PngOptions) -> (r: Result<(), OptionParseError>)
    ensures
        match png_options_from_args(*old(png), arg_views(args@)) {
            Ok(p) => r is Ok && *final(png) == p,
            Err(k) => r matches Err(e) && e.kind() == k,
        },
{
    png.interlaced = parse_optional_bool(args, 0);
    png.quantize = parse_optional_bool(args, 1);
    if let Some(value) = arg(args, 2) {
        let n = parse_integer(value.as_slice(), u16::MAX as u64, "png quantization_colors")?;
        png.quantization_colors = Some(n as u16);
    }
    Ok(())
}

/// What `webp_options` arguments make of the WebP controls; the preset is
/// kept in lowercase.
pub open spec fn webp_options_from_args(webp: WebpOptionsView, args: Seq<Seq<char>>) -> WebpOptionsView {
    WebpOptionsView {
        lossless: spec_optional_bool(args, 0),
        smart_subsample: spec_optional_bool(args, 1),
        preset: match spec_arg(args, 2) {
            Some(v) => Some(unicode_lower(v)),
            None => webp.preset,
        },
    }
}

/// Parses `lossless:smart_subsample:preset`.
pub fn parse_webp_options(args: &[String], webp: &mut WebpOptions)
    ensures
        final(webp)@ == webp_options_from_args(old(webp)@, arg_views(args@)),
{
    webp.lossless = parse_optional_bool(args, 0);
    webp.smart_subsample = parse_optional_bool(args, 1);
    if let Some(value) = arg(args, 2) {
        let lower = lowercase_chars(value.as_slice());
        webp.preset = Some(string_of(lower.as_slice()));
    }
}

} // verus!
