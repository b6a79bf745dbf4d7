//! Encoder settings for a processed image.
//!
//! Every format goes through libvips' save-suffix parser, so what the encoder
//! is told is a string such as `.webp[Q=80,keep=all]`. The suffix names only
//! the options set here, which keeps it valid across libvips versions, and it
//! is the one form that can express a combination of metadata `keep` flags.

use crate::numbers::{decimal, i64_to_chars, signed_decimal};
use crate::processing::options::encoder::{is_set, SaveOptions, SaveOptionsView};
use crate::text::{
    append_chars, ascii_lower, chars_of, is, is_ascii_seq, join, join_chars, lowercase_chars, string_of, unicode_lower, views,
};
use vstd::prelude::*;

verus! {

/// Errors produced while encoding an image.
#[derive(Debug)]
pub enum SaveError {
    /// The output format is not one this build can encode.
    UnsupportedFormat { format: String },
    /// The encoder panicked.
    EncoderPanicked { format: &'static str },
    /// The encoder refused the image, with what libvips said.
    Vips { format: &'static str, message: String },
}

/// Every format imgforge knows how to encode.
#[derive(Debug, Clone, Copy, PartialEq, Eq, Structural)]
pub enum ImageFormat {
    Jpeg,
    Png,
    Webp,
    Tiff,
    Gif,
    Avif,
    Heif,
}

/// The canonical name of a format, which is also the suffix vips is given.
pub open spec fn format_name(f: ImageFormat) -> Seq<char> {
    match f {
        ImageFormat::Jpeg => "jpeg"@,
        ImageFormat::Png => "png"@,
        ImageFormat::Webp => "webp"@,
        ImageFormat::Tiff => "tiff"@,
        ImageFormat::Gif => "gif"@,
        ImageFormat::Avif => "avif"@,
        ImageFormat::Heif => "heif"@,
    }
}

/// The format a lowercase name or alias spells.
pub open spec fn format_named(l: Seq<char>) -> Option<ImageFormat> {
    if l == "jpg"@ || l == "jpeg"@ {
        Some(ImageFormat::Jpeg)
    } else if l == "heic"@ || l == "heif"@ {
        Some(ImageFormat::Heif)
    } else if l == "tif"@ || l == "tiff"@ {
        Some(ImageFormat::Tiff)
    } else if l == "png"@ {
        Some(ImageFormat::Png)
    } else if l == "webp"@ {
        Some(ImageFormat::Webp)
    } else if l == "gif"@ {
        Some(ImageFormat::Gif)
    } else if l == "avif"@ {
        Some(ImageFormat::Avif)
    } else {
        None
    }
}

/// The lowercase of a name: the ASCII lowercase of ASCII text, Unicode's
/// otherwise.
pub open spec fn name_lower(s: Seq<char>) -> Seq<char> {
    if is_ascii_seq(s) {
        ascii_lower(s)
    } else {
        unicode_lower(s)
    }
}

/// The format a requested name spells, in any case and by any alias URLs use.
pub open spec fn format_of(s: Seq<char>) -> Option<ImageFormat> {
    format_named(name_lower(s))
}

/// Each canonical name spells its own format.
pub proof fn lemma_canonical_name_spells_its_format(f: ImageFormat)
    ensures
        format_of(format_name(f)) == Some(f),
{
    reveal_strlit("jpeg");
    reveal_strlit("jpg");
    reveal_strlit("png");
    reveal_strlit("webp");
    reveal_strlit("tiff");
    reveal_strlit("tif");
    reveal_strlit("gif");
    reveal_strlit("avif");
    reveal_strlit("heif");
    reveal_strlit("heic");
    assert("jpg"@.len() == 3 && "png"@.len() == 3 && "tif"@.len() == 3 && "gif"@.len() == 3);
    assert("jpeg"@.len() == 4 && "webp"@.len() == 4 && "tiff"@.len() == 4 && "avif"@.len() == 4);
    assert("heif"@.len() == 4 && "heic"@.len() == 4);
    assert("jpg"@[0] == 'j' && "jpeg"@[0] == 'j' && "png"@[0] == 'p' && "webp"@[0] == 'w');
    assert("tif"@[0] == 't' && "tiff"@[0] == 't' && "gif"@[0] == 'g' && "avif"@[0] == 'a');
    assert("heif"@[0] == 'h' && "heic"@[0] == 'h' && "heif"@[3] == 'f' && "heic"@[3] == 'c');
    let n = format_name(f);
    assert(is_ascii_seq(n));
    assert(ascii_lower(n) =~= n);
    assert(name_lower(n) == n);
}

impl ImageFormat {
    /// Whether the format can carry an alpha channel.
    pub open spec fn alpha(self) -> bool {
        self != ImageFormat::Jpeg
    }

    /// Whether the format can carry an embedded colour profile.
    pub open spec fn color_profile(self) -> bool {
        self != ImageFormat::Gif
    }

    /// Whether the format can carry more than one frame.
    pub open spec fn animation(self) -> bool {
        self == ImageFormat::Webp || self == ImageFormat::Gif || self == ImageFormat::Avif || self
            == ImageFormat::Heif
    }

    /// Whether the format can carry more than 8 bits per channel.
    pub open spec fn high_bit_depth(self) -> bool {
        self == ImageFormat::Png || self == ImageFormat::Tiff || self == ImageFormat::Avif || self
            == ImageFormat::Heif
    }

    /// Largest side the format's container can address, where it is bounded
    /// tightly enough to matter. For JPEG that is libjpeg's own limit, which
    /// sits below what the 16-bit header fields could hold.
    pub open spec fn max_dimension(self) -> Option<u32> {
        match self {
            ImageFormat::Jpeg => Some(65_500),
            ImageFormat::Png => None,
            ImageFormat::Webp => Some(16_383),
            ImageFormat::Tiff => None,
            ImageFormat::Gif => Some(65_535),
            ImageFormat::Avif => Some(16_384),
            ImageFormat::Heif => Some(16_384),
        }
    }

    /// The canonical name.
    pub fn name(self) -> (r: &'static str)
        ensures
            r@ == format_name(self),
    {
        match self {
            ImageFormat::Jpeg => "jpeg",
            ImageFormat::Png => "png",
            ImageFormat::Webp => "webp",
            ImageFormat::Tiff => "tiff",
            ImageFormat::Gif => "gif",
            ImageFormat::Avif => "avif",
            ImageFormat::Heif => "heif",
        }
    }

    fn supports_alpha(self) -> (r: bool)
        ensures
            r == self.alpha(),
    {
        !matches!(self, ImageFormat::Jpeg)
    }

    fn supports_color_profile(self) -> (r: bool)
        ensures
            r == self.color_profile(),
    {
        !matches!(self, ImageFormat::Gif)
    }

    fn supports_animation(self) -> (r: bool)
        ensures
            r == self.animation(),
    {
        matches!(self, ImageFormat::Webp | ImageFormat::Gif | ImageFormat::Avif | ImageFormat::Heif)
    }

    fn supports_high_bit_depth(self) -> (r: bool)
        ensures
            r == self.high_bit_depth(),
    {
        matches!(self, ImageFormat::Png | ImageFormat::Tiff | ImageFormat::Avif | ImageFormat::Heif)
    }

    fn dimension_limit(self) -> (r: Option<u32>)
        ensures
            r == self.max_dimension(),
    {
        match self {
            ImageFormat::Jpeg => Some(65_500),
            ImageFormat::Png => None,
            ImageFormat::Webp => Some(16_383),
            ImageFormat::Tiff => None,
            ImageFormat::Gif => Some(65_535),
            ImageFormat::Avif => Some(16_384),
            ImageFormat::Heif => Some(16_384),
        }
    }
}

fn format_named_chars(l: &[char]) -> (r: Option<ImageFormat>)
    ensures
        r == format_named(l@),
{
    if is(l, "jpg") || is(l, "jpeg") {
        Some(ImageFormat::Jpeg)
    } else if is(l, "heic") || is(l, "heif") {
        Some(ImageFormat::Heif)
    } else if is(l, "tif") || is(l, "tiff") {
        Some(ImageFormat::Tiff)
    } else if is(l, "png") {
        Some(ImageFormat::Png)
    } else if is(l, "webp") {
        Some(ImageFormat::Webp)
    } else if is(l, "gif") {
        Some(ImageFormat::Gif)
    } else if is(l, "avif") {
        Some(ImageFormat::Avif)
    } else {
        None
    }
}

/// Resolves a requested format name, including the aliases URLs use.
pub fn canonical_format(format: &str) -> (r: Option<ImageFormat>)
    ensures
        r == format_of(format@),
{
    let v = chars_of(format);
    let lower = lowercase_chars(v.as_slice());
    format_named_chars(lower.as_slice())
}

/// The canonical spelling of a requested format, or `None` if unrecognised.
///
/// Everything downstream keys off this spelling: the response content type,
/// the `format_quality` lookup and the metrics label.
pub fn canonical_format_name(format: &str) -> (r: Option<&'static str>)
    ensures
        match format_of(format@) {
            Some(f) => r matches Some(n) && n@ == format_name(f),
            None => r is None,
        },
{
    match canonical_format(format) {
        Some(f) => Some(f.name()),
        None => None,
    }
}

/// Whether the format can carry an alpha channel.
pub fn format_supports_alpha(format: &str) -> (r: bool)
    ensures
        r == (format_of(format@) matches Some(f) && f.alpha()),
{
    match canonical_format(format) {
        Some(f) => f.supports_alpha(),
        None => false,
    }
}

/// Whether the format can carry an embedded colour profile.
pub fn format_supports_color_profile(format: &str) -> (r: bool)
    ensures
        r == (format_of(format@) matches Some(f) && f.color_profile()),
{
    match canonical_format(format) {
        Some(f) => f.supports_color_profile(),
        None => false,
    }
}

/// Whether the format can carry more than one frame.
pub fn format_supports_animation(format: &str) -> (r: bool)
    ensures
        r == (format_of(format@) matches Some(f) && f.animation()),
{
    match canonical_format(format) {
        Some(f) => f.supports_animation(),
        None => false,
    }
}

/// Whether the format can carry more than 8 bits per channel.
pub fn format_supports_high_bit_depth(format: &str) -> (r: bool)
    ensures
        r == (format_of(format@) matches Some(f) && f.high_bit_depth()),
{
    match canonical_format(format) {
        Some(f) => f.supports_high_bit_depth(),
        None => false,
    }
}

/// Largest side the format's container can address.
pub fn format_max_dimension(format: &str) -> (r: Option<u32>)
    ensures
        r == match format_of(format@) {
            Some(f) => f.max_dimension(),
            None => None,
        },
{
    match canonical_format(format) {
        Some(f) => f.dimension_limit(),
        None => None,
    }
}

/// The libvips `keep` flags for a request. `strip_metadata` drops the
/// descriptive tags and `strip_color_profile` the ICC profile; a gain map is
/// neither, so it stays whenever HDR is to be preserved.
pub open spec fn keep_flags(strip_metadata: bool, strip_profile: bool, preserve_hdr: bool) -> Seq<
    Seq<char>,
> {
    (if !strip_metadata {
        seq!["exif"@, "xmp"@, "iptc"@, "other"@]
    } else {
        seq![]
    }) + (if !strip_profile {
        seq!["icc"@]
    } else {
        seq![]
    }) + (if preserve_hdr {
        seq!["gainmap"@]
    } else {
        seq![]
    })
}

/// The `keep` value for a request: `all` when nothing is stripped, otherwise
/// the flags that survive joined with `|`, or `none`.
pub open spec fn keep_text(options: SaveOptionsView) -> Seq<char> {
    let strip_metadata = is_set(options.strip_metadata);
    let strip_profile = is_set(options.strip_color_profile);
    if !strip_metadata && !strip_profile {
        "all"@
    } else {
        let flags = keep_flags(strip_metadata, strip_profile, is_set(options.preserve_hdr));
        if flags.len() == 0 {
            "none"@
        } else {
            join(flags, '|')
        }
    }
}

proof fn lemma_join_starts_with_first(parts: Seq<Seq<char>>, sep: char)
    requires
        parts.len() >= 1,
        parts[0].len() > 0,
    ensures
        join(parts, sep).len() > 0,
        join(parts, sep)[0] == parts[0][0],
    decreases parts.len(),
{
    if parts.len() > 1 {
        lemma_join_starts_with_first(parts.drop_last(), sep);
    }
}

/// A request strips something exactly when its `keep` text is not `all`, so
/// `strips_anything` and `metadata_keep` never disagree.
pub proof fn lemma_strips_anything_iff_keep_is_not_all(o: SaveOptionsView)
    ensures
        (is_set(o.strip_metadata) || is_set(o.strip_color_profile)) == (keep_text(o) != "all"@),
{
    reveal_strlit("all");
    reveal_strlit("none");
    reveal_strlit("exif");
    reveal_strlit("icc");
    reveal_strlit("gainmap");
    let sm = is_set(o.strip_metadata);
    let sp = is_set(o.strip_color_profile);
    if sm || sp {
        let flags = keep_flags(sm, sp, is_set(o.preserve_hdr));
        if flags.len() == 0 {
            assert("none"@[0] == 'n' && "all"@[0] == 'a');
        } else {
            assert(flags[0] == "exif"@ || flags[0] == "icc"@ || flags[0] == "gainmap"@);
            assert("exif"@[0] == 'e' && "icc"@[0] == 'i' && "gainmap"@[0] == 'g');
            lemma_join_starts_with_first(flags, '|');
            assert(join(flags, '|')[0] != "all"@[0]);
        }
    }
}

/// The `keep` flag combination for a request.
pub fn metadata_keep(options: &SaveOptions) -> (r: String)
    ensures
        r@ == keep_text(options@),
{
    let strip_metadata = options.strip_metadata.unwrap_or(false);
    let strip_profile = options.strip_color_profile.unwrap_or(false);
    if !strip_metadata && !strip_profile {
        return "all".to_owned();
    }
    let mut flags: Vec<Vec<char>> = Vec::new();
    if !strip_metadata {
        flags.push(chars_of("exif"));
        flags.push(chars_of("xmp"));
        flags.push(chars_of("iptc"));
        flags.push(chars_of("other"));
    }
    let ghost first = views(flags@);
    if !strip_profile {
        flags.push(chars_of("icc"));
    }
    let ghost second = views(flags@);
    let hdr = options.preserve_hdr.unwrap_or(false);
    if hdr {
        flags.push(chars_of("gainmap"));
    }
    proof {
        let a = if !strip_metadata {
            seq!["exif"@, "xmp"@, "iptc"@, "other"@]
        } else {
            seq![]
        };
        assert(first =~= a);
        assert(second =~= a + (if !strip_profile {
            seq!["icc"@]
        } else {
            seq![]
        }));
        assert(views(flags@) =~= keep_flags(strip_metadata, strip_profile, hdr));
    }
    if flags.len() == 0 {
        "none".to_owned()
    } else {
        let joined = join_chars(&flags, '|');
        string_of(joined.as_slice())
    }
}

/// A libvips save suffix: `.ext` alone, or `.ext[part,part,...]`.
pub open spec fn suffix_text(extension: Seq<char>, parts: Seq<Seq<char>>) -> Seq<char> {
    if parts.len() == 0 {
        seq!['.'] + extension
    } else {
        seq!['.'] + extension + seq!['['] + join(parts, ',') + seq![']']
    }
}

/// The parts with `name` added when `enabled`.
pub open spec fn with_flag(parts: Seq<Seq<char>>, name: Seq<char>, enabled: bool) -> Seq<Seq<char>> {
    if enabled {
        parts.push(name)
    } else {
        parts
    }
}

/// The parts with `name=value` added.
pub open spec fn with_value(parts: Seq<Seq<char>>, name: Seq<char>, value: Seq<char>) -> Seq<
    Seq<char>,
> {
    parts.push(name + seq!['='] + value)
}

/// The parts with `name=value` added when there is a value.
pub open spec fn with_maybe(parts: Seq<Seq<char>>, name: Seq<char>, value: Option<Seq<char>>) -> Seq<
    Seq<char>,
> {
    match value {
        Some(v) => with_value(parts, name, v),
        None => parts,
    }
}

/// Builds a libvips save suffix.
struct Suffix {
    parts: Vec<Vec<char>>,
    extension: &'static str,
}

impl Suffix {
    fn new(extension: &'static str) -> (r: Self)
        ensures
            r.extension == extension,
            views(r.parts@) == Seq::<Seq<char>>::empty(),
    {
        let r = Suffix { parts: Vec::new(), extension };
        assert(views(r.parts@) =~= Seq::<Seq<char>>::empty());
        r
    }

    fn flag(self, name: &str, enabled: bool) -> (r: Self)
        ensures
            r.extension == self.extension,
            views(r.parts@) == with_flag(views(self.parts@), name@, enabled),
    {
        let mut s = self;
        let ghost before = views(s.parts@);
        if enabled {
            s.parts.push(chars_of(name));
            assert(views(s.parts@) =~= before.push(name@));
        }
        s
    }

    fn value(self, name: &str, value: &[char]) -> (r: Self)
        ensures
            r.extension == self.extension,
            views(r.parts@) == with_value(views(self.parts@), name@, value@),
    {
        let mut s = self;
        let ghost before = views(s.parts@);
        let mut part = chars_of(name);
        part.push('=');
        assert(part@ =~= name@ + seq!['=']);
        append_chars(&mut part, value);
        assert(part@ =~= name@ + seq!['='] + value@);
        let ghost whole = part@;
        s.parts.push(part);
        assert(views(s.parts@) =~= before.push(whole));
        assert(views(s.parts@) =~= with_value(before, name@, value@));
        s
    }

    fn number(self, name: &str, value: i64) -> (r: Self)
        ensures
            r.extension == self.extension,
            views(r.parts@) == with_value(views(self.parts@), name@, signed_decimal(value as int)),
    {
        let digits = i64_to_chars(value);
        self.value(name, digits.as_slice())
    }

    fn text(self, name: &str, value: &str) -> (r: Self)
        ensures
            r.extension == self.extension,
            views(r.parts@) == with_value(views(self.parts@), name@, value@),
    {
        let v = chars_of(value);
        self.value(name, v.as_slice())
    }

    fn maybe_number(self, name: &str, value: Option<i32>) -> (r: Self)
        ensures
            r.extension == self.extension,
            views(r.parts@) == with_maybe(
                views(self.parts@),
                name@,
                match value {
                    Some(v) => Some(signed_decimal(v as int)),
                    None => None,
                },
            ),
    {
        match value {
            Some(v) => self.number(name, v as i64),
            None => self,
        }
    }

    fn maybe_text(self, name: &str, value: Option<&'static str>) -> (r: Self)
        ensures
            r.extension == self.extension,
            views(r.parts@) == with_maybe(
                views(self.parts@),
                name@,
                match value {
                    Some(v) => Some(v@),
                    None => None,
                },
            ),
    {
        match value {
            Some(v) => self.text(name, v),
            None => self,
        }
    }

    fn build(self) -> (r: String)
        ensures
            r@ == suffix_text(self.extension@, views(self.parts@)),
    {
        let mut out: Vec<char> = Vec::new();
        out.push('.');
        let ext = chars_of(self.extension);
        append_chars(&mut out, ext.as_slice());
        if self.parts.len() > 0 {
            out.push('[');
            let joined = join_chars(&self.parts, ',');
            append_chars(&mut out, joined.as_slice());
            out.push(']');
        }
        proof {
            if self.parts@.len() == 0 {
                assert(out@ =~= suffix_text(self.extension@, views(self.parts@)));
            } else {
                assert(out@ =~= suffix_text(self.extension@, views(self.parts@)));
            }
        }
        string_of(out.as_slice())
    }
}

/// The vips nickname of a requested WebP preset. The preset arrives as free
/// text, so only names vips defines may reach the option string.
pub open spec fn webp_preset_of(preset: Seq<char>) -> Option<Seq<char>> {
    if preset == "default"@ || preset == "picture"@ || preset == "photo"@ || preset == "drawing"@
        || preset == "icon"@ || preset == "text"@ {
        Some(preset)
    } else {
        None
    }
}

/// Maps a requested WebP preset to the matching vips nickname.
pub fn webp_preset_nickname(preset: &str) -> (r: Option<&'static str>)
    ensures
        match webp_preset_of(preset@) {
            Some(n) => r matches Some(x) && x@ == n,
            None => r is None,
        },
{
    let v = chars_of(preset);
    if is(v.as_slice(), "default") {
        Some("default")
    } else if is(v.as_slice(), "picture") {
        Some("picture")
    } else if is(v.as_slice(), "photo") {
        Some("photo")
    } else if is(v.as_slice(), "drawing") {
        Some("drawing")
    } else if is(v.as_slice(), "icon") {
        Some("icon")
    } else if is(v.as_slice(), "text") {
        Some("text")
    } else {
        None
    }
}

/// `v` clamped into `lo..=hi`.
pub open spec fn clamp(v: int, lo: int, hi: int) -> int {
    if v < lo {
        lo
    } else if v > hi {
        hi
    } else {
        v
    }
}

/// The quality every encoder is given, in 1..=100.
pub open spec fn encoder_quality(quality: u8) -> int {
    clamp(quality as int, 1, 100)
}

/// The effort the slower encoders are given: a tenth of the quality, in
/// 1..=10, so a request for high quality also buys the extra search.
pub open spec fn encoder_effort(quality: u8) -> int {
    clamp(encoder_quality(quality) / 10, 1, 10)
}

/// A frame height, kept only when it is positive and the format animates.
pub open spec fn frame_height(f: ImageFormat, page_height: Option<i32>) -> Option<Seq<char>> {
    match page_height {
        Some(h) => if h > 0 && f.animation() {
            Some(signed_decimal(h as int))
        } else {
            None
        },
        None => None,
    }
}

/// The file extension vips is given for a format.
pub open spec fn suffix_extension(f: ImageFormat) -> Seq<char> {
    match f {
        ImageFormat::Jpeg => "jpg"@,
        ImageFormat::Tiff => "tif"@,
        _ => format_name(f),
    }
}

/// `yes` when set, `no` otherwise.
pub open spec fn choice(set: bool, yes: Seq<char>, no: Seq<char>) -> Seq<char> {
    if set {
        yes
    } else {
        no
    }
}

/// The option parts of the suffix for one format.
pub open spec fn suffix_parts(f: ImageFormat, quality: u8, o: SaveOptionsView, page_height: Option<i32>) -> Seq<
    Seq<char>,
> {
    let q = signed_decimal(encoder_quality(quality));
    let effort = encoder_effort(quality);
    let keep = keep_text(o);
    let ph = frame_height(f, page_height);
    let none = Seq::<Seq<char>>::empty();
    match f {
        ImageFormat::Jpeg => {
            let p = with_value(none, "Q"@, q);
            let p = with_flag(p, "optimize-coding"@, true);
            let p = with_flag(p, "interlace"@, is_set(o.jpeg.progressive));
            let p = with_flag(p, "trellis-quant"@, is_set(o.jpeg.trellis_quant));
            let p = with_flag(p, "overshoot-deringing"@, is_set(o.jpeg.overshoot_deringing));
            let p = with_flag(p, "optimize-scans"@, is_set(o.jpeg.optimize_scans));
            let table = match o.jpeg.quant_table {
                Some(t) => clamp(t as int, 0, 8),
                None => 0,
            };
            let p = with_value(p, "quant-table"@, signed_decimal(table));
            let p = with_value(
                p,
                "subsample-mode"@,
                choice(is_set(o.jpeg.no_subsample), "off"@, "auto"@),
            );
            with_value(p, "keep"@, keep)
        },
        ImageFormat::Png => {
            let p = with_flag(none, "interlace"@, is_set(o.png.interlaced));
            let p = with_flag(p, "palette"@, is_set(o.png.quantize));
            let colors = match o.png.quantization_colors {
                Some(c) => if c > 256 {
                    256
                } else {
                    c as int
                },
                None => 100,
            };
            let p = with_value(p, "Q"@, signed_decimal(colors));
            let p = with_value(p, "effort"@, signed_decimal(effort));
            with_value(p, "keep"@, keep)
        },
        ImageFormat::Webp => {
            let p = with_value(none, "Q"@, q);
            let p = with_flag(p, "lossless"@, is_set(o.webp.lossless));
            let p = with_flag(p, "smart-subsample"@, is_set(o.webp.smart_subsample));
            let preset = match o.webp.preset {
                Some(name) => webp_preset_of(name),
                None => None,
            };
            let p = with_maybe(p, "preset"@, preset);
            let p = with_maybe(p, "page-height"@, ph);
            with_value(p, "keep"@, keep)
        },
        ImageFormat::Tiff => {
            let p = with_value(none, "Q"@, q);
            let p = with_value(
                p,
                "compression"@,
                choice(encoder_quality(quality) == 100, "lzw"@, "jpeg"@),
            );
            with_value(p, "keep"@, keep)
        },
        ImageFormat::Gif => {
            let p = with_value(none, "effort"@, signed_decimal(effort));
            let p = with_maybe(p, "page-height"@, ph);
            with_value(p, "keep"@, keep)
        },
        ImageFormat::Avif | ImageFormat::Heif => {
            let p = with_value(none, "Q"@, q);
            let p = with_value(
                p,
                "compression"@,
                choice(f == ImageFormat::Avif, "av1"@, "hevc"@),
            );
            let p = with_value(p, "effort"@, signed_decimal(clamp(effort - 1, 0, 9)));
            let p = with_value(
                p,
                "subsample-mode"@,
                choice(is_set(o.avif.no_subsample), "off"@, "auto"@),
            );
            let p = with_maybe(p, "page-height"@, ph);
            with_value(p, "keep"@, keep)
        },
    }
}

/// The whole suffix for a requested format, or `None` when the name spells
/// no format this library can encode.
pub open spec fn save_suffix_text(format: Seq<char>, quality: u8, o: SaveOptionsView, page_height: Option<
    i32,
>) -> Option<Seq<char>> {
    match format_of(format) {
        Some(f) => Some(suffix_text(suffix_extension(f), suffix_parts(f, quality, o, page_height))),
        None => None,
    }
}

proof fn lemma_push_contains(s: Seq<Seq<char>>, x: Seq<char>, y: Seq<char>)
    ensures
        s.push(x).contains(y) == (s.contains(y) || x == y),
{
    if s.contains(y) {
        let i = choose|i: int| 0 <= i < s.len() && s[i] == y;
        assert(s.push(x)[i] == y);
    }
    if x == y {
        assert(s.push(x)[s.len() as int] == y);
    }
    if s.push(x).contains(y) {
        let i = choose|i: int| 0 <= i < s.push(x).len() && s.push(x)[i] == y;
        if i < s.len() {
            assert(s[i] == y);
        }
    }
}

/// A JPEG is encoded progressively (libvips' `interlace`) exactly when the
/// request asked for a progressive JPEG, whatever its other JPEG options: the
/// suffix for a name that spells JPEG is `.jpg[...]`, and its parts hold the
/// `interlace` flag exactly when `progressive` is set.
pub proof fn lemma_progressive_jpeg_interlaces(
    format: Seq<char>,
    quality: u8,
    o: SaveOptionsView,
    page_height: Option<i32>,
)
    requires
        format_of(format) == Some(ImageFormat::Jpeg),
    ensures
        save_suffix_text(format, quality, o, page_height) == Some(
            suffix_text("jpg"@, suffix_parts(ImageFormat::Jpeg, quality, o, page_height)),
        ),
        suffix_parts(ImageFormat::Jpeg, quality, o, page_height).contains("interlace"@) <==> o.jpeg.progressive
            == Some(true),
{
    reveal_strlit("interlace");
    reveal_strlit("Q");
    reveal_strlit("optimize-coding");
    reveal_strlit("trellis-quant");
    reveal_strlit("overshoot-deringing");
    reveal_strlit("optimize-scans");
    reveal_strlit("quant-table");
    reveal_strlit("subsample-mode");
    reveal_strlit("keep");
    let q = signed_decimal(encoder_quality(quality));
    let keep = keep_text(o);
    let i = "interlace"@;
    let p0 = with_value(Seq::<Seq<char>>::empty(), "Q"@, q);
    let p1 = with_flag(p0, "optimize-coding"@, true);
    let p2 = with_flag(p1, i, is_set(o.jpeg.progressive));
    let p3 = with_flag(p2, "trellis-quant"@, is_set(o.jpeg.trellis_quant));
    let p4 = with_flag(p3, "overshoot-deringing"@, is_set(o.jpeg.overshoot_deringing));
    let p5 = with_flag(p4, "optimize-scans"@, is_set(o.jpeg.optimize_scans));
    let table = match o.jpeg.quant_table {
        Some(t) => clamp(t as int, 0, 8),
        None => 0,
    };
    let p6 = with_value(p5, "quant-table"@, signed_decimal(table));
    let p7 = with_value(p6, "subsample-mode"@, choice(is_set(o.jpeg.no_subsample), "off"@, "auto"@));
    let p8 = with_value(p7, "keep"@, keep);
    assert(suffix_parts(ImageFormat::Jpeg, quality, o, page_height) == p8);
    assert(i.len() == 9 && i[0] == 'i' && i[1] == 'n');
    assert(("Q"@ + seq!['='] + q)[1] == '=');
    assert(("quant-table"@ + seq!['='] + signed_decimal(table))[0] == 'q');
    assert(("subsample-mode"@ + seq!['='] + choice(is_set(o.jpeg.no_subsample), "off"@, "auto"@))[0] == 's');
    assert(("keep"@ + seq!['='] + keep)[0] == 'k');
    assert("optimize-coding"@.len() == 15 && "trellis-quant"@.len() == 13);
    assert("overshoot-deringing"@.len() == 19 && "optimize-scans"@.len() == 14);
    assert(!Seq::<Seq<char>>::empty().contains(i));
    lemma_push_contains(Seq::<Seq<char>>::empty(), "Q"@ + seq!['='] + q, i);
    lemma_push_contains(p0, "optimize-coding"@, i);
    lemma_push_contains(p1, i, i);
    lemma_push_contains(p2, "trellis-quant"@, i);
    lemma_push_contains(p3, "overshoot-deringing"@, i);
    lemma_push_contains(p4, "optimize-scans"@, i);
    lemma_push_contains(p5, "quant-table"@ + seq!['='] + signed_decimal(table), i);
    lemma_push_contains(p6, "subsample-mode"@ + seq!['='] + choice(is_set(o.jpeg.no_subsample), "off"@, "auto"@), i);
    lemma_push_contains(p7, "keep"@ + seq!['='] + keep, i);
}

fn clamp_i64(v: i64, lo: i64, hi: i64) -> (r: i64)
    requires
        lo <= hi,
    ensures
        r == clamp(v as int, lo as int, hi as int),
{
    if v < lo {
        lo
    } else if v > hi {
        hi
    } else {
        v
    }
}

/// Builds the encoder suffix for one format.
pub fn save_suffix(format: &str, quality: u8, options: &SaveOptions, page_height: Option<i32>) -> (r: Result<
    String,
    SaveError,
>)
    ensures
        match save_suffix_text(format@, quality, options@, page_height) {
            Some(s) => r matches Ok(x) && x@ == s,
            None => r matches Err(SaveError::UnsupportedFormat { format: f }) && f@ == format@,
        },
{
    let f = match canonical_format(format) {
        Some(f) => f,
        None => {
            return Err(SaveError::UnsupportedFormat { format: format.to_owned() });
        },
    };
    let q = clamp_i64(quality as i64, 1, 100);
    let effort = clamp_i64(q / 10, 1, 10);
    let keep = metadata_keep(options);
    let ph = match page_height {
        Some(h) => if h > 0 && f.supports_animation() {
            Some(h)
        } else {
            None
        },
        None => None,
    };
    let ghost o = options@;
    let suffix = match f {
        ImageFormat::Jpeg => {
            let table = match options.jpeg.quant_table {
                Some(t) => clamp_i64(t as i64, 0, 8),
                None => 0,
            };
            Suffix::new("jpg").number("Q", q).flag("optimize-coding", true).flag(
                "interlace",
                options.jpeg.progressive.unwrap_or(false),
            ).flag("trellis-quant", options.jpeg.trellis_quant.unwrap_or(false)).flag(
                "overshoot-deringing",
                options.jpeg.overshoot_deringing.unwrap_or(false),
            ).flag("optimize-scans", options.jpeg.optimize_scans.unwrap_or(false)).number(
                "quant-table",
                table,
            ).text(
                "subsample-mode",
                if options.jpeg.no_subsample.unwrap_or(false) {
                    "off"
                } else {
                    "auto"
                },
            ).text("keep", keep.as_str())
        },
        ImageFormat::Png => {
            let colors: i64 = match options.png.quantization_colors {
                Some(c) => if c > 256 {
                    256
                } else {
                    c as i64
                },
                None => 100,
            };
            Suffix::new("png").flag("interlace", options.png.interlaced.unwrap_or(false)).flag(
                "palette",
                options.png.quantize.unwrap_or(false),
            ).number("Q", colors).number("effort", effort).text("keep", keep.as_str())
        },
        ImageFormat::Webp => {
            let preset = match &options.webp.preset {
                Some(p) => webp_preset_nickname(p.as_str()),
                None => None,
            };
            Suffix::new("webp").number("Q", q).flag(
                "lossless",
                options.webp.lossless.unwrap_or(false),
            ).flag("smart-subsample", options.webp.smart_subsample.unwrap_or(false)).maybe_text(
                "preset",
                preset,
            ).maybe_number("page-height", ph).text("keep", keep.as_str())
        },
        ImageFormat::Tiff => {
            Suffix::new("tif").number("Q", q).text(
                "compression",
                if q == 100 {
                    "lzw"
                } else {
                    "jpeg"
                },
            ).text("keep", keep.as_str())
        },
        ImageFormat::Gif => {
            Suffix::new("gif").number("effort", effort).maybe_number("page-height", ph).text(
                "keep",
                keep.as_str(),
            )
        },
        ImageFormat::Avif | ImageFormat::Heif => {
            let is_avif = matches!(f, ImageFormat::Avif);
            let extension = if is_avif {
                "avif"
            } else {
                "heif"
            };
            Suffix::new(extension).number("Q", q).text(
                "compression",
                if is_avif {
                    "av1"
                } else {
                    "hevc"
                },
            ).number("effort", clamp_i64(effort - 1, 0, 9)).text(
                "subsample-mode",
                if options.avif.no_subsample.unwrap_or(false) {
                    "off"
                } else {
                    "auto"
                },
            ).maybe_number("page-height", ph).text("keep", keep.as_str())
        },
    };
    proof {
        reveal_strlit("jpg");
        reveal_strlit("tif");
    }
    assert(suffix.extension@ == suffix_extension(f));
    assert(views(suffix.parts@) == suffix_parts(f, quality, o, page_height));
    Ok(suffix.build())
}

/// The quality an encode under a byte budget starts from.
pub fn max_bytes_start_quality(quality: u8) -> (r: u8)
    ensures
        r == encoder_quality(quality),
{
    if quality < 1 {
        1
    } else if quality > 100 {
        100
    } else {
        quality
    }
}

/// After an encode at `quality` produced `encoded_len` bytes against a budget
/// of `max_bytes`, the quality to try next: `None` when the result fits or the
/// quality cannot go lower, otherwise five less, never below 1.
pub fn max_bytes_next_quality(quality: u8, encoded_len: usize, max_bytes: usize) -> (r: Option<u8>)
    ensures
        r == (if encoded_len <= max_bytes || quality <= 1 {
            None
        } else if quality <= 6 {
            Some(1u8)
        } else {
            Some((quality - 5) as u8)
        }),
{
    if encoded_len <= max_bytes || quality <= 1 {
        None
    } else if quality <= 6 {
        Some(1)
    } else {
        Some(quality - 5)
    }
}

/// The `'static` name matching a runtime format name, for error values; a name
/// that is not canonical gets the generic label `image`.
pub fn static_label(name: &str) -> (r: &'static str)
    ensures
        r@ == match format_named(name@) {
            Some(f) => if format_name(f) == name@ {
                format_name(f)
            } else {
                "image"@
            },
            None => "image"@,
        },
{
    let v = chars_of(name);
    match format_named_chars(v.as_slice()) {
        Some(f) => {
            let n = f.name();
            let w = chars_of(n);
            if crate::text::chars_eq(w.as_slice(), v.as_slice()) {
                n
            } else {
                "image"
            }
        },
        None => "image",
    }
}

} // verus!
