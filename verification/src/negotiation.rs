//! Choosing what to send based on what the client said it can take.
//!
//! Format negotiation reads `Accept` and upgrades the output to WebP or AVIF
//! when the client advertises it. Client hints read `Width` and `DPR`, letting
//! the browser rather than the URL decide how large the image needs to be.
//! Weights and ratios are exact decimals held in billionths.

use crate::config::settings::Config;
use crate::config::{default_format_name, DefaultOutputFormat};
use crate::limits::MaxResultDimension;
use crate::numbers::{parse_decimal, parse_fixed, parse_uint, parse_unsigned, Fixed, NANOS};
use crate::processing::options::apply::{ParsedOptions, ParsedOptionsView};
use crate::processing::options::geometry::{Resize, ResizingType};
use crate::text::{
    ascii_lower, chars_eq, chars_of, lower_char, slice_chars, split_char, split_chars,
    to_ascii_lower, trim, trim_chars, views,
};
use vstd::prelude::*;

verus! {

/// One, in billionths: the weight of an offer that names none.
pub const FULL_WEIGHT: i64 = 1_000_000_000;

/// Largest width a client hint may ask for when no result ceiling is set.
pub const MAX_HINTED_WIDTH: u32 = 16_384;

/// What the request told us about the client.
#[derive(Debug, Clone)]
pub struct RequestHints {
    /// The raw `Accept` header, used for format negotiation.
    pub accept: Option<String>,
    /// Device pixel ratio the client reported.
    pub dpr: Option<Fixed>,
    /// Layout width the client reported.
    pub width: Option<u32>,
}

impl Default for RequestHints {
    fn default() -> (r: Self)
        ensures
            r.accept is None,
            r.dpr is None,
            r.width is None,
    {
        RequestHints { accept: None, dpr: None, width: None }
    }
}

/// The characters of an optional header value.
pub open spec fn header_view(v: Option<&str>) -> Option<Seq<char>> {
    match v {
        Some(s) => Some(s@),
        None => None,
    }
}

/// The first of two spellings of a header that the request carries.
pub open spec fn first_present(a: Option<Seq<char>>, b: Option<Seq<char>>) -> Option<Seq<char>> {
    match a {
        Some(x) => Some(x),
        None => b,
    }
}

/// A device pixel ratio read from a header: a positive decimal, surrounding
/// whitespace ignored.
pub open spec fn dpr_from(v: Option<Seq<char>>) -> Option<int> {
    match v {
        Some(t) => match parse_decimal(trim(t)) {
            Some(n) => if n > 0 {
                Some(n)
            } else {
                None
            },
            None => None,
        },
        None => None,
    }
}

/// A width read from a header: a positive `u32`, surrounding whitespace ignored.
pub open spec fn width_from(v: Option<Seq<char>>) -> Option<nat> {
    match v {
        Some(t) => match parse_unsigned(trim(t), u32::MAX as nat) {
            Some(n) => if n > 0 {
                Some(n)
            } else {
                None
            },
            None => None,
        },
        None => None,
    }
}

/// Whether a trimmed media-range parameter is the weight, `q=` in any case.
pub open spec fn is_weight_param(p: Seq<char>) -> bool {
    p.len() >= 2 && ascii_lower(p.take(2)) == seq!['q', '=']
}

/// The weight the parameters from index `i` on attach: the first `q=`
/// parameter's value, or one when that value is not a decimal or there is none.
pub open spec fn weight_from(params: Seq<Seq<char>>, i: int) -> int
    decreases params.len() - i,
{
    if i >= params.len() || i < 0 {
        FULL_WEIGHT as int
    } else if is_weight_param(params[i]) {
        match parse_decimal(params[i].skip(2)) {
            Some(q) => q,
            None => FULL_WEIGHT as int,
        }
    } else {
        weight_from(params, i + 1)
    }
}

/// Every piece trimmed.
pub open spec fn trimmed(parts: Seq<Seq<char>>) -> Seq<Seq<char>> {
    parts.map_values(|p: Seq<char>| trim(p))
}

/// The weight one media range gives `media`, or `None` when it names
/// another type. Type names compare without regard to ASCII case.
pub open spec fn range_weight(range: Seq<char>, media: Seq<char>) -> Option<int> {
    let parts = trimmed(split_char(range, ';'));
    if parts.len() > 0 && ascii_lower(parts[0]) == ascii_lower(media) {
        Some(weight_from(parts, 1))
    } else {
        None
    }
}

/// The strongest weight any of the ranges gives `media`.
pub open spec fn best_weight(ranges: Seq<Seq<char>>, media: Seq<char>) -> Option<int>
    decreases ranges.len(),
{
    if ranges.len() == 0 {
        None
    } else {
        let prev = best_weight(ranges.drop_last(), media);
        match range_weight(ranges.last(), media) {
            None => prev,
            Some(q) => Some(
                match prev {
                    Some(b) => if q > b {
                        q
                    } else {
                        b
                    },
                    None => q,
                },
            ),
        }
    }
}

/// How strongly an `Accept` header offers `media`: `None` when it is not
/// offered at all or only with a weight of zero or less.
pub open spec fn offered_weight(accept: Option<Seq<char>>, media: Seq<char>) -> Option<int> {
    match accept {
        None => None,
        Some(a) => match best_weight(split_char(a, ','), media) {
            Some(q) => if q > 0 {
                Some(q)
            } else {
                None
            },
            None => None,
        },
    }
}

impl RequestHints {
    /// Reads the hints a request carries, given the values of its `Accept`,
    /// `Sec-CH-DPR`, `DPR`, `Sec-CH-Width` and `Width` headers.
    ///
    /// Client hints are only read when the server opted in. The `Sec-CH-`
    /// spelling is read before the bare one, and a value that does not parse
    /// is no hint at all.
    pub fn from_headers(
        accept: Option<&str>,
        sec_ch_dpr: Option<&str>,
        dpr: Option<&str>,
        sec_ch_width: Option<&str>,
        width: Option<&str>,
        enable_client_hints: bool,
    ) -> (r: Self)
        ensures
            match accept {
                Some(a) => r.accept matches Some(s) && s@ == a@,
                None => r.accept is None,
            },
            !enable_client_hints ==> r.dpr is None && r.width is None,
            enable_client_hints ==> match dpr_from(
                first_present(header_view(sec_ch_dpr), header_view(dpr)),
            ) {
                Some(n) => r.dpr matches Some(f) && f.nanos == n,
                None => r.dpr is None,
            },
            enable_client_hints ==> match width_from(
                first_present(header_view(sec_ch_width), header_view(width)),
            ) {
                Some(n) => r.width == Some(n as u32),
                None => r.width is None,
            },
    {
        let accept = match accept {
            Some(a) => Some(a.to_string()),
            None => None,
        };
        if !enable_client_hints {
            return RequestHints { accept, dpr: None, width: None };
        }
        let dpr_text = match sec_ch_dpr {
            Some(v) => Some(v),
            None => dpr,
        };
        let dpr = match dpr_text {
            Some(v) => {
                let t = trim_chars(chars_of(v).as_slice());
                match parse_fixed(t.as_slice()) {
                    Some(f) => if f.nanos > 0 {
                        Some(f)
                    } else {
                        None
                    },
                    None => None,
                }
            },
            None => None,
        };
        let width_text = match sec_ch_width {
            Some(v) => Some(v),
            None => width,
        };
        let width = match width_text {
            Some(v) => {
                let t = trim_chars(chars_of(v).as_slice());
                match parse_uint(t.as_slice(), 4_294_967_295) {
                    Some(n) => if n > 0 {
                        Some(n as u32)
                    } else {
                        None
                    },
                    None => None,
                }
            },
            None => None,
        };
        RequestHints { accept, dpr, width }
    }

    /// How strongly the `Accept` header advertises a media type.
    ///
    /// `None` means the type is not offered at all, which includes an explicit
    /// `q=0` refusal. Otherwise the strongest weight the client attached to it,
    /// one when it named none.
    pub fn quality_for(&self, media_type: &str) -> (r: Option<Fixed>)
        ensures
            match offered_weight(opt_string_view(self.accept), media_type@) {
                Some(q) => r matches Some(f) && f.nanos == q,
                None => r is None,
            },
    {
        let accept = match &self.accept {
            Some(a) => a,
            None => {
                return None;
            },
        };
        let media = to_ascii_lower(chars_of(media_type).as_slice());
        let ranges = split_chars(chars_of(accept.as_str()).as_slice(), ',');
        let ghost all = views(ranges@);
        let mut best: Option<i64> = None;
        let mut i: usize = 0;
        while i < ranges.len()
            invariant
                i <= ranges@.len(),
                all == views(ranges@),
                all.len() == ranges@.len(),
                media@ == ascii_lower(media_type@),
                match best_weight(all.take(i as int), media_type@) {
                    Some(q) => best matches Some(b) && b == q,
                    None => best is None,
                },
            decreases ranges@.len() - i,
        {
            let w = range_weight_of(ranges[i].as_slice(), media.as_slice(), Ghost(media_type@));
            proof {
                assert(all.take(i + 1).drop_last() =~= all.take(i as int));
                assert(all.take(i + 1).last() == ranges@[i as int]@);
            }
            match w {
                Some(q) => {
                    best = match best {
                        Some(b) => if q.nanos > b {
                            Some(q.nanos)
                        } else {
                            Some(b)
                        },
                        None => Some(q.nanos),
                    };
                },
                None => {},
            }
            i = i + 1;
        }
        assert(all.take(all.len() as int) =~= all);
        match best {
            Some(q) => if q > 0 {
                Some(Fixed { nanos: q })
            } else {
                None
            },
            None => None,
        }
    }
}

/// The characters of an optional owned string.
pub open spec fn opt_string_view(s: Option<String>) -> Option<Seq<char>> {
    match s {
        Some(t) => Some(t@),
        None => None,
    }
}

/// The weight one media range gives a media type whose ASCII-lowercase
/// characters are `media`.
fn range_weight_of(range: &[char], media: &[char], Ghost(media_type): Ghost<Seq<char>>) -> (r: Option<
    Fixed,
>)
    requires
        media@ == ascii_lower(media_type),
    ensures
        match range_weight(range@, media_type) {
            Some(q) => r matches Some(f) && f.nanos == q,
            None => r is None,
        },
{
    let parts = split_chars(range, ';');
    let ghost tp = trimmed(views(parts@));
    proof {
        lemma_split_nonempty(range@, ';');
    }
    let name = trim_chars(parts[0].as_slice());
    assert(tp[0] == name@);
    let lowered = to_ascii_lower(name.as_slice());
    if !chars_eq(lowered.as_slice(), media) {
        return None;
    }
    assert(range_weight(range@, media_type) == Some(weight_from(tp, 1)));
    let mut j: usize = 1;
    while j < parts.len()
        invariant
            1 <= j <= parts@.len(),
            tp == trimmed(views(parts@)),
            tp.len() == parts@.len(),
            weight_from(tp, 1) == weight_from(tp, j as int),
            range_weight(range@, media_type) == Some(weight_from(tp, 1)),
        decreases parts@.len() - j,
    {
        let p = trim_chars(parts[j].as_slice());
        assert(p@ == tp[j as int]);
        if p.len() >= 2 && (p[0] == 'q' || p[0] == 'Q') && p[1] == '=' {
            proof {
                assert(ascii_lower(p@.take(2)) =~= seq!['q', '=']);
            }
            let rest = slice_chars(p.as_slice(), 2, p.len());
            assert(rest@ =~= p@.skip(2));
            assert(is_weight_param(tp[j as int]));
            assert(weight_from(tp, j as int) == match parse_decimal(rest@) {
                Some(q) => q,
                None => FULL_WEIGHT as int,
            });
            return match parse_fixed(rest.as_slice()) {
                Some(q) => Some(q),
                None => Some(Fixed { nanos: FULL_WEIGHT }),
            };
        }
        proof {
            if p@.len() >= 2 {
                let l = ascii_lower(p@.take(2));
                if l == seq!['q', '='] {
                    assert(l[0] == lower_char(p@[0]));
                    assert(l[1] == lower_char(p@[1]));
                }
            }
        }
        j = j + 1;
    }
    Some(Fixed { nanos: FULL_WEIGHT })
}

proof fn lemma_split_nonempty(s: Seq<char>, c: char)
    ensures
        split_char(s, c).len() >= 1,
{
    reveal_with_fuel(split_char, 2);
}

/// The weight and whether a negotiable format may be offered at all.
pub open spec fn candidate(detect: bool, enforce: bool, explicit: bool, encodable: bool, weight: Option<
    int,
>) -> Option<int> {
    if (!detect && !enforce) || (explicit && !enforce) || !encodable {
        None
    } else {
        weight
    }
}

/// The format negotiation picks: the more strongly offered of AVIF and WebP,
/// AVIF on a tie.
pub open spec fn negotiated(
    cfg: Config,
    accept: Option<Seq<char>>,
    explicit: bool,
    avif_encodable: bool,
    webp_encodable: bool,
) -> Option<Seq<char>> {
    let avif = candidate(
        cfg.enable_avif_detection,
        cfg.enforce_avif,
        explicit,
        avif_encodable,
        offered_weight(accept, "image/avif"@),
    );
    let webp = candidate(
        cfg.enable_webp_detection,
        cfg.enforce_webp,
        explicit,
        webp_encodable,
        offered_weight(accept, "image/webp"@),
    );
    match (avif, webp) {
        (Some(a), Some(w)) => if w > a {
            Some("webp"@)
        } else {
            Some("avif"@)
        },
        (Some(_), None) => Some("avif"@),
        (None, Some(_)) => Some("webp"@),
        (None, None) => None,
    }
}

/// The format a request is encoded to: a negotiated format replaces whatever
/// was asked for; otherwise a format named in the URL stands, and without one
/// the configured default applies when it fixes a format.
pub open spec fn chosen_format(
    asked: Option<Seq<char>>,
    negotiated: Option<Seq<char>>,
    default_format: DefaultOutputFormat,
) -> Option<Seq<char>> {
    match negotiated {
        Some(f) => Some(f),
        None => match asked {
            Some(a) => Some(a),
            None => match default_format {
                DefaultOutputFormat::Source => None,
                f => Some(default_format_name(f)),
            },
        },
    }
}

/// Settles the request's output format from what negotiation picked and the
/// configured default, as [`chosen_format`] says; nothing else changes.
pub fn choose_output_format(
    parsed: &mut ParsedOptions,
    negotiated: Option<&str>,
    default_format: DefaultOutputFormat,
)
    ensures
        final(parsed)@ == (ParsedOptionsView {
            format: chosen_format(
                old(parsed)@.format,
                match negotiated {
                    Some(n) => Some(n@),
                    None => None,
                },
                default_format,
            ),
            ..old(parsed)@
        }),
{
    match negotiated {
        Some(f) => {
            parsed.format = Some(f.to_owned());
        },
        None => {
            if parsed.format.is_none() {
                match default_format.fixed_format() {
                    Some(f) => {
                        parsed.format = Some(f.to_owned());
                    },
                    None => {},
                }
            }
        },
    }
}

/// Picks the output format for a request, or `None` to leave it alone.
///
/// A format named in the URL normally wins, but `enforce` overrides even that.
/// Only a format the image library can encode is offered: whether it can is
/// told by `avif_encodable` and `webp_encodable`.
pub fn negotiate_format(
    config: &Config,
    hints: &RequestHints,
    has_explicit_format: bool,
    avif_encodable: bool,
    webp_encodable: bool,
) -> (r: Option<&'static str>)
    ensures
        match negotiated(
            *config,
            opt_string_view(hints.accept),
            has_explicit_format,
            avif_encodable,
            webp_encodable,
        ) {
            Some(f) => r matches Some(s) && s@ == f,
            None => r is None,
        },
{
    let avif_q = if (!config.enable_avif_detection && !config.enforce_avif) || (has_explicit_format
        && !config.enforce_avif) || !avif_encodable {
        None
    } else {
        hints.quality_for("image/avif")
    };
    let webp_q = if (!config.enable_webp_detection && !config.enforce_webp) || (has_explicit_format
        && !config.enforce_webp) || !webp_encodable {
        None
    } else {
        hints.quality_for("image/webp")
    };
    match (avif_q, webp_q) {
        (Some(a), Some(w)) => if w.nanos > a.nanos {
            Some("webp")
        } else {
            Some("avif")
        },
        (Some(_), None) => Some("avif"),
        (None, Some(_)) => Some("webp"),
        (None, None) => None,
    }
}

/// The request headers a response can differ by, for `Vary`.
pub open spec fn vary_list(cfg: Config) -> Seq<Seq<char>> {
    (if cfg.enable_webp_detection || cfg.enforce_webp || cfg.enable_avif_detection
        || cfg.enforce_avif {
        seq!["Accept"@]
    } else {
        Seq::empty()
    }) + (if cfg.enable_client_hints {
        seq!["Sec-CH-Width"@, "Width"@, "Sec-CH-DPR"@, "DPR"@]
    } else {
        Seq::empty()
    })
}

/// The request headers a response can differ by, for `Vary`.
pub fn vary_headers(config: &Config) -> (r: Vec<&'static str>)
    ensures
        r@.map_values(|s: &'static str| s@) == vary_list(*config),
{
    let mut headers: Vec<&'static str> = Vec::new();
    if config.enable_webp_detection || config.enforce_webp || config.enable_avif_detection
        || config.enforce_avif {
        headers.push("Accept");
    }
    if config.enable_client_hints {
        headers.push("Sec-CH-Width");
        headers.push("Width");
        headers.push("Sec-CH-DPR");
        headers.push("DPR");
    }
    assert(headers@.map_values(|s: &'static str| s@) =~= vary_list(*config));
    headers
}

/// A reported pixel ratio, brought into 1 to 5.
pub open spec fn clamp_ratio(d: Fixed) -> Fixed {
    if d.nanos < NANOS {
        Fixed { nanos: NANOS }
    } else if d.nanos > 5 * NANOS {
        Fixed { nanos: (5 * NANOS) as i64 }
    } else {
        d
    }
}

/// The ceiling on a hinted width: the result ceiling when one is in force,
/// and never more than [`MAX_HINTED_WIDTH`].
pub open spec fn hint_cap(limit: Option<nat>) -> nat {
    match limit {
        Some(l) => if l < MAX_HINTED_WIDTH {
            l
        } else {
            MAX_HINTED_WIDTH as nat
        },
        None => MAX_HINTED_WIDTH as nat,
    }
}

/// `width / ratio`, rounded half up, and at least one.
pub open spec fn shrink_by(width: nat, ratio_nanos: int) -> nat {
    let q = (2 * width * NANOS + ratio_nanos) / (2 * ratio_nanos);
    if q < 1 {
        1
    } else {
        q as nat
    }
}

/// The width a hint asks for, in the units the resize target is kept in: the
/// hint is in physical pixels, and the client's own ratio is divided out of it.
pub open spec fn hinted_width(width: nat, limit: Option<nat>, ratio: Option<Fixed>) -> nat {
    let capped = if width < hint_cap(limit) {
        width
    } else {
        hint_cap(limit)
    };
    let d: int = match ratio {
        Some(x) => clamp_ratio(x).nanos as int,
        None => NANOS as int,
    };
    if d > NANOS {
        shrink_by(capped, d)
    } else {
        capped
    }
}

/// Parsed options after a reported pixel ratio is folded in: it fills a
/// `dpr` the URL left open.
pub open spec fn ratio_hinted(o: ParsedOptionsView, dpr: Option<Fixed>) -> ParsedOptionsView {
    match dpr {
        Some(d) => if o.dpr is None {
            ParsedOptionsView { dpr: Some(clamp_ratio(d)), ..o }
        } else {
            o
        },
        None => o,
    }
}

/// Parsed options after a width of `w` is folded in: it fills a resize whose
/// width is zero, or makes a fit to that width when there is no resize.
pub open spec fn width_hinted(o: ParsedOptionsView, w: u32) -> ParsedOptionsView {
    match o.resize {
        Some(r) => if r.width == 0 {
            ParsedOptionsView { resize: Some(Resize { width: w, ..r }), ..o }
        } else {
            o
        },
        None => ParsedOptionsView {
            width: Some(w),
            resize: Some(Resize { resizing_type: ResizingType::Fit, width: w, height: 0 }),
            ..o
        },
    }
}

/// Parsed options after the client's hints are folded in.
pub open spec fn client_hinted(o: ParsedOptionsView, dpr: Option<Fixed>, width: Option<u32>) -> ParsedOptionsView {
    match width {
        None => ratio_hinted(o, dpr),
        Some(w) => width_hinted(
            ratio_hinted(o, dpr),
            hinted_width(w as nat, o.max_result_dimension, dpr) as u32,
        ),
    }
}

fn clamp_ratio_exec(d: Fixed) -> (r: Fixed)
    ensures
        r == clamp_ratio(d),
{
    if d.nanos < NANOS {
        Fixed { nanos: NANOS }
    } else if d.nanos > 5 * NANOS {
        Fixed { nanos: 5 * NANOS }
    } else {
        d
    }
}

fn apply_ratio_hint(options: &mut ParsedOptions, dpr: Option<Fixed>)
    ensures
        final(options)@ == ratio_hinted(old(options)@, dpr),
{
    match dpr {
        Some(d) => {
            if options.dpr.is_none() {
                options.dpr = Some(clamp_ratio_exec(d));
            }
        },
        None => {},
    }
}

fn apply_width_hint(options: &mut ParsedOptions, w: u32)
    ensures
        final(options)@ == width_hinted(old(options)@, w),
{
    match options.resize {
        Some(r) => {
            if r.width == 0 {
                options.resize = Some(Resize { width: w, ..r });
            }
        },
        None => {
            options.width = Some(w);
            options.resize = Some(Resize { resizing_type: ResizingType::Fit, width: w, height: 0 });
        },
    }
}

/// The width a hint asks for, as [`hinted_width`] says.
fn hinted_width_exec(width: u32, limit: Option<MaxResultDimension>, dpr: Option<Fixed>) -> (r: u32)
    ensures
        r == hinted_width(
            width as nat,
            match limit {
                Some(l) => Some(l.spec_get()),
                None => None,
            },
            dpr,
        ),
{
    let cap: u32 = match limit {
        Some(limit) => {
            let l = limit.get();
            if l < MAX_HINTED_WIDTH {
                l
            } else {
                MAX_HINTED_WIDTH
            }
        },
        None => MAX_HINTED_WIDTH,
    };
    let capped = if width < cap {
        width
    } else {
        cap
    };
    let ratio: i64 = match dpr {
        Some(d) => clamp_ratio_exec(d).nanos,
        None => NANOS,
    };
    if ratio > NANOS {
        let num: u64 = 2 * (capped as u64) * 1_000_000_000 + ratio as u64;
        let den: u64 = 2 * (ratio as u64);
        let q: u64 = num / den;
        proof {
            assert(q * den <= num) by (nonlinear_arith)
                requires
                    q == num / den,
                    den > 0,
            ;
            assert(q <= capped as int) by (nonlinear_arith)
                requires
                    q * den <= num,
                    num == 2 * capped * 1_000_000_000 + den / 2,
                    den > 2_000_000_000,
            ;
        }
        if q < 1 {
            1
        } else {
            q as u32
        }
    } else {
        capped
    }
}

/// Folds the client's own size hints into the processing options.
///
/// The URL still wins: a `dpr` it names stays, and so does a width it names.
/// A hint fills a resize whose width the URL left at zero, or makes a fit to
/// that width when the URL named no resize.
pub fn apply_client_hints(options: &mut ParsedOptions, hints: &RequestHints)
    ensures
        final(options)@ == client_hinted(old(options)@, hints.dpr, hints.width),
{
    let limit = options.max_result_dimension;
    apply_ratio_hint(options, hints.dpr);
    match hints.width {
        Some(w) => {
            let w2 = hinted_width_exec(w, limit, hints.dpr);
            apply_width_hint(options, w2);
        },
        None => {},
    }
}

/// Negotiation only upgrades to a format the deployment turned on, this
/// build can encode and the client offers with a positive weight; a format
/// named in the URL stands unless enforcement overrides it.
pub proof fn lemma_negotiation_serves_only_what_is_offered(
    cfg: Config,
    accept: Option<Seq<char>>,
    explicit: bool,
    avif_encodable: bool,
    webp_encodable: bool,
)
    ensures
        negotiated(cfg, accept, explicit, avif_encodable, webp_encodable) == Some("webp"@) ==> {
            &&& cfg.enable_webp_detection || cfg.enforce_webp
            &&& !explicit || cfg.enforce_webp
            &&& webp_encodable
            &&& offered_weight(accept, "image/webp"@) is Some
        },
        negotiated(cfg, accept, explicit, avif_encodable, webp_encodable) == Some("avif"@) ==> {
            &&& cfg.enable_avif_detection || cfg.enforce_avif
            &&& !explicit || cfg.enforce_avif
            &&& avif_encodable
            &&& offered_weight(accept, "image/avif"@) is Some
        },
        explicit && !cfg.enforce_avif && !cfg.enforce_webp ==> negotiated(
            cfg,
            accept,
            explicit,
            avif_encodable,
            webp_encodable,
        ) is None,
{
    reveal_strlit("webp");
    reveal_strlit("avif");
    assert("webp"@ != "avif"@) by {
        assert("webp"@[0] != "avif"@[0]);
    }
}

/// Client hints never override the URL: a ratio the URL names stays, and so
/// does a resize to a width the URL names.
pub proof fn lemma_hints_never_override_the_url(o: ParsedOptionsView, dpr: Option<Fixed>, width: Option<u32>)
    ensures
        o.dpr is Some ==> client_hinted(o, dpr, width).dpr == o.dpr,
        (o.resize matches Some(r) && r.width != 0) ==> client_hinted(o, dpr, width).resize
            == o.resize,
{
}

/// A hinted width is at least one pixel and never more than the cap: the
/// result ceiling when one is in force, and [`MAX_HINTED_WIDTH`] at most.
pub proof fn lemma_hinted_width_is_bounded(width: nat, limit: Option<nat>, ratio: Option<Fixed>)
    requires
        width >= 1,
        limit matches Some(l) ==> l >= 1,
    ensures
        1 <= hinted_width(width, limit, ratio) <= hint_cap(limit),
{
    let c = if width < hint_cap(limit) {
        width
    } else {
        hint_cap(limit)
    };
    let d: int = match ratio {
        Some(x) => clamp_ratio(x).nanos as int,
        None => NANOS as int,
    };
    if d > NANOS {
        let q = (2 * c * NANOS + d) / (2 * d);
        assert(q <= c) by (nonlinear_arith)
            requires
                q == (2 * c * 1_000_000_000 + d) / (2 * d),
                d > 1_000_000_000,
                c >= 1,
        ;
    }
}

} // verus!
