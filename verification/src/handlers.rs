//! What a response to a processed image says, decided from plain values.
//!
//! The headers carrying these values, and the request headers the conditional
//! checks read, are handled by the server around this.

use crate::text::{
    append_chars, chars_of, find_char, occurrence, starts_with, string_of, trim_char_start,
};
use vstd::prelude::*;

verus! {

/// The debug headers and the sizes they report, in the order they are sent.
pub open spec fn debug_entries(
    origin_bytes: u64,
    origin_width: u32,
    origin_height: u32,
    result_width: u32,
    result_height: u32,
) -> Seq<(Seq<char>, u64)> {
    seq![
        ("x-origin-content-length"@, origin_bytes),
        ("x-origin-width"@, origin_width as u64),
        ("x-origin-height"@, origin_height as u64),
        ("x-result-width"@, result_width as u64),
        ("x-result-height"@, result_height as u64),
    ]
}

/// The entries whose size was measured; a zero is "not measured".
pub open spec fn measured(entries: Seq<(Seq<char>, u64)>) -> Seq<(Seq<char>, u64)>
    decreases entries.len(),
{
    if entries.len() == 0 {
        entries
    } else {
        let prev = measured(entries.drop_last());
        if entries.last().1 != 0 {
            prev.push(entries.last())
        } else {
            prev
        }
    }
}

/// A header name and value as characters and a number.
pub open spec fn entry_view(e: (&'static str, u64)) -> (Seq<char>, u64) {
    (e.0@, e.1)
}

/// Header names and values as characters and numbers.
pub open spec fn entry_views(s: Seq<(&'static str, u64)>) -> Seq<(Seq<char>, u64)> {
    s.map_values(|e: (&'static str, u64)| entry_view(e))
}

/// The debug headers a response carries, each with the size it reports.
///
/// A cache hit never made the source request, so it knows nothing about the
/// origin: a size that was not measured is left out rather than sent as zero.
pub fn debug_header_values(
    origin_bytes: u64,
    origin_width: u32,
    origin_height: u32,
    result_width: u32,
    result_height: u32,
) -> (r: Vec<(&'static str, u64)>)
    ensures
        entry_views(r@) == measured(
            debug_entries(origin_bytes, origin_width, origin_height, result_width, result_height),
        ),
{
    let all: Vec<(&'static str, u64)> = vec![
        ("x-origin-content-length", origin_bytes),
        ("x-origin-width", origin_width as u64),
        ("x-origin-height", origin_height as u64),
        ("x-result-width", result_width as u64),
        ("x-result-height", result_height as u64),
    ];
    let ghost entries = debug_entries(
        origin_bytes,
        origin_width,
        origin_height,
        result_width,
        result_height,
    );
    assert(forall|k: int| 0 <= k < 5 ==> entry_view(#[trigger] all@[k]) == entries[k]);
    let mut r: Vec<(&'static str, u64)> = Vec::new();
    let mut i: usize = 0;
    while i < all.len()
        invariant
            i <= all@.len(),
            all@.len() == 5,
            forall|k: int| 0 <= k < 5 ==> entry_view(#[trigger] all@[k]) == entries[k],
            entries == debug_entries(
                origin_bytes,
                origin_width,
                origin_height,
                result_width,
                result_height,
            ),
            entry_views(r@) == measured(entries.take(i as int)),
        decreases all@.len() - i,
    {
        let (name, value) = all[i];
        proof {
            assert((name, value) == all@[i as int]);
            assert(entries[i as int] == entry_view(all@[i as int]));
            assert(entries[i as int].1 == value);
            assert(entries.take(i + 1).drop_last() =~= entries.take(i as int));
            assert(entries.take(i + 1).last() == entries[i as int]);
        }
        if value != 0 {
            let ghost before = r@;
            r.push((name, value));
            assert(entry_views(r@) =~= entry_views(before).push(entry_view((name, value))));
            assert(measured(entries.take(i + 1)) == measured(entries.take(i as int)).push(
                entries[i as int],
            ));
        } else {
            assert(measured(entries.take(i + 1)) == measured(entries.take(i as int)));
        }
        i = i + 1;
    }
    assert(entries.take(5) =~= entries);
    r
}

/// Whether a conditional request is answered with "not modified".
///
/// An emitted ETag is checked against `If-None-Match` first. `If-Modified-Since`
/// is only consulted when the request carries no `If-None-Match`, which then
/// takes precedence whether or not an ETag was emitted.
pub open spec fn not_modified_when(
    etag_emitted: bool,
    etag_matches: bool,
    has_if_none_match: bool,
    last_modified_passed: bool,
    modified_since_matches: bool,
) -> bool {
    (etag_emitted && etag_matches) || (!has_if_none_match && last_modified_passed
        && modified_since_matches)
}

/// Whether a conditional request is answered with "not modified", as
/// [`not_modified_when`] says.
pub fn is_not_modified(
    etag_emitted: bool,
    etag_matches: bool,
    has_if_none_match: bool,
    last_modified_passed: bool,
    modified_since_matches: bool,
) -> (r: bool)
    ensures
        r == not_modified_when(
            etag_emitted,
            etag_matches,
            has_if_none_match,
            last_modified_passed,
            modified_since_matches,
        ),
{
    let mut not_modified = false;
    if etag_emitted {
        not_modified = etag_matches;
    }
    if !not_modified && !has_if_none_match && last_modified_passed {
        not_modified = modified_since_matches;
    }
    not_modified
}

/// The body of an error response: the curated message, followed in
/// development-errors mode by a blank line and the underlying cause.
pub fn error_body(message: &str, cause: &str, development_errors_mode: bool) -> (r: String)
    ensures
        development_errors_mode ==> r@ == message@ + seq!['\n', '\n'] + cause@,
        !development_errors_mode ==> r@ == message@,
{
    let mut body = chars_of(message);
    if development_errors_mode {
        body.push('\n');
        body.push('\n');
        let c = chars_of(cause);
        append_chars(&mut body, c.as_slice());
    }
    string_of(body.as_slice())
}

/// Whether a request may be served: when a secret is configured, only with
/// a bearer token equal to it.
pub fn bearer_permitted(secret: Option<&str>, bearer: Option<&str>) -> (r: bool)
    ensures
        r == match secret {
            None => true,
            Some(s) => bearer matches Some(b) && b@ == s@,
        },
{
    match secret {
        None => true,
        Some(s) => match bearer {
            Some(b) => {
                let x = chars_of(s);
                let y = chars_of(b);
                crate::text::chars_eq(x.as_slice(), y.as_slice())
            },
            None => false,
        },
    }
}

/// The token an `Authorization` header value carries under the `Bearer`
/// scheme, the scheme's name matched without regard to ASCII case.
pub open spec fn bearer_of(value: Seq<char>) -> Option<Seq<char>> {
    if value.len() > 7 && crate::text::ascii_lower(value.take(7)) == "bearer "@ {
        Some(value.skip(7))
    } else {
        None
    }
}

/// Reads the token of a `Bearer` authorization, as [`bearer_of`] says.
pub fn bearer_token(authorization: &str) -> (r: Option<String>)
    ensures
        match bearer_of(authorization@) {
            Some(t) => r matches Some(s) && s@ == t,
            None => r is None,
        },
{
    let v = chars_of(authorization);
    if v.len() <= 7 {
        return None;
    }
    let scheme = crate::text::to_ascii_lower(crate::text::slice_chars(v.as_slice(), 0, 7).as_slice());
    let expected = chars_of("bearer ");
    proof {
        assert(v@.subrange(0, 7) =~= v@.take(7));
    }
    if !crate::text::chars_eq(scheme.as_slice(), expected.as_slice()) {
        return None;
    }
    let token = crate::text::slice_chars(v.as_slice(), 7, v.len());
    assert(token@ =~= v@.skip(7));
    Some(string_of(token.as_slice()))
}

/// Why a request path was refused.
#[derive(Debug, Clone, Copy, PartialEq, Eq, Structural)]
pub enum PathError {
    /// No `/` follows the signature.
    MissingSignature,
    /// No `plain/` marks where the source starts.
    MissingSource,
    /// The source after `plain/` is empty.
    EmptySource,
}

/// The signature, the processing directives and the source of a request path
/// `/{signature}/{directives...}/plain/{source}`: leading `/`s are ignored,
/// the signature runs to the first `/`, and the directives to the first
/// `/plain/` (none when the rest starts with `plain/`).
pub open spec fn path_parts(path: Seq<char>) -> Result<(Seq<char>, Seq<char>, Seq<char>), PathError> {
    let p = trim_char_start(path, '/');
    let k = find_char(p, '/');
    if k >= p.len() {
        Err(PathError::MissingSignature)
    } else {
        let rest = p.skip(k + 1);
        let split = if "plain/"@.len() <= rest.len() && rest.take("plain/"@.len() as int) == "plain/"@ {
            Some((Seq::<char>::empty(), rest.skip("plain/"@.len() as int)))
        } else {
            match occurrence(rest, "/plain/"@) {
                Some(i) => Some((rest.take(i), rest.skip(i + "/plain/"@.len()))),
                None => None,
            }
        };
        match split {
            None => Err(PathError::MissingSource),
            Some((d, src)) => if src.len() == 0 {
                Err(PathError::EmptySource)
            } else {
                Ok((p.take(k), d, src))
            },
        }
    }
}

/// Splits a request path into its signature, directives and source, as
/// [`path_parts`] says.
pub fn split_path(path: &str) -> (r: Result<(String, String, String), PathError>)
    ensures
        match path_parts(path@) {
            Ok((sig, d, src)) => r matches Ok(x) && x.0@ == sig && x.1@ == d && x.2@ == src,
            Err(e) => r matches Err(x) && x == e,
        },
{
    let v = chars_of(path);
    let mut i: usize = 0;
    assert(v@.skip(0) =~= v@);
    while i < v.len() && v[i] == '/'
        invariant
            i <= v@.len(),
            trim_char_start(v@, '/') == trim_char_start(v@.skip(i as int), '/'),
        decreases v@.len() - i,
    {
        assert(v@.skip(i as int).drop_first() =~= v@.skip(i + 1));
        i = i + 1;
    }
    let p = crate::text::slice_chars(v.as_slice(), i, v.len());
    assert(p@ =~= v@.skip(i as int));
    assert(trim_char_start(p@, '/') == p@);
    let k = crate::text::find_from(p.as_slice(), '/', 0);
    assert(p@.skip(0) =~= p@);
    if k >= p.len() {
        return Err(PathError::MissingSignature);
    }
    let signature = crate::text::slice_chars(p.as_slice(), 0, k);
    assert(signature@ =~= p@.take(k as int));
    let rest = crate::text::slice_chars(p.as_slice(), k + 1, p.len());
    assert(rest@ =~= p@.skip(k + 1));
    let plain = chars_of("plain/");
    let marker = chars_of("/plain/");
    let (directives, source) = if starts_with(rest.as_slice(), plain.as_slice()) {
        let src = crate::text::slice_chars(rest.as_slice(), plain.len(), rest.len());
        assert(src@ =~= rest@.skip("plain/"@.len() as int));
        (Vec::new(), src)
    } else {
        match crate::text::find_str(rest.as_slice(), marker.as_slice()) {
            Some(at) => {
                proof {
                    crate::text::lemma_occurrence_found(rest@, marker@, 0);
                }
                let d = crate::text::slice_chars(rest.as_slice(), 0, at);
                let src = crate::text::slice_chars(rest.as_slice(), at + marker.len(), rest.len());
                assert(d@ =~= rest@.take(at as int));
                assert(src@ =~= rest@.skip(at + "/plain/"@.len()));
                (d, src)
            },
            None => {
                return Err(PathError::MissingSource);
            },
        }
    };
    if source.len() == 0 {
        return Err(PathError::EmptySource);
    }
    Ok((string_of(signature.as_slice()), string_of(directives.as_slice()), string_of(source.as_slice())))
}

/// Whether an unsigned request is served: only when unsigned requests are
/// allowed, and only with one of the placeholder signatures `insecure`,
/// `unsafe` or `_`.
pub fn unsigned_permitted(allow_unsigned: bool, signature: &str) -> (r: bool)
    ensures
        r == (allow_unsigned && (signature@ == "insecure"@ || signature@ == "unsafe"@ || signature@
            == "_"@)),
{
    let v = chars_of(signature);
    allow_unsigned && (crate::text::is(v.as_slice(), "insecure") || crate::text::is(v.as_slice(), "unsafe")
        || crate::text::is(v.as_slice(), "_"))
}

} // verus!
