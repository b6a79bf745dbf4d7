//! Request identity and response content types.

use crate::processing::save::{format_name, ImageFormat};
use crate::text::{chars_of, is};
use rand::RngExt;
use vstd::prelude::*;

verus! {

/// The identifier a request is tagged with.
#[derive(Clone, Debug)]
pub struct RequestId(pub String);

/// The format a response's body is in, set by the handler for the
/// content-type layer.
#[derive(Clone, Debug)]
pub struct OutputFormat(pub String);

/// Whether a byte is an ASCII letter or digit.
pub open spec fn is_alphanumeric(b: u8) -> bool {
    (48 <= b <= 57) || (65 <= b <= 90) || (97 <= b <= 122)
}

/// One ASCII letter or digit from the thread's random source
/// (`rand::rng().sample(Alphanumeric)`), which the crate draws from
/// `A-Z`, `a-z` and `0-9`. Which one is chance.
#[verifier::external_body]
fn random_alphanumeric() -> (r: u8)
    ensures
        is_alphanumeric(r),
{
    rand::rng().sample(rand::distr::Alphanumeric)
}

/// A fresh request identifier: ten random ASCII letters and digits.
pub fn generate_request_id() -> (r: String)
    ensures
        r@.len() == 10,
        forall|i: int| 0 <= i < 10 ==> is_alphanumeric(#[trigger] r@[i] as u8),
{
    let mut chars: Vec<char> = Vec::new();
    let mut i: usize = 0;
    while i < 10
        invariant
            i <= 10,
            chars@.len() == i,
            forall|j: int| 0 <= j < i ==> is_alphanumeric(#[trigger] chars@[j] as u8),
        decreases 10 - i,
    {
        let b = random_alphanumeric();
        let c = b as char;
        assert((c as u8) == b);
        chars.push(c);
        i = i + 1;
    }
    crate::text::string_of(chars.as_slice())
}

/// The content type a format name or content type stands for; anything
/// unrecognised is served as JPEG.
pub open spec fn content_type_of(format: Seq<char>) -> Seq<char> {
    if format == "png"@ || format == "image/png"@ {
        "image/png"@
    } else if format == "webp"@ || format == "image/webp"@ {
        "image/webp"@
    } else if format == "gif"@ || format == "image/gif"@ {
        "image/gif"@
    } else if format == "tiff"@ || format == "image/tiff"@ {
        "image/tiff"@
    } else if format == "avif"@ || format == "image/avif"@ {
        "image/avif"@
    } else if format == "heif"@ || format == "image/heif"@ {
        "image/heif"@
    } else {
        "image/jpeg"@
    }
}

/// The content type a format name or content type stands for.
pub fn format_to_content_type(format: &str) -> (r: &'static str)
    ensures
        r@ == content_type_of(format@),
{
    let v = chars_of(format);
    let f = v.as_slice();
    if is(f, "png") || is(f, "image/png") {
        "image/png"
    } else if is(f, "webp") || is(f, "image/webp") {
        "image/webp"
    } else if is(f, "gif") || is(f, "image/gif") {
        "image/gif"
    } else if is(f, "tiff") || is(f, "image/tiff") {
        "image/tiff"
    } else if is(f, "avif") || is(f, "image/avif") {
        "image/avif"
    } else if is(f, "heif") || is(f, "image/heif") {
        "image/heif"
    } else {
        "image/jpeg"
    }
}

/// The request rate to enforce, per minute: a configured positive limit;
/// none when it is not configured or configured as zero.
pub fn effective_rate_limit(limit_per_minute: Option<u32>) -> (r: Option<u32>)
    ensures
        r == match limit_per_minute {
            Some(l) => if l > 0 {
                Some(l)
            } else {
                None
            },
            None => None,
        },
{
    match limit_per_minute {
        Some(limit) => if limit > 0 {
            Some(limit)
        } else {
            None
        },
        None => None,
    }
}

/// A canonical format name is served as `image/` followed by that name, and a
/// text that is none of the canonical names nor their content types is served
/// as JPEG.
pub proof fn lemma_canonical_names_have_their_content_type(f: ImageFormat, s: Seq<char>)
    ensures
        content_type_of(format_name(f)) == "image/"@ + format_name(f),
        (forall|g: ImageFormat|
            s != #[trigger] format_name(g) && s != "image/"@ + format_name(g)) ==> content_type_of(s)
            == "image/jpeg"@,
{
    reveal_strlit("image/");
    reveal_strlit("jpeg");
    reveal_strlit("image/jpeg");
    reveal_strlit("png");
    reveal_strlit("image/png");
    reveal_strlit("webp");
    reveal_strlit("image/webp");
    reveal_strlit("tiff");
    reveal_strlit("image/tiff");
    reveal_strlit("gif");
    reveal_strlit("image/gif");
    reveal_strlit("avif");
    reveal_strlit("image/avif");
    reveal_strlit("heif");
    reveal_strlit("image/heif");
    assert("image/"@ + "jpeg"@ =~= "image/jpeg"@);
    assert("image/"@ + "png"@ =~= "image/png"@);
    assert("image/"@ + "webp"@ =~= "image/webp"@);
    assert("image/"@ + "tiff"@ =~= "image/tiff"@);
    assert("image/"@ + "gif"@ =~= "image/gif"@);
    assert("image/"@ + "avif"@ =~= "image/avif"@);
    assert("image/"@ + "heif"@ =~= "image/heif"@);
    assert(format_name(ImageFormat::Jpeg) == "jpeg"@);
    assert(format_name(ImageFormat::Png) == "png"@);
    assert(format_name(ImageFormat::Webp) == "webp"@);
    assert(format_name(ImageFormat::Tiff) == "tiff"@);
    assert(format_name(ImageFormat::Gif) == "gif"@);
    assert(format_name(ImageFormat::Avif) == "avif"@);
    assert(format_name(ImageFormat::Heif) == "heif"@);
}

} // verus!
