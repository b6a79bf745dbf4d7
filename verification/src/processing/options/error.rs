//! Parsing failures and the primitive argument parsers shared by every option
//! group.

use crate::limits::SecurityLimitError;
use crate::numbers::{parse_decimal, parse_fixed, parse_int, parse_signed, parse_uint, parse_unsigned, Fixed};
use crate::processing::utils::{hex_color, parse_hex_color, ColorParseError};
use crate::text::{chars_of, string_of};
use base64::Engine;
use vstd::prelude::*;
use vstd::utf8::{decode_utf8, valid_utf8};
use vstd::string::{StringExecFns, StringSliceAdditionalSpecFns};

verus! {

#[verifier::external_type_specification]
#[verifier::external_body]
pub struct ExDecodeError(base64::DecodeError);

#[verifier::external_type_specification]
#[verifier::external_body]
pub struct ExFromUtf8Error(std::string::FromUtf8Error);

/// What URL-safe, unpadded Base64 decoding makes of some bytes, or `None`
/// when they are not such Base64.
pub uninterp spec fn base64_url_no_pad(input: Seq<u8>) -> Option<Seq<u8>>;

/// Decodes URL-safe Base64 without padding, with the `base64` crate's
/// `URL_SAFE_NO_PAD` engine. The contract names the result and says nothing
/// more of it: the alphabet, length and trailing-bit rules are the crate's.
#[verifier::external_body]
fn decode_base64_url(value: &str) -> (r: Result<Vec<u8>, base64::DecodeError>)
    ensures
        match r {
            Ok(v) => base64_url_no_pad(value.spec_bytes()) == Some(v@),
            Err(_) => base64_url_no_pad(value.spec_bytes()) is None,
        },
{
    base64::engine::general_purpose::URL_SAFE_NO_PAD.decode(value)
}

/// `String::from_utf8`: the text the bytes encode when they are valid UTF-8.
#[verifier::external_body]
pub(crate) fn string_from_utf8(bytes: Vec<u8>) -> (r: Result<String, std::string::FromUtf8Error>)
    ensures
        match r {
            Ok(s) => valid_utf8(bytes@) && s@ == decode_utf8(bytes@),
            Err(_) => !valid_utf8(bytes@),
        },
{
    String::from_utf8(bytes)
}

/// What `{:?}` writes for a string: the text in double quotes, with quotes,
/// backslashes and unprintable characters escaped.
pub uninterp spec fn quoted_debug(s: Seq<char>) -> Seq<char>;

/// `<str as Debug>::fmt`, through `format!("{:?}")`. Which characters it
/// escapes, and how, are std's rules, so the result is named rather than
/// described.
#[verifier::external_body]
fn debug_quoted(s: &str) -> (r: String)
    ensures
        r@ == quoted_debug(s@),
{
    format!("{:?}", s)
}

/// Errors produced while parsing image processing options.
#[derive(Debug)]
pub enum OptionParseError {
    /// An argument that had to be a whole number was not one.
    Integer { option: String, value: String },
    /// An argument that had to be a decimal number was not one.
    Float { option: String, value: String },
    /// An argument that had to be Base64 was not.
    Base64 { option: String, source: base64::DecodeError },
    /// Base64 that did not decode to UTF-8 text.
    Utf8 { option: String, source: std::string::FromUtf8Error },
    /// A security limit the request tried to set was refused.
    SecurityLimit { option: String, source: SecurityLimitError },
    /// A colour argument was refused.
    Color(ColorParseError),
    /// Any other refused value, with a description.
    InvalidValue(String),
}

/// A parsing failure as the contracts speak of it: its class, with the
/// option it concerns and the text it refused, or the description it gives;
/// together, everything its message is made of.
pub enum OptionErrorKind {
    /// The option's name and the text that is no integer.
    Integer(Seq<char>, Seq<char>),
    /// The option's name and the text that is no number.
    Float(Seq<char>, Seq<char>),
    /// The option whose argument is no URL-safe Base64.
    Base64(Seq<char>),
    /// The option whose decoded argument is no UTF-8.
    Utf8(Seq<char>),
    /// The option's name and why its limit was refused.
    SecurityLimit(Seq<char>, SecurityLimitError),
    Color(ColorParseError),
    /// The description of a refused value.
    Invalid(Seq<char>),
}

impl OptionParseError {
    /// The class of this failure.
    pub open spec fn kind(&self) -> OptionErrorKind {
        match self {
            OptionParseError::Integer { option, value } => OptionErrorKind::Integer(option@, value@),
            OptionParseError::Float { option, value } => OptionErrorKind::Float(option@, value@),
            OptionParseError::Base64 { option, .. } => OptionErrorKind::Base64(option@),
            OptionParseError::Utf8 { option, .. } => OptionErrorKind::Utf8(option@),
            OptionParseError::SecurityLimit { option, source } => OptionErrorKind::SecurityLimit(
                option@,
                *source,
            ),
            OptionParseError::Color(e) => OptionErrorKind::Color(*e),
            OptionParseError::InvalidValue(m) => OptionErrorKind::Invalid(m@),
        }
    }

    /// The sentence describing this failure.
    pub open spec fn message_text(&self) -> Seq<char> {
        match self {
            OptionParseError::Integer { option, value } => "invalid "@ + option@ + " value "@
                + quoted_debug(value@),
            OptionParseError::Float { option, value } => "invalid "@ + option@ + " value "@
                + quoted_debug(value@),
            OptionParseError::Base64 { option, .. } => "invalid Base64 for "@ + option@,
            OptionParseError::Utf8 { option, .. } => "invalid UTF-8 for "@ + option@,
            OptionParseError::SecurityLimit { option, source } => "invalid "@ + option@ + ": "@
                + crate::limits::limit_error_message(*source),
            OptionParseError::Color(_) => "invalid background color"@,
            OptionParseError::InvalidValue(m) => m@,
        }
    }

    /// The sentence describing this failure, as [`Self::message_text`] says.
    pub fn message(&self) -> (r: String)
        ensures
            r@ == self.message_text(),
    {
        match self {
            OptionParseError::Integer { option, value } | OptionParseError::Float { option, value } => {
                let mut t = "invalid ".to_string();
                t.append(option.as_str());
                t.append(" value ");
                t.append(debug_quoted(value.as_str()).as_str());
                t
            },
            OptionParseError::Base64 { option, .. } => {
                let mut t = "invalid Base64 for ".to_string();
                t.append(option.as_str());
                t
            },
            OptionParseError::Utf8 { option, .. } => {
                let mut t = "invalid UTF-8 for ".to_string();
                t.append(option.as_str());
                t
            },
            OptionParseError::SecurityLimit { option, source } => {
                let mut t = "invalid ".to_string();
                t.append(option.as_str());
                t.append(": ");
                t.append(source.message());
                t
            },
            OptionParseError::Color(_) => "invalid background color".to_string(),
            OptionParseError::InvalidValue(m) => m.clone(),
        }
    }

    /// A refused value with a description.
    pub fn invalid(message: &str) -> (r: Self)
        ensures
            r.kind() == OptionErrorKind::Invalid(message@),
            r.message_text() == message@,
    {
        OptionParseError::InvalidValue(message.to_owned())
    }

    /// A refused value, described as the option's name followed by `message`.
    pub fn invalid_for(option: &str, message: &str) -> (r: Self)
        ensures
            r.kind() == OptionErrorKind::Invalid(option@ + message@),
            r.message_text() == option@ + message@,
    {
        let mut text = option.to_owned();
        text.append(message);
        OptionParseError::InvalidValue(text)
    }
}

/// The views of a list of arguments.
pub open spec fn arg_views(args: Seq<String>) -> Seq<Seq<char>> {
    args.map_values(|s: String| s@)
}

/// Argument `i`, treating an absent or empty argument as not given.
pub open spec fn spec_arg(args: Seq<Seq<char>>, i: int) -> Option<Seq<char>> {
    if 0 <= i < args.len() && args[i].len() > 0 {
        Some(args[i])
    } else {
        None
    }
}

/// Reads argument `index`, skipping empty placeholders left by callers who only
/// wanted to set a later positional argument.
pub fn arg(args: &[String], index: usize) -> (r: Option<Vec<char>>)
    ensures
        match spec_arg(arg_views(args@), index as int) {
            Some(a) => r matches Some(v) && v@ == a,
            None => r is None,
        },
{
    if index < args.len() {
        let v = chars_of(args[index].as_str());
        if v.len() > 0 {
            return Some(v);
        }
    }
    None
}

/// An unsigned argument no larger than `max`.
pub open spec fn spec_uint(v: Seq<char>, max: nat, option: Seq<char>) -> Result<nat, OptionErrorKind> {
    match parse_unsigned(v, max) {
        Some(n) => Ok(n),
        None => Err(OptionErrorKind::Integer(option, v)),
    }
}

/// A signed argument within `min..=max`.
pub open spec fn spec_sint(v: Seq<char>, min: int, max: int, option: Seq<char>) -> Result<int, OptionErrorKind> {
    match parse_signed(v, min, max) {
        Some(n) => Ok(n),
        None => Err(OptionErrorKind::Integer(option, v)),
    }
}

/// A decimal argument, in billionths.
pub open spec fn spec_decimal(v: Seq<char>, option: Seq<char>) -> Result<int, OptionErrorKind> {
    match parse_decimal(v) {
        Some(n) => Ok(n),
        None => Err(OptionErrorKind::Float(option, v)),
    }
}

/// Whether the text spells infinity or not-a-number as floating-point parsing
/// accepts them: `inf`, `infinity` or `nan` in any ASCII case, with an optional
/// sign. Such a number is read, and then refused for not being finite.
pub open spec fn non_finite_literal(v: Seq<char>) -> bool {
    let body = if v.len() > 0 && (v[0] == '+' || v[0] == '-') {
        v.drop_first()
    } else {
        v
    };
    let l = crate::text::ascii_lower(body);
    l == "inf"@ || l == "infinity"@ || l == "nan"@
}

/// A decimal argument that must be greater than zero.
pub open spec fn spec_positive(v: Seq<char>, option: Seq<char>) -> Result<int, OptionErrorKind> {
    match parse_decimal(v) {
        None => if non_finite_literal(v) {
            Err(OptionErrorKind::Invalid(option + " must be a finite positive number"@))
        } else {
            Err(OptionErrorKind::Float(option, v))
        },
        Some(n) => if n <= 0 {
            Err(OptionErrorKind::Invalid(option + " must be a finite positive number"@))
        } else {
            Ok(n)
        },
    }
}

/// A decimal argument between 0 and 1 inclusive.
pub open spec fn spec_unit(v: Seq<char>, option: Seq<char>) -> Result<int, OptionErrorKind> {
    match parse_decimal(v) {
        None => if non_finite_literal(v) {
            Err(OptionErrorKind::Invalid(option + " must be a finite number between 0 and 1"@))
        } else {
            Err(OptionErrorKind::Float(option, v))
        },
        Some(n) => if n < 0 || n > 1_000_000_000 {
            Err(OptionErrorKind::Invalid(option + " must be a finite number between 0 and 1"@))
        } else {
            Ok(n)
        },
    }
}

/// A quality: a byte, clamped into 1..=100.
pub open spec fn spec_quality(v: Seq<char>, option: Seq<char>) -> Result<u8, OptionErrorKind> {
    match parse_unsigned(v, 255) {
        None => Err(OptionErrorKind::Integer(option, v)),
        Some(n) => Ok(
            if n < 1 {
                1u8
            } else if n > 100 {
                100u8
            } else {
                n as u8
            },
        ),
    }
}

/// The optional boolean at argument `i`: absent or empty means not said.
pub open spec fn spec_optional_bool(args: Seq<Seq<char>>, i: int) -> Option<bool> {
    match spec_arg(args, i) {
        Some(a) => Some(crate::processing::utils::is_true(a)),
        None => None,
    }
}

fn integer_error(value: &[char], option: &str) -> (r: OptionParseError)
    ensures
        r.kind() == OptionErrorKind::Integer(option@, value@),
{
    OptionParseError::Integer { option: option.to_owned(), value: string_of(value) }
}

fn float_error(value: &[char], option: &str) -> (r: OptionParseError)
    ensures
        r.kind() == OptionErrorKind::Float(option@, value@),
{
    OptionParseError::Float { option: option.to_owned(), value: string_of(value) }
}

/// Reads an unsigned integer no larger than `max`.
pub fn parse_integer(value: &[char], max: u64, option: &str) -> (r: Result<u64, OptionParseError>)
    ensures
        match spec_uint(value@, max as nat, option@) {
            Ok(n) => r matches Ok(x) && x == n,
            Err(k) => r matches Err(e) && e.kind() == k,
        },
{
    match parse_uint(value, max) {
        Some(n) => Ok(n),
        None => Err(integer_error(value, option)),
    }
}

/// Reads a signed integer within `min..=max`.
pub fn parse_signed_integer(value: &[char], min: i64, max: i64, option: &str) -> (r: Result<
    i64,
    OptionParseError,
>)
    requires
        min <= 0 <= max,
    ensures
        match spec_sint(value@, min as int, max as int, option@) {
            Ok(n) => r matches Ok(x) && x == n,
            Err(k) => r matches Err(e) && e.kind() == k,
        },
{
    match parse_int(value, min, max) {
        Some(n) => Ok(n),
        None => Err(integer_error(value, option)),
    }
}

/// Reads a decimal.
pub fn parse_float(value: &[char], option: &str) -> (r: Result<Fixed, OptionParseError>)
    ensures
        match spec_decimal(value@, option@) {
            Ok(n) => r matches Ok(x) && x.nanos == n,
            Err(k) => r matches Err(e) && e.kind() == k,
        },
{
    match parse_fixed(value) {
        Some(f) => Ok(f),
        None => Err(float_error(value, option)),
    }
}

/// Reads a decimal that must be greater than zero.
pub fn parse_positive(value: &[char], option: &str) -> (r: Result<Fixed, OptionParseError>)
    ensures
        match spec_positive(value@, option@) {
            Ok(n) => r matches Ok(x) && x.nanos == n,
            Err(k) => r matches Err(e) && e.kind() == k,
        },
{
    let parsed = match parse_fixed(value) {
        Some(f) => f,
        None => {
            if is_non_finite_literal(value) {
                return Err(OptionParseError::invalid_for(option, " must be a finite positive number"));
            }
            return Err(float_error(value, option));
        },
    };
    if parsed.nanos <= 0 {
        return Err(OptionParseError::invalid_for(option, " must be a finite positive number"));
    }
    Ok(parsed)
}

/// Whether the text spells a non-finite number, as [`non_finite_literal`] says.
fn is_non_finite_literal(value: &[char]) -> (r: bool)
    ensures
        r == non_finite_literal(value@),
{
    let start: usize = if value.len() > 0 && (value[0] == '+' || value[0] == '-') {
        1
    } else {
        0
    };
    let body = crate::text::slice_chars(value, start, value.len());
    proof {
        if start == 1 {
            assert(body@ =~= value@.drop_first());
        } else {
            assert(body@ =~= value@);
        }
    }
    let l = crate::text::to_ascii_lower(body.as_slice());
    crate::text::is(l.as_slice(), "inf") || crate::text::is(l.as_slice(), "infinity")
        || crate::text::is(l.as_slice(), "nan")
}

/// Reads a decimal between 0 and 1 inclusive.
pub fn parse_unit(value: &[char], option: &str) -> (r: Result<Fixed, OptionParseError>)
    ensures
        match spec_unit(value@, option@) {
            Ok(n) => r matches Ok(x) && x.nanos == n,
            Err(k) => r matches Err(e) && e.kind() == k,
        },
{
    let parsed = match parse_fixed(value) {
        Some(f) => f,
        None => {
            if is_non_finite_literal(value) {
                return Err(OptionParseError::invalid_for(option, " must be a finite number between 0 and 1"));
            }
            return Err(float_error(value, option));
        },
    };
    if parsed.nanos < 0 || parsed.nanos > 1_000_000_000 {
        return Err(OptionParseError::invalid_for(option, " must be a finite number between 0 and 1"));
    }
    Ok(parsed)
}

/// Reads a quality, clamped into 1..=100.
pub fn parse_quality(value: &[char], option: &str) -> (r: Result<u8, OptionParseError>)
    ensures
        match spec_quality(value@, option@) {
            Ok(n) => r matches Ok(x) && x == n,
            Err(k) => r matches Err(e) && e.kind() == k,
        },
{
    let q = parse_integer(value, 255, option)?;
    if q < 1 {
        Ok(1)
    } else if q > 100 {
        Ok(100)
    } else {
        Ok(q as u8)
    }
}

/// Reads argument `index` as a boolean, treating an absent or empty argument as
/// "not specified" rather than `false`.
pub fn parse_optional_bool(args: &[String], index: usize) -> (r: Option<bool>)
    ensures
        r == spec_optional_bool(arg_views(args@), index as int),
{
    match arg(args, index) {
        Some(v) => Some(crate::processing::utils::is_true_chars(v.as_slice())),
        None => None,
    }
}

/// What Base64 decoding and then UTF-8 decoding makes of an argument.
pub open spec fn spec_base64_text(v: Seq<char>, option: Seq<char>) -> Result<Seq<char>, OptionErrorKind> {
    match base64_url_no_pad(crate::processing::options::error::utf8_bytes(v)) {
        None => Err(OptionErrorKind::Base64(option)),
        Some(bytes) => if valid_utf8(bytes) {
            Ok(decode_utf8(bytes))
        } else {
            Err(OptionErrorKind::Utf8(option))
        },
    }
}

/// The UTF-8 encoding of some text.
pub open spec fn utf8_bytes(v: Seq<char>) -> Seq<u8> {
    vstd::utf8::encode_utf8(v)
}

/// Decodes URL-safe Base64 text that must hold UTF-8.
pub fn decode_base64_text(value: &[char], option: &str) -> (r: Result<String, OptionParseError>)
    ensures
        match spec_base64_text(value@, option@) {
            Ok(t) => r matches Ok(s) && s@ == t,
            Err(k) => r matches Err(e) && e.kind() == k,
        },
{
    let text = string_of(value);
    match decode_base64_url(text.as_str()) {
        Err(source) => Err(OptionParseError::Base64 { option: option.to_owned(), source }),
        Ok(bytes) => match string_from_utf8(bytes) {
            Ok(s) => Ok(s),
            Err(source) => Err(OptionParseError::Utf8 { option: option.to_owned(), source }),
        },
    }
}

/// The RGBA bytes of a colour held as a sequence.
pub open spec fn rgba_of(c: Seq<u8>) -> [u8; 4] {
    [c[0], c[1], c[2], c[3]]
}

/// What a colour argument gives: a hex colour, or the reason it is not one.
pub open spec fn color_arg(v: Seq<char>) -> Result<[u8; 4], OptionErrorKind> {
    match hex_color(v) {
        Ok(c) => Ok(rgba_of(c)),
        Err(e) => Err(OptionErrorKind::Color(e)),
    }
}

/// Reads a hexadecimal colour argument.
pub fn parse_color(value: &[char]) -> (r: Result<[u8; 4], OptionParseError>)
    ensures
        match color_arg(value@) {
            Ok(c) => r matches Ok(x) && x == c,
            Err(k) => r matches Err(e) && e.kind() == k,
        },
{
    let text = string_of(value);
    match parse_hex_color(text.as_str()) {
        Ok(c) => {
            assert(c =~= rgba_of(c@));
            Ok(c)
        },
        Err(e) => Err(OptionParseError::Color(e)),
    }
}

} // verus!
