//! Reading settings from the environment's values.
//!
//! The values arrive as a map from variable name to text, holding only the
//! variables that are set; reading the environment itself is the caller's.

use crate::numbers::parse_unsigned;
use crate::string_map::StringMap;
use crate::text::{ascii_lower, chars_of, is, to_ascii_lower, trim, trim_chars};
use vstd::prelude::*;

verus! {

/// The settings that are present, as text.
pub open spec fn settings_view(vars: StringMap<String>) -> Map<Seq<char>, Seq<char>> {
    vars.spec_map().map_values(|v: String| v@)
}

/// The value of setting `name`, if it is present.
pub open spec fn setting(vars: Map<Seq<char>, Seq<char>>, name: Seq<char>) -> Option<Seq<char>> {
    if vars.contains_key(name) {
        Some(vars[name])
    } else {
        None
    }
}

/// Reads a setting's value.
pub fn optional_var(vars: &StringMap<String>, name: &str) -> (r: Option<String>)
    ensures
        match setting(settings_view(*vars), name@) {
            Some(v) => r matches Some(s) && s@ == v,
            None => r is None,
        },
{
    match vars.get(name) {
        Some(v) => Some(v.clone()),
        None => None,
    }
}

/// Whether a boolean setting says yes: `1`, `t`, `true`, `yes` or `on`,
/// trimmed and in any ASCII case, as the URL options accept.
pub open spec fn truthy(v: Seq<char>) -> bool {
    let l = ascii_lower(trim(v));
    l == "1"@ || l == "t"@ || l == "true"@ || l == "yes"@ || l == "on"@
}

/// A boolean setting, or `default` when it is absent.
pub open spec fn bool_setting(v: Option<Seq<char>>, default: bool) -> bool {
    match v {
        Some(x) => truthy(x),
        None => default,
    }
}

/// Reads a boolean setting, accepting the same spellings the URL options do.
pub fn bool_var(vars: &StringMap<String>, name: &str, default: bool) -> (r: bool)
    ensures
        r == bool_setting(setting(settings_view(*vars), name@), default),
{
    match optional_var(vars, name) {
        Some(value) => {
            let v = chars_of(value.as_str());
            let t = trim_chars(v.as_slice());
            let l = to_ascii_lower(t.as_slice());
            let s = l.as_slice();
            is(s, "1") || is(s, "t") || is(s, "true") || is(s, "yes") || is(s, "on")
        },
        None => default,
    }
}

/// What Rust's integer parsing says of unparsable text: empty, too large for
/// the type, or holding something other than digits.
pub open spec fn int_error_reason(v: Seq<char>) -> Seq<char> {
    if v.len() == 0 {
        "cannot parse integer from empty string"@
    } else if crate::numbers::all_digits(crate::numbers::unsigned_body(v)) && crate::numbers::unsigned_body(
        v,
    ).len() > 0 {
        "number too large to fit in target type"@
    } else {
        "invalid digit found in string"@
    }
}

/// The reason an unsigned number was refused.
pub fn int_error_text(v: &[char]) -> (r: String)
    ensures
        r@ == int_error_reason(v@),
{
    if v.len() == 0 {
        return "cannot parse integer from empty string".to_owned();
    }
    let start: usize = if v[0] == '+' {
        1
    } else {
        0
    };
    let body = crate::text::slice_chars(v, start, v.len());
    assert(body@ == crate::numbers::unsigned_body(v@));
    let mut digits = body.len() > 0;
    let mut i: usize = 0;
    while i < body.len()
        invariant
            i <= body@.len(),
            digits == (body@.len() > 0 && forall|j: int|
                0 <= j < i ==> crate::numbers::is_digit(#[trigger] body@[j])),
        decreases body@.len() - i,
    {
        if !('0' <= body[i] && body[i] <= '9') {
            digits = false;
        }
        i = i + 1;
    }
    if digits {
        "number too large to fit in target type".to_owned()
    } else {
        "invalid digit found in string".to_owned()
    }
}

/// An unsigned setting, trimmed, no larger than `max`.
pub open spec fn uint_setting(v: Seq<char>, max: nat) -> Option<nat> {
    parse_unsigned(trim(v), max)
}

} // verus!
