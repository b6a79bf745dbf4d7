//! Decimal integers and fixed-point decimals, read and written as text.
//!
//! Integers are read the way the standard library's `from_str` reads them: an
//! optional sign, then one or more ASCII digits, and nothing else. Decimals that
//! the options carry as fractions (`dpr:2.5`, `blur:0.3`) are held as
//! [`Fixed`], an exact count of billionths, so every comparison and every
//! rounding the rules make is exact.

use crate::text::find_char;
use vstd::prelude::*;

verus! {

pub open spec fn is_digit(c: char) -> bool {
    '0' <= c && c <= '9'
}

pub open spec fn digit_val(c: char) -> nat {
    ((c as u32) - ('0' as u32)) as nat
}

pub open spec fn all_digits(s: Seq<char>) -> bool {
    forall|i: int| 0 <= i < s.len() ==> is_digit(s[i])
}

/// The number a run of decimal digits spells.
pub open spec fn digits_value(s: Seq<char>) -> nat
    decreases s.len(),
{
    if s.len() == 0 {
        0
    } else {
        digits_value(s.drop_last()) * 10 + digit_val(s.last())
    }
}

pub open spec fn pow10(n: nat) -> nat
    decreases n,
{
    if n == 0 {
        1
    } else {
        10 * pow10((n - 1) as nat)
    }
}

/// The digits after an optional leading `+`.
pub open spec fn unsigned_body(s: Seq<char>) -> Seq<char> {
    if s.len() > 0 && s[0] == '+' {
        s.drop_first()
    } else {
        s
    }
}

/// What an unsigned integer type's `from_str` returns, for a type whose
/// largest value is `max`.
pub open spec fn parse_unsigned(s: Seq<char>, max: nat) -> Option<nat> {
    let d = unsigned_body(s);
    if d.len() > 0 && all_digits(d) && digits_value(d) <= max {
        Some(digits_value(d))
    } else {
        None
    }
}

/// What a signed integer type's `from_str` returns, for a type spanning
/// `min..=max`.
pub open spec fn parse_signed(s: Seq<char>, min: int, max: int) -> Option<int> {
    let neg = s.len() > 0 && s[0] == '-';
    let d = if neg {
        s.drop_first()
    } else {
        unsigned_body(s)
    };
    let v: int = if neg {
        -digits_value(d)
    } else {
        digits_value(d) as int
    };
    if d.len() > 0 && all_digits(d) && min <= v && v <= max {
        Some(v)
    } else {
        None
    }
}

/// The largest magnitude a decimal holds, in billionths: larger values are
/// held at this.
pub const FIXED_CAP: u64 = 4_294_967_295_999_999_999;

/// The largest exponent magnitude read; larger exponents are held at this.
pub const EXP_CAP: u64 = 1_000_000;

/// Billionths in one.
pub const NANOS: i64 = 1_000_000_000;

/// Where the exponent mark is: the first `e` or `E`, or the end.
pub open spec fn exp_mark(s: Seq<char>) -> int {
    let a = find_char(s, 'e');
    let b = find_char(s, 'E');
    if a < b {
        a
    } else {
        b
    }
}

/// An exponent: an optional sign and at least one digit, its magnitude held
/// at [`EXP_CAP`].
pub open spec fn exponent_of(t: Seq<char>) -> Option<int> {
    let neg = t.len() > 0 && t[0] == '-';
    let d = if t.len() > 0 && (t[0] == '-' || t[0] == '+') {
        t.drop_first()
    } else {
        t
    };
    if d.len() > 0 && all_digits(d) {
        let m: int = if digits_value(d) > EXP_CAP {
            EXP_CAP as int
        } else {
            digits_value(d) as int
        };
        Some(
            if neg {
                -m
            } else {
                m
            },
        )
    } else {
        None
    }
}

/// The number the first `n` digits of `ds` spell, with zeros past its end.
pub open spec fn leading_value(ds: Seq<char>, n: int) -> nat {
    if n <= 0 {
        0
    } else if n <= ds.len() {
        digits_value(ds.take(n))
    } else {
        digits_value(ds) * pow10((n - ds.len()) as nat)
    }
}

/// A decimal number in billionths, written as floating-point parsing reads
/// it: an optional sign, digits with an optional `.` (at least one digit in
/// all), and an optional exponent `e` or `E` with an optional sign and at
/// least one digit. Digits past the billionths are dropped, and a magnitude
/// above [`FIXED_CAP`] is held at it.
pub open spec fn parse_decimal(s: Seq<char>) -> Option<int> {
    let neg = s.len() > 0 && s[0] == '-';
    let body = if s.len() > 0 && (s[0] == '-' || s[0] == '+') {
        s.drop_first()
    } else {
        s
    };
    let m = exp_mark(body);
    let mant = body.take(m);
    let e = if m < body.len() {
        exponent_of(body.skip(m + 1))
    } else {
        Some(0int)
    };
    let k = find_char(mant, '.');
    let ip = mant.take(k);
    let fp = if k < mant.len() {
        mant.skip(k + 1)
    } else {
        Seq::<char>::empty()
    };
    if ip.len() + fp.len() > 0 && all_digits(ip) && all_digits(fp) && e is Some {
        let exact = leading_value(ip + fp, ip.len() + e->0 + 9);
        let mag: int = if exact > FIXED_CAP {
            FIXED_CAP as int
        } else {
            exact as int
        };
        Some(
            if neg {
                -mag
            } else {
                mag
            },
        )
    } else {
        None
    }
}

pub open spec fn digit_char(d: nat) -> char {
    if d == 0 {
        '0'
    } else if d == 1 {
        '1'
    } else if d == 2 {
        '2'
    } else if d == 3 {
        '3'
    } else if d == 4 {
        '4'
    } else if d == 5 {
        '5'
    } else if d == 6 {
        '6'
    } else if d == 7 {
        '7'
    } else if d == 8 {
        '8'
    } else {
        '9'
    }
}

/// The decimal spelling of `n`, without leading zeros.
pub open spec fn decimal(n: nat) -> Seq<char>
    decreases n,
{
    if n < 10 {
        seq![digit_char(n)]
    } else {
        decimal(n / 10).push(digit_char(n % 10))
    }
}

/// The decimal spelling of a signed number.
pub open spec fn signed_decimal(n: int) -> Seq<char> {
    if n < 0 {
        seq!['-'] + decimal((-n) as nat)
    } else {
        decimal(n as nat)
    }
}

pub proof fn lemma_digits_value_prefix(s: Seq<char>, i: int)
    requires
        0 <= i <= s.len(),
    ensures
        digits_value(s.take(i)) <= digits_value(s),
    decreases s.len() - i,
{
    if i < s.len() {
        lemma_digits_value_prefix(s, i + 1);
        assert(s.take(i + 1).drop_last() =~= s.take(i));
    } else {
        assert(s.take(i) =~= s);
    }
}

pub proof fn lemma_decimal_digits(n: nat)
    ensures
        decimal(n).len() >= 1,
        all_digits(decimal(n)),
        digits_value(decimal(n)) == n,
    decreases n,
{
    lemma_digit_char(n % 10);
    if n >= 10 {
        lemma_decimal_digits(n / 10);
        assert(decimal(n).drop_last() =~= decimal(n / 10));
        assert(decimal(n).last() == digit_char(n % 10));
        assert(digits_value(decimal(n)) == digits_value(decimal(n / 10)) * 10 + digit_val(
            digit_char(n % 10),
        ));
        assert((n / 10) * 10 + n % 10 == n);
    } else {
        assert(n % 10 == n);
        assert(decimal(n).drop_last() =~= Seq::<char>::empty());
        assert(digits_value(decimal(n)) == digits_value(Seq::<char>::empty()) * 10 + digit_val(
            digit_char(n),
        ));
    }
}

proof fn lemma_digit_char(d: nat)
    requires
        d < 10,
    ensures
        is_digit(digit_char(d)),
        digit_val(digit_char(d)) == d,
{
    assert(('0' as u32) == 48);
    assert(('9' as u32) == 57);
    if d == 0 {
    } else if d == 1 {
        assert(('1' as u32) == 49);
    } else if d == 2 {
        assert(('2' as u32) == 50);
    } else if d == 3 {
        assert(('3' as u32) == 51);
    } else if d == 4 {
        assert(('4' as u32) == 52);
    } else if d == 5 {
        assert(('5' as u32) == 53);
    } else if d == 6 {
        assert(('6' as u32) == 54);
    } else if d == 7 {
        assert(('7' as u32) == 55);
    } else if d == 8 {
        assert(('8' as u32) == 56);
    } else {
    }
}

/// Reads an unsigned integer as `from_str` does for a type whose largest
/// value is `max`.
pub fn parse_uint(v: &[char], max: u64) -> (r: Option<u64>)
    ensures
        match parse_unsigned(v@, max as nat) {
            Some(n) => r == Some(n as u64),
            None => r is None,
        },
{
    let start: usize = if v.len() > 0 && v[0] == '+' {
        1
    } else {
        0
    };
    let ghost d = unsigned_body(v@);
    assert(d =~= v@.skip(start as int));
    if start >= v.len() {
        return None;
    }
    let mut acc: u128 = 0;
    let mut i: usize = start;
    while i < v.len()
        invariant
            start <= i <= v@.len(),
            d == unsigned_body(v@),
            d == v@.skip(start as int),
            d.len() > 0,
            all_digits(d.take(i - start)),
            acc == digits_value(d.take(i - start)),
            acc <= max,
        decreases v@.len() - i,
    {
        let c = v[i];
        if !('0' <= c && c <= '9') {
            assert(!is_digit(d[i - start]));
            return None;
        }
        let dv: u128 = ((c as u32) - ('0' as u32)) as u128;
        let next: u128 = acc * 10 + dv;
        proof {
            assert(d.take(i + 1 - start).drop_last() =~= d.take(i - start));
            assert(d.take(i + 1 - start).last() == c);
        }
        if next > max as u128 {
            proof {
                lemma_digits_value_prefix(d, i + 1 - start);
            }
            return None;
        }
        acc = next;
        i = i + 1;
    }
    assert(d.take(i - start) =~= d);
    Some(acc as u64)
}

/// Reads a signed integer as `from_str` does for a type spanning `min..=max`.
pub fn parse_int(v: &[char], min: i64, max: i64) -> (r: Option<i64>)
    requires
        min <= 0 <= max,
    ensures
        match parse_signed(v@, min as int, max as int) {
            Some(n) => r == Some(n as i64),
            None => r is None,
        },
{
    let neg = v.len() > 0 && v[0] == '-';
    let start: usize = if v.len() > 0 && (v[0] == '-' || v[0] == '+') {
        1
    } else {
        0
    };
    let ghost d = if neg {
        v@.drop_first()
    } else {
        unsigned_body(v@)
    };
    assert(d =~= v@.skip(start as int));
    let rest = crate::text::slice_chars(v, start, v.len());
    assert(rest@ =~= d);
    if rest.len() == 0 {
        return None;
    }
    let bound: u64 = if neg {
        (0i128 - min as i128) as u64
    } else {
        max as u64
    };
    let mut acc: u128 = 0;
    let mut i: usize = 0;
    while i < rest.len()
        invariant
            i <= rest@.len(),
            rest@ == d,
            neg == (v@.len() > 0 && v@[0] == '-'),
            d == (if neg {
                v@.drop_first()
            } else {
                unsigned_body(v@)
            }),
            min <= 0 <= max,
            bound == (if neg {
                -min
            } else {
                max as int
            }),
            d.len() > 0,
            all_digits(d.take(i as int)),
            acc == digits_value(d.take(i as int)),
            acc <= bound,
        decreases rest@.len() - i,
    {
        let c = rest[i];
        if !('0' <= c && c <= '9') {
            assert(!is_digit(d[i as int]));
            return None;
        }
        let dv: u128 = ((c as u32) - ('0' as u32)) as u128;
        let next: u128 = acc * 10 + dv;
        proof {
            assert(d.take(i + 1).drop_last() =~= d.take(i as int));
            assert(d.take(i + 1).last() == c);
        }
        if next > bound as u128 {
            proof {
                lemma_digits_value_prefix(d, i + 1);
            }
            return None;
        }
        acc = next;
        i = i + 1;
    }
    assert(d.take(i as int) =~= d);
    if neg {
        Some((0i128 - acc as i128) as i64)
    } else {
        Some(acc as i64)
    }
}

/// A decimal held exactly, as a count of billionths.
#[derive(Clone, Copy, Debug, PartialEq, Eq, Structural, PartialOrd, Ord, Default)]
pub struct Fixed {
    pub nanos: i64,
}

impl Fixed {
    /// A whole number as a decimal.
    pub fn whole(n: i32) -> (r: Fixed)
        ensures
            r.nanos == n * 1_000_000_000,
    {
        Fixed { nanos: n as i64 * NANOS }
    }

    /// The whole part, rounded half away from zero.
    pub fn round(self) -> (r: i64)
        ensures
            r == round_nanos(self.nanos as int),
    {
        let x: i128 = self.nanos as i128;
        if x >= 0 {
            ((x / 500_000_000 + 1) / 2) as i64
        } else {
            (0 - ((0 - x) / 500_000_000 + 1) / 2) as i64
        }
    }
}

/// `x / 10^9` rounded half away from zero.
pub open spec fn round_nanos(x: int) -> int {
    if x >= 0 {
        (x / 500_000_000 + 1) / 2
    } else {
        -(((-x) / 500_000_000 + 1) / 2)
    }
}

/// Reads a decimal number, as [`parse_decimal`] describes.
#[verifier::rlimit(60)]
pub fn parse_fixed(v: &[char]) -> (r: Option<Fixed>)
    ensures
        match parse_decimal(v@) {
            Some(n) => r matches Some(f) && f.nanos == n,
            None => r is None,
        },
{
    let neg = v.len() > 0 && v[0] == '-';
    let start: usize = if v.len() > 0 && (v[0] == '-' || v[0] == '+') {
        1
    } else {
        0
    };
    let body = crate::text::slice_chars(v, start, v.len());
    let ghost b = if v@.len() > 0 && (v@[0] == '-' || v@[0] == '+') {
        v@.drop_first()
    } else {
        v@
    };
    assert(body@ =~= b);
    let lower = crate::text::find_from(body.as_slice(), 'e', 0);
    let upper = crate::text::find_from(body.as_slice(), 'E', 0);
    assert(body@.skip(0) =~= body@);
    let m = if lower < upper {
        lower
    } else {
        upper
    };
    let mant = crate::text::slice_chars(body.as_slice(), 0, m);
    assert(mant@ =~= b.take(m as int));
    let e: i64 = if m < body.len() {
        let t = crate::text::slice_chars(body.as_slice(), m + 1, body.len());
        assert(t@ =~= b.skip(m + 1));
        match parse_exponent(t.as_slice()) {
            Some(x) => x,
            None => {
                return None;
            },
        }
    } else {
        0
    };
    let k = crate::text::find_from(mant.as_slice(), '.', 0);
    assert(mant@.skip(0) =~= mant@);
    let ip = crate::text::slice_chars(mant.as_slice(), 0, k);
    let fp = if k < mant.len() {
        crate::text::slice_chars(mant.as_slice(), k + 1, mant.len())
    } else {
        Vec::new()
    };
    assert(ip@ =~= mant@.take(k as int));
    assert(k < mant@.len() ==> fp@ =~= mant@.skip(k + 1));
    assert(k >= mant@.len() ==> fp@ =~= Seq::<char>::empty());
    if ip.len() + fp.len() == 0 {
        return None;
    }
    if !all_digit_chars(ip.as_slice()) || !all_digit_chars(fp.as_slice()) {
        return None;
    }
    let mut ds = ip.clone();
    let mut tail = fp.clone();
    ds.append(&mut tail);
    assert(ds@ =~= ip@ + fp@);
    let keep: i128 = ip.len() as i128 + e as i128 + 9;
    let mag = leading_capped(ds.as_slice(), keep);
    if neg {
        Some(Fixed { nanos: -(mag as i64) })
    } else {
        Some(Fixed { nanos: mag as i64 })
    }
}

/// Whether every character is an ASCII digit.
fn all_digit_chars(d: &[char]) -> (r: bool)
    ensures
        r == all_digits(d@),
{
    let mut i: usize = 0;
    while i < d.len()
        invariant
            i <= d@.len(),
            forall|j: int| 0 <= j < i ==> is_digit(d@[j]),
        decreases d@.len() - i,
    {
        if !('0' <= d[i] && d[i] <= '9') {
            return false;
        }
        i = i + 1;
    }
    true
}

/// Reads an exponent, as [`exponent_of`] describes.
fn parse_exponent(t: &[char]) -> (r: Option<i64>)
    ensures
        match exponent_of(t@) {
            Some(n) => r == Some(n as i64),
            None => r is None,
        },
{
    let neg = t.len() > 0 && t[0] == '-';
    let start: usize = if t.len() > 0 && (t[0] == '-' || t[0] == '+') {
        1
    } else {
        0
    };
    let d = crate::text::slice_chars(t, start, t.len());
    assert(d@ =~= (if t@.len() > 0 && (t@[0] == '-' || t@[0] == '+') {
        t@.drop_first()
    } else {
        t@
    }));
    if d.len() == 0 {
        return None;
    }
    let mut acc: u64 = 0;
    let mut i: usize = 0;
    while i < d.len()
        invariant
            i <= d@.len(),
            d@ == (if t@.len() > 0 && (t@[0] == '-' || t@[0] == '+') {
                t@.drop_first()
            } else {
                t@
            }),
            all_digits(d@.take(i as int)),
            acc == (if digits_value(d@.take(i as int)) > EXP_CAP {
                EXP_CAP as nat
            } else {
                digits_value(d@.take(i as int))
            }),
        decreases d@.len() - i,
    {
        let c = d[i];
        if !('0' <= c && c <= '9') {
            assert(!is_digit(d@[i as int]));
            assert(!all_digits(d@));
            return None;
        }
        proof {
            assert(d@.take(i + 1).drop_last() =~= d@.take(i as int));
            assert(d@.take(i + 1).last() == c);
        }
        let dv: u64 = ((c as u32) - ('0' as u32)) as u64;
        let next: u64 = acc * 10 + dv;
        acc = if next > EXP_CAP {
            EXP_CAP
        } else {
            next
        };
        i = i + 1;
    }
    assert(d@.take(i as int) =~= d@);
    if neg {
        Some(-(acc as i64))
    } else {
        Some(acc as i64)
    }
}

/// `min(FIXED_CAP, leading_value(ds, n))`: the first `n` digits of `ds`,
/// zeros past its end, held at the cap.
fn leading_capped(ds: &[char], n: i128) -> (r: u64)
    requires
        all_digits(ds@),
    ensures
        r == (if leading_value(ds@, n as int) > FIXED_CAP {
            FIXED_CAP as nat
        } else {
            leading_value(ds@, n as int)
        }),
{
    if n <= 0 {
        return 0;
    }
    let first: usize = if n < ds.len() as i128 {
        n as usize
    } else {
        ds.len()
    };
    let mut val: u64 = 0;
    let mut i: usize = 0;
    while i < first
        invariant
            first <= ds@.len(),
            i <= first,
            all_digits(ds@),
            val == cap(digits_value(ds@.take(i as int))),
        decreases first - i,
    {
        let c = ds[i];
        assert(is_digit(ds@[i as int]));
        proof {
            assert(ds@.take(i + 1).drop_last() =~= ds@.take(i as int));
            assert(ds@.take(i + 1).last() == c);
        }
        let dv: u64 = ((c as u32) - ('0' as u32)) as u64;
        let next: u128 = val as u128 * 10 + dv as u128;
        val = if next > FIXED_CAP as u128 {
            FIXED_CAP
        } else {
            next as u64
        };
        i = i + 1;
    }
    if n <= ds.len() as i128 {
        return val;
    }
    assert(ds@.take(ds@.len() as int) =~= ds@);
    let ghost total = digits_value(ds@);
    let ghost shift = (n - ds@.len()) as nat;
    let mut rest: i128 = n - ds.len() as i128;
    proof {
        lemma_pow10_positive(shift);
        lemma_cap_scale(total, pow10(shift));
    }
    while rest > 0 && val != 0 && val != FIXED_CAP
        invariant
            rest >= 0,
            val <= FIXED_CAP,
            cap(total * pow10(shift)) == cap(val as nat * pow10(rest as nat)),
        decreases rest,
    {
        proof {
            lemma_pow10_positive((rest - 1) as nat);
            assert(pow10(rest as nat) == 10 * pow10((rest - 1) as nat));
            lemma_cap_scale(val as nat * 10, pow10((rest - 1) as nat));
            assert(val as nat * pow10(rest as nat) == (val as nat * 10) * pow10((rest - 1) as nat)) by (nonlinear_arith)
                requires
                    pow10(rest as nat) == 10 * pow10((rest - 1) as nat),
            ;
        }
        let next: u128 = val as u128 * 10;
        val = if next > FIXED_CAP as u128 {
            FIXED_CAP
        } else {
            next as u64
        };
        rest = rest - 1;
    }
    assert(leading_value(ds@, n as int) == total * pow10(shift));
    proof {
        lemma_pow10_positive(rest as nat);
        if val == 0 {
            assert(val as nat * pow10(rest as nat) == 0);
        } else if val == FIXED_CAP {
            assert(val as nat * pow10(rest as nat) >= val as nat) by (nonlinear_arith)
                requires
                    pow10(rest as nat) >= 1,
            ;
        } else {
            assert(rest == 0);
            assert(pow10(rest as nat) == 1);
            assert(val as nat * pow10(rest as nat) == val as nat);
        }
        assert(cap(val as nat * pow10(rest as nat)) == val);
        assert(cap(total * pow10(shift)) == val);
    }
    val
}

/// A number held at [`FIXED_CAP`].
pub open spec fn cap(x: nat) -> nat {
    if x > FIXED_CAP {
        FIXED_CAP as nat
    } else {
        x
    }
}

proof fn lemma_pow10_positive(n: nat)
    ensures
        pow10(n) >= 1,
    decreases n,
{
    if n > 0 {
        lemma_pow10_positive((n - 1) as nat);
    }
}

/// Holding at the cap before scaling up changes nothing.
proof fn lemma_cap_scale(x: nat, p: nat)
    requires
        p >= 1,
    ensures
        cap(cap(x) * p) == cap(x * p),
{
    if x > FIXED_CAP {
        assert(x * p >= x) by (nonlinear_arith)
            requires
                p >= 1,
        ;
        assert(FIXED_CAP * p >= FIXED_CAP) by (nonlinear_arith)
            requires
                p >= 1,
        ;
    }
}

/// Writes `n` in decimal.
pub fn u64_to_chars(n: u64) -> (r: Vec<char>)
    ensures
        r@ == decimal(n as nat),
    decreases n,
{
    if n < 10 {
        let c = digit_to_char(n);
        let mut r: Vec<char> = Vec::new();
        r.push(c);
        assert(r@ =~= seq![digit_char(n as nat)]);
        r
    } else {
        let mut r = u64_to_chars(n / 10);
        let c = digit_to_char(n % 10);
        r.push(c);
        r
    }
}

fn digit_to_char(d: u64) -> (c: char)
    requires
        d < 10,
    ensures
        c == digit_char(d as nat),
{
    if d == 0 {
        '0'
    } else if d == 1 {
        '1'
    } else if d == 2 {
        '2'
    } else if d == 3 {
        '3'
    } else if d == 4 {
        '4'
    } else if d == 5 {
        '5'
    } else if d == 6 {
        '6'
    } else if d == 7 {
        '7'
    } else if d == 8 {
        '8'
    } else {
        '9'
    }
}

/// Writes `n` in decimal, with a leading `-` when negative.
pub fn i64_to_chars(n: i64) -> (r: Vec<char>)
    ensures
        r@ == signed_decimal(n as int),
{
    if n < 0 {
        let mag: u64 = (0i128 - n as i128) as u64;
        let digits = u64_to_chars(mag);
        let mut r: Vec<char> = Vec::new();
        r.push('-');
        let r2 = crate::text::concat(r.as_slice(), digits.as_slice());
        assert(r@ =~= seq!['-']);
        r2
    } else {
        u64_to_chars(n as u64)
    }
}

} // verus!
