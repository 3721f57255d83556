//! Decimal numbers as `str::parse::<f64>` reads them, and exact range decisions
//! on their values.
//!
//! A decimal number is an optional sign followed by digits with an optional `.`
//! and fraction, at least one digit in all, then an optional exponent `e`/`E`,
//! optional sign, digits. It spells `m * 10^k` exactly, for the integer `m` of
//! its digits. (`parse::<f64>` also reads the words `inf`, `infinity` and `nan`;
//! they are not decimals, and every decision here refuses them.)
//!
//! `parse::<f64>` rounds that value to the nearest `f64`, ties to the even
//! significand. The decisions here compare the exact value with the point at
//! which rounding crosses a bound: the nearest `f64` is at most 90 exactly when
//! the value is at most `90 + 2^-47` (half the spacing of `f64` values just
//! above 90; the tie goes to 90, whose significand is even), at most 180 exactly
//! when the value is at most `180 + 2^-46`, and below zero exactly when the value
//! is below `-2^-1075` (half the smallest positive `f64`; values from there up to
//! zero round to `-0.0`, which is not below zero).

use vstd::prelude::*;
use crate::digits::{
    le_scaled, lemma_pow5_pow2, lemma_scaled_le_weaken, pow10, pow2, pow5, pow5_times, scaled_le,
    shift_clamp, shift_limit,
};
use crate::text::{
    all_digits, chars_of, digits_value, is_digit, trim, trim_text,
};

verus! {

/// Length of the sign at the start of `t` (0 or 1).
pub open spec fn sign_len(t: Seq<char>) -> int {
    if t.len() > 0 && (t[0] == '+' || t[0] == '-') {
        1
    } else {
        0
    }
}

/// Whether `t` starts with a minus sign.
pub open spec fn negative(t: Seq<char>) -> bool {
    t.len() > 0 && t[0] == '-'
}

/// `t` without its sign.
pub open spec fn unsigned_part(t: Seq<char>) -> Seq<char> {
    t.skip(sign_len(t))
}

/// The end of the run of digits in `b` that starts at `i`.
pub open spec fn digit_run(b: Seq<char>, i: int) -> int
    decreases b.len() - i,
{
    if 0 <= i < b.len() && is_digit(b[i]) {
        digit_run(b, i + 1)
    } else {
        i
    }
}

/// End of the integer digits.
pub open spec fn int_end(b: Seq<char>) -> int {
    digit_run(b, 0)
}

/// Whether a decimal point follows the integer digits.
pub open spec fn has_point(b: Seq<char>) -> bool {
    int_end(b) < b.len() && b[int_end(b)] == '.'
}

/// End of the mantissa (integer digits, point and fraction digits).
pub open spec fn frac_end(b: Seq<char>) -> int {
    if has_point(b) {
        digit_run(b, int_end(b) + 1)
    } else {
        int_end(b)
    }
}

/// The fraction digits.
pub open spec fn frac_digits(b: Seq<char>) -> Seq<char> {
    if has_point(b) {
        b.subrange(int_end(b) + 1, frac_end(b))
    } else {
        Seq::empty()
    }
}

/// All digits of the mantissa, the point left out.
pub open spec fn mantissa_digits(b: Seq<char>) -> Seq<char> {
    b.subrange(0, int_end(b)) + frac_digits(b)
}

/// Whether anything follows the mantissa.
pub open spec fn has_exponent(b: Seq<char>) -> bool {
    frac_end(b) < b.len()
}

/// Whether the exponent carries a minus sign.
pub open spec fn exp_negative(b: Seq<char>) -> bool {
    let k = frac_end(b) + 1;
    k < b.len() && b[k] == '-'
}

/// Where the exponent digits start.
pub open spec fn exp_start(b: Seq<char>) -> int {
    let k = frac_end(b) + 1;
    if k < b.len() && (b[k] == '+' || b[k] == '-') {
        k + 1
    } else {
        k
    }
}

/// Whether the unsigned text `b` is a number in the grammar above.
pub open spec fn number_syntax(b: Seq<char>) -> bool {
    &&& mantissa_digits(b).len() > 0
    &&& has_exponent(b) ==> {
        &&& (b[frac_end(b)] == 'e' || b[frac_end(b)] == 'E')
        &&& exp_start(b) < b.len()
        &&& digit_run(b, exp_start(b)) == b.len()
    }
}

/// The value of the exponent.
pub open spec fn exponent_value(b: Seq<char>) -> int {
    if has_exponent(b) {
        let v = digits_value(b.subrange(exp_start(b), b.len() as int)) as int;
        if exp_negative(b) {
            -v
        } else {
            v
        }
    } else {
        0
    }
}

/// The power of ten that the mantissa digits are scaled by.
pub open spec fn scale(b: Seq<char>) -> int {
    exponent_value(b) - frac_digits(b).len()
}

/// Whether `t` is a number whose magnitude is at most `limit / 10^places`.
pub open spec fn magnitude_within(t: Seq<char>, limit: nat, places: nat) -> bool {
    let b = unsigned_part(t);
    number_syntax(b) && scaled_le(digits_value(mantissa_digits(b)), scale(b) + places, limit)
}

/// `90 + 2^-47`, in units of `10^-47`.
pub open spec fn lat_limit() -> nat {
    90 * pow10(47) + pow5(47)
}

/// `180 + 2^-46`, in units of `10^-46`.
pub open spec fn lon_limit() -> nat {
    180 * pow10(46) + pow5(46)
}

/// Whether `raw`, trimmed, parses to an `f64` in `-90.0..=90.0`.
pub open spec fn latitude_spec(raw: Seq<char>) -> bool {
    magnitude_within(trim(raw), lat_limit(), 47)
}

/// Whether `raw`, trimmed, parses to an `f64` in `-180.0..=180.0`.
pub open spec fn longitude_spec(raw: Seq<char>) -> bool {
    magnitude_within(trim(raw), lon_limit(), 46)
}

/// Whether `raw`, trimmed, is a decimal number whose nearest `f64` is not below
/// `0.0` (`-0.0` included; the words `inf` and `nan` are not decimals).
pub open spec fn non_negative_spec(raw: Seq<char>) -> bool {
    let t = trim(raw);
    let b = unsigned_part(t);
    number_syntax(b) && (negative(t) ==> scaled_le(
        digits_value(mantissa_digits(b)),
        scale(b) + 1075,
        pow5(1075),
    ))
}

/// Every number from -90 to 90 is a latitude.
pub proof fn law_latitude_accepts_up_to_90(raw: Seq<char>)
    requires
        number_syntax(unsigned_part(trim(raw))),
        scaled_le(
            digits_value(mantissa_digits(unsigned_part(trim(raw)))),
            scale(unsigned_part(trim(raw))),
            90,
        ),
    ensures
        latitude_spec(raw),
{
    assert(90 * pow10(47) <= lat_limit());
    lemma_scaled_le_weaken(
        digits_value(mantissa_digits(unsigned_part(trim(raw)))),
        scale(unsigned_part(trim(raw))),
        90,
        47,
        lat_limit(),
    );
}

/// Every number from -180 to 180 is a longitude.
pub proof fn law_longitude_accepts_up_to_180(raw: Seq<char>)
    requires
        number_syntax(unsigned_part(trim(raw))),
        scaled_le(
            digits_value(mantissa_digits(unsigned_part(trim(raw)))),
            scale(unsigned_part(trim(raw))),
            180,
        ),
    ensures
        longitude_spec(raw),
{
    assert(180 * pow10(46) <= lon_limit());
    lemma_scaled_le_weaken(
        digits_value(mantissa_digits(unsigned_part(trim(raw)))),
        scale(unsigned_part(trim(raw))),
        180,
        46,
        lon_limit(),
    );
}

/// Every number without a minus sign is a non-negative reading.
pub proof fn law_unsigned_numbers_are_non_negative(raw: Seq<char>)
    requires
        number_syntax(unsigned_part(trim(raw))),
        !negative(trim(raw)),
    ensures
        non_negative_spec(raw),
{
}

proof fn lemma_digit_run(b: Seq<char>, i: int, j: int)
    requires
        0 <= i <= j <= b.len(),
        forall|k: int| i <= k < j ==> is_digit(#[trigger] b[k]),
        j == b.len() || !is_digit(b[j]),
    ensures
        digit_run(b, i) == j,
    decreases j - i,
{
    if i < j {
        lemma_digit_run(b, i + 1, j);
    }
}

/// End of the run of digits of `b` from `i`.
fn digit_run_exec(b: &Vec<char>, i: usize) -> (r: usize)
    requires
        i <= b.len(),
    ensures
        r == digit_run(b@, i as int),
        i <= r <= b.len(),
        forall|k: int| i <= k < r ==> is_digit(#[trigger] b@[k]),
{
    let mut j = i;
    while j < b.len() && '0' <= b[j] && b[j] <= '9'
        invariant
            i <= j <= b.len(),
            forall|k: int| i <= k < j ==> is_digit(#[trigger] b@[k]),
        decreases b.len() - j,
    {
        j = j + 1;
    }
    proof {
        lemma_digit_run(b@, i as int, j as int);
    }
    j
}

/// Appends `b[from..to]` to `out`.
fn push_range(out: &mut Vec<char>, b: &Vec<char>, from: usize, to: usize)
    requires
        from <= to <= b.len(),
    ensures
        final(out)@ == old(out)@ + b@.subrange(from as int, to as int),
{
    let mut k = from;
    while k < to
        invariant
            from <= k <= to <= b.len(),
            out@ == old(out)@ + b@.subrange(from as int, k as int),
        decreases to - k,
    {
        out.push(b[k]);
        assert(b@.subrange(from as int, k + 1) =~= b@.subrange(from as int, k as int).push(
            b@[k as int],
        ));
        k = k + 1;
    }
}

/// The cap at which a long exponent stops being counted.
pub open spec fn exp_cap() -> int {
    0x10_0000_0000_0000_0000_0000_0000
}

/// Value of the digits `b[from..to]`, counted up to `exp_cap()`.
fn capped_value(b: &Vec<char>, from: usize, to: usize) -> (r: u128)
    requires
        from <= to <= b.len(),
        forall|k: int| from <= k < to ==> is_digit(#[trigger] b@[k]),
    ensures
        (r < exp_cap() && r == digits_value(b@.subrange(from as int, to as int))) || (r
            == exp_cap() && digits_value(b@.subrange(from as int, to as int)) >= exp_cap()),
{
    let cap: u128 = 0x10_0000_0000_0000_0000_0000_0000;
    let mut acc: u128 = 0;
    let mut k = from;
    assert(b@.subrange(from as int, from as int) =~= Seq::<char>::empty());
    while k < to
        invariant
            from <= k <= to <= b.len(),
            cap == exp_cap(),
            forall|j: int| from <= j < to ==> is_digit(#[trigger] b@[j]),
            (acc < cap && acc == digits_value(b@.subrange(from as int, k as int))) || (acc == cap
                && digits_value(b@.subrange(from as int, k as int)) >= cap),
        decreases to - k,
    {
        let c = b[k];
        assert(is_digit(b@[k as int]));
        let d: u128 = (c as u128) - 48;
        proof {
            let s1 = b@.subrange(from as int, k + 1);
            assert(s1.drop_last() =~= b@.subrange(from as int, k as int));
            assert(s1.last() == c);
        }
        if acc < cap {
            let next = acc * 10 + d;
            if next >= cap {
                acc = cap;
            } else {
                acc = next;
            }
        }
        k = k + 1;
    }
    acc
}

/// Reads the unsigned text `b` as a number: its mantissa digits and its scale,
/// where a scale beyond `2^99` stands for any larger one of the same sign.
fn scan_number(b: &Vec<char>) -> (r: Option<(Vec<char>, i128)>)
    requires
        b.len() < 0x1_0000_0000_0000_0000,
    ensures
        r is Some <==> number_syntax(b@),
        r matches Some((m, s)) ==> {
            &&& m@ == mantissa_digits(b@)
            &&& all_digits(m@)
            &&& -shift_limit() + 2000 <= s <= shift_limit() - 2000
            &&& (s == scale(b@) || (s >= shift_clamp() && scale(b@) >= s) || (s
                <= -shift_clamp() - 2000 && scale(b@) <= s))
        },
{
    let n = b.len();
    let ie = digit_run_exec(b, 0);
    let point = ie < n && b[ie] == '.';
    let fe = if point {
        digit_run_exec(b, ie + 1)
    } else {
        ie
    };
    let mut m: Vec<char> = Vec::new();
    push_range(&mut m, b, 0, ie);
    if point {
        push_range(&mut m, b, ie + 1, fe);
    }
    let frac_len: usize = if point {
        fe - ie - 1
    } else {
        0
    };
    proof {
        assert(int_end(b@) == ie);
        assert(has_point(b@) == point);
        assert(frac_end(b@) == fe);
        assert(m@ =~= mantissa_digits(b@));
        assert(frac_digits(b@).len() == frac_len);
        assert(all_digits(m@)) by {
            assert forall|k: int| 0 <= k < m@.len() implies is_digit(#[trigger] m@[k]) by {
                if k < ie {
                    assert(m@[k] == b@[k]);
                } else {
                    assert(m@[k] == b@[k + 1]);
                }
            }
        }
    }
    if m.len() == 0 {
        return None;
    }
    if fe == n {
        let s: i128 = -(frac_len as i128);
        return Some((m, s));
    }
    if !(b[fe] == 'e' || b[fe] == 'E') {
        return None;
    }
    let k = fe + 1;
    let neg = k < n && b[k] == '-';
    let ds = if k < n && (b[k] == '+' || b[k] == '-') {
        k + 1
    } else {
        k
    };
    if ds >= n {
        return None;
    }
    let de = digit_run_exec(b, ds);
    if de != n {
        return None;
    }
    let v = capped_value(b, ds, de);
    let s: i128 = if neg {
        -(v as i128) - (frac_len as i128)
    } else {
        (v as i128) - (frac_len as i128)
    };
    Some((m, s))
}

/// The unsigned part of `t`, and whether `t` is negative.
fn split_sign(t: &Vec<char>) -> (r: (bool, Vec<char>))
    ensures
        r.0 == negative(t@),
        r.1@ == unsigned_part(t@),
{
    let start: usize = if t.len() > 0 && (t[0] == '+' || t[0] == '-') {
        1
    } else {
        0
    };
    let mut b: Vec<char> = Vec::new();
    push_range(&mut b, t, start, t.len());
    assert(b@ =~= unsigned_part(t@));
    (t.len() > 0 && t[0] == '-', b)
}

proof fn lemma_limits()
    ensures
        pow5(47) * 12666373951979521 == lat_limit(),
        pow5(46) * 12666373951979521 == lon_limit(),
{
    reveal_with_fuel(pow2, 48);
    assert(pow2(47) == 140737488355328);
    assert(pow2(46) == 70368744177664);
    lemma_pow5_pow2(47);
    lemma_pow5_pow2(46);
    let a = pow5(47);
    let b = pow5(46);
    assert(a * 12666373951979521 == 90 * (a * 140737488355328) + a) by (nonlinear_arith);
    assert(b * 12666373951979521 == 180 * (b * 70368744177664) + b) by (nonlinear_arith);
}

/// The characters of `s` without surrounding whitespace.
fn trimmed_chars(s: &str) -> (r: Vec<char>)
    ensures
        r@ == trim(s@),
{
    let t = trim_text(s);
    chars_of(t.as_str())
}

/// Whether `raw`, trimmed, is a number of magnitude at most `limit / 10^places`.
fn magnitude_within_exec(raw: &str, limit: &Vec<char>, places: u32, Ghost(lv): Ghost<nat>) -> (r:
    bool)
    requires
        all_digits(limit@),
        digits_value(limit@) == lv,
        places <= 2000,
    ensures
        r == magnitude_within(trim(raw@), lv, places as nat),
{
    let t = trimmed_chars(raw);
    let (_neg, b) = split_sign(&t);
    match scan_number(&b) {
        None => false,
        Some((m, s)) => {
            let shifted: i128 = s + (places as i128);
            le_scaled(&m, limit, shifted, Ghost(scale(b@) + places))
        },
    }
}


/// Whether `raw`, trimmed, parses to an `f64` in `-90.0..=90.0`.
pub fn latitude_in_range(raw: &str) -> (ok: bool)
    ensures
        ok == latitude_spec(raw@),
{
    let limit = pow5_times(47, 12666373951979521);
    proof {
        lemma_limits();
    }
    magnitude_within_exec(raw, &limit, 47, Ghost(lat_limit()))
}

/// Whether `raw`, trimmed, parses to an `f64` in `-180.0..=180.0`.
pub fn longitude_in_range(raw: &str) -> (ok: bool)
    ensures
        ok == longitude_spec(raw@),
{
    let limit = pow5_times(46, 12666373951979521);
    proof {
        lemma_limits();
    }
    magnitude_within_exec(raw, &limit, 46, Ghost(lon_limit()))
}

/// Whether `raw`, trimmed, is a decimal number whose nearest `f64` is not below zero.
pub fn non_negative_float(raw: &str) -> (ok: bool)
    ensures
        ok == non_negative_spec(raw@),
{
    let t = trimmed_chars(raw);
    let (neg, b) = split_sign(&t);
    match scan_number(&b) {
        None => false,
        Some((m, s)) => {
            if !neg {
                return true;
            }
            let limit = pow5_times(1075, 1);
            let shifted: i128 = s + 1075;
            le_scaled(&m, &limit, shifted, Ghost(scale(b@) + 1075))
        },
    }
}

} // verus!
