//! Exact arithmetic on decimal digit strings: values, powers of ten and an
//! exact comparison of `m * 10^s` with `c` for digit strings `m` and `c`.

use vstd::prelude::*;
use crate::text::{all_digits, digits_value, is_digit};

verus! {

/// `10^n`.
pub open spec fn pow10(n: nat) -> nat
    decreases n,
{
    if n == 0 {
        1
    } else {
        10 * pow10((n - 1) as nat)
    }
}

/// Whether `m * 10^s <= c`, for any integer `s`.
pub open spec fn scaled_le(m: nat, s: int, c: nat) -> bool {
    if s >= 0 {
        m * pow10(s as nat) <= c
    } else {
        m <= c * pow10((-s) as nat)
    }
}

/// `k` zero digits.
pub open spec fn zeros(k: nat) -> Seq<char> {
    Seq::new(k, |i: int| '0')
}

pub proof fn lemma_pow10_pos(n: nat)
    ensures
        pow10(n) >= 1,
    decreases n,
{
    if n > 0 {
        lemma_pow10_pos((n - 1) as nat);
    }
}

pub proof fn lemma_pow10_add(a: nat, b: nat)
    ensures
        pow10(a) * pow10(b) == pow10(a + b),
    decreases b,
{
    if b > 0 {
        let b1 = (b - 1) as nat;
        lemma_pow10_add(a, b1);
        assert(pow10(a + b) == 10 * pow10(a + b1));
        assert(pow10(b) == 10 * pow10(b1));
        let x = pow10(a);
        let y = pow10(b1);
        assert(x * (10 * y) == 10 * (x * y)) by (nonlinear_arith);
        assert(pow10(a) * pow10(b) == x * (10 * y));
    } else {
        assert(pow10(b) == 1);
        assert(a + b == a);
    }
}

pub proof fn lemma_pow10_mono(a: nat, b: nat)
    requires
        a <= b,
    ensures
        pow10(a) <= pow10(b),
    decreases b,
{
    if a < b {
        lemma_pow10_mono(a, (b - 1) as nat);
        lemma_pow10_pos((b - 1) as nat);
    }
}

/// The value of a concatenation of digit strings.
pub proof fn lemma_value_concat(a: Seq<char>, b: Seq<char>)
    ensures
        digits_value(a + b) == digits_value(a) * pow10(b.len()) + digits_value(b),
    decreases b.len(),
{
    if b.len() == 0 {
        assert(a + b =~= a);
        assert(digits_value(b) == 0);
        assert(pow10(b.len()) == 1);
    } else {
        let bl = b.drop_last();
        assert((a + b).drop_last() =~= a + bl);
        assert((a + b).last() == b.last());
        lemma_value_concat(a, bl);
        let va = digits_value(a);
        let p = pow10(bl.len());
        let vb = digits_value(bl);
        let d = (b.last() as int - 48) as nat;
        assert(digits_value(a + b) == digits_value(a + bl) * 10 + d);
        assert(digits_value(b) == vb * 10 + d);
        assert(pow10(b.len()) == 10 * p);
        assert((va * p + vb) * 10 + d == va * (10 * p) + (vb * 10 + d)) by (nonlinear_arith);
        assert(digits_value(a + bl) == va * p + vb);
    }
}

/// A digit string spells less than `10^len`.
pub proof fn lemma_value_upper(a: Seq<char>)
    requires
        all_digits(a),
    ensures
        digits_value(a) < pow10(a.len()),
    decreases a.len(),
{
    if a.len() > 0 {
        let al = a.drop_last();
        assert(is_digit(a[a.len() - 1]));
        assert(all_digits(al)) by {
            assert forall|i: int| 0 <= i < al.len() implies is_digit(#[trigger] al[i]) by {
                assert(al[i] == a[i]);
            }
        }
        lemma_value_upper(al);
    }
}

/// A digit string with a leading non-zero digit spells at least `10^(len - 1)`.
pub proof fn lemma_value_lower(a: Seq<char>)
    requires
        all_digits(a),
        a.len() >= 1,
        a[0] != '0',
    ensures
        digits_value(a) >= pow10((a.len() - 1) as nat),
{
    let head = a.take(1);
    let rest = a.skip(1);
    assert(head + rest =~= a);
    lemma_value_concat(head, rest);
    assert(head.drop_last() =~= Seq::<char>::empty());
    assert(is_digit(a[0]));
    assert(digits_value(head) >= 1);
    let p = pow10(rest.len());
    lemma_pow10_pos(rest.len());
    assert(digits_value(head) * p >= p) by (nonlinear_arith)
        requires
            digits_value(head) >= 1,
    ;
}

pub proof fn lemma_zeros_value(k: nat)
    ensures
        digits_value(zeros(k)) == 0,
        all_digits(zeros(k)),
    decreases k,
{
    if k > 0 {
        assert(zeros(k).drop_last() =~= zeros((k - 1) as nat));
        lemma_zeros_value((k - 1) as nat);
    }
}

/// Leading zeros do not change the value.
pub proof fn lemma_leading_zeros(k: nat, a: Seq<char>)
    ensures
        digits_value(zeros(k) + a) == digits_value(a),
{
    lemma_value_concat(zeros(k), a);
    lemma_zeros_value(k);
}

/// Trailing zeros multiply by a power of ten.
pub proof fn lemma_trailing_zeros(a: Seq<char>, k: nat)
    ensures
        digits_value(a + zeros(k)) == digits_value(a) * pow10(k),
{
    lemma_value_concat(a, zeros(k));
    lemma_zeros_value(k);
}

/// Of two digit strings of one length, the one that is smaller at the first
/// place where they differ spells the smaller number.
pub proof fn lemma_lex_lt(a: Seq<char>, b: Seq<char>, i: int)
    requires
        a.len() == b.len(),
        all_digits(a),
        all_digits(b),
        0 <= i < a.len(),
        a.take(i) == b.take(i),
        a[i] < b[i],
    ensures
        digits_value(a) < digits_value(b),
{
    let n = a.len();
    let ah = a.take(i + 1);
    let bh = b.take(i + 1);
    let at = a.skip(i + 1);
    let bt = b.skip(i + 1);
    assert(ah + at =~= a);
    assert(bh + bt =~= b);
    lemma_value_concat(ah, at);
    lemma_value_concat(bh, bt);
    assert(ah.drop_last() =~= a.take(i));
    assert(bh.drop_last() =~= b.take(i));
    let va = digits_value(ah);
    let vb = digits_value(bh);
    assert(va < vb);
    assert(all_digits(at)) by {
        assert forall|j: int| 0 <= j < at.len() implies is_digit(#[trigger] at[j]) by {
            assert(at[j] == a[j + i + 1]);
        }
    }
    lemma_value_upper(at);
    let p = pow10(at.len());
    assert(bt.len() == at.len());
    let ra = digits_value(at);
    let rb = digits_value(bt);
    assert(va * p + ra < vb * p + rb) by (nonlinear_arith)
        requires
            va + 1 <= vb,
            ra < p,
    ;
}

/// Index of the first non-zero digit of `d` (its length when all are zero).
pub fn first_nonzero(d: &Vec<char>) -> (p: usize)
    ensures
        p <= d.len(),
        forall|j: int| 0 <= j < p ==> d@[j] == '0',
        p == d.len() || d@[p as int] != '0',
{
    let mut p: usize = 0;
    while p < d.len() && d[p] == '0'
        invariant
            p <= d.len(),
            forall|j: int| 0 <= j < p ==> d@[j] == '0',
        decreases d.len() - p,
    {
        p = p + 1;
    }
    p
}

proof fn lemma_strip_zeros(d: Seq<char>, p: int)
    requires
        0 <= p <= d.len(),
        forall|j: int| 0 <= j < p ==> d[j] == '0',
        all_digits(d),
    ensures
        digits_value(d) == digits_value(d.skip(p)),
        all_digits(d.skip(p)),
{
    assert(zeros(p as nat) + d.skip(p) =~= d);
    lemma_leading_zeros(p as nat, d.skip(p));
}

/// The bound on a clamped shift: beyond it every comparison is settled by length.
pub open spec fn shift_clamp() -> int {
    0x8_0000_0000_0000_0000_0000_0000
}

/// The largest shift magnitude that `le_scaled` takes.
pub open spec fn shift_limit() -> int {
    0x100_0000_0000_0000_0000_0000_0000_0000
}

/// Decides `m * 10^s <= c` exactly. The shift `s` may stand for a larger true
/// shift `st` of the same sign once it is beyond `shift_clamp()`.
pub fn le_scaled(m: &Vec<char>, c: &Vec<char>, s: i128, Ghost(st): Ghost<int>) -> (r: bool)
    requires
        all_digits(m@),
        all_digits(c@),
        -shift_limit() <= s <= shift_limit(),
        s == st || (s >= shift_clamp() && st >= s) || (s <= -shift_clamp() && st <= s),
    ensures
        r == scaled_le(digits_value(m@), st, digits_value(c@)),
{
    let p = first_nonzero(m);
    let q = first_nonzero(c);
    let ghost mm = m@.skip(p as int);
    let ghost cc = c@.skip(q as int);
    proof {
        lemma_strip_zeros(m@, p as int);
        lemma_strip_zeros(c@, q as int);
    }
    let ghost mv = digits_value(mm);
    let ghost cv = digits_value(cc);
    let l: usize = m.len() - p;
    let k: usize = c.len() - q;
    if l == 0 {
        proof {
            assert(mm.len() == 0);
            assert(mv == 0);
            assert(digits_value(m@) == 0);
            if st < 0 {
                assert(0 <= cv * pow10((-st) as nat)) by (nonlinear_arith);
            } else {
                let pw = pow10(st as nat);
                assert(0 * pw == 0) by (nonlinear_arith);
            }
        }
        return true;
    }
    proof {
        lemma_value_lower(mm);
        lemma_value_upper(mm);
        lemma_value_upper(cc);
        if k > 0 {
            lemma_value_lower(cc);
        }
        assert(mv >= 1) by {
            lemma_pow10_pos((l - 1) as nat);
        }
    }
    if s >= 0 {
        if k == 0 {
            proof {
                assert(cc.len() == 0);
                assert(cv == 0);
                lemma_pow10_pos(st as nat);
                assert(mv * pow10(st as nat) >= 1) by (nonlinear_arith)
                    requires
                        mv >= 1,
                        pow10(st as nat) >= 1,
                ;
            }
            return false;
        }
        let len_a: i128 = (l as i128) + s;
        let len_b: i128 = k as i128;
        if len_a > len_b {
            proof {
                let sn = st as nat;
                lemma_pow10_add((l - 1) as nat, sn);
                lemma_pow10_mono(k as nat, (l - 1 + sn) as nat);
                assert(mv * pow10(sn) >= pow10((l - 1) as nat) * pow10(sn)) by (nonlinear_arith)
                    requires
                        mv >= pow10((l - 1) as nat),
                ;
            }
            return false;
        }
        if len_a < len_b {
            proof {
                assert(s == st);
                let sn = st as nat;
                lemma_pow10_add(l as nat, sn);
                lemma_pow10_mono((l + sn) as nat, (k - 1) as nat);
                lemma_pow10_pos(sn);
                assert(mv * pow10(sn) < pow10(l as nat) * pow10(sn)) by (nonlinear_arith)
                    requires
                        mv < pow10(l as nat),
                        pow10(sn) >= 1,
                ;
                lemma_pow10_pos(sn);
            }
            return true;
        }
        let ghost sn = s as nat;
        let ghost a = mm + zeros(sn);
        proof {
            assert(s == st);
            lemma_trailing_zeros(mm, sn);
            lemma_zeros_value(sn);
            assert(a.len() == cc.len());
        }
        let mut i: usize = 0;
        while i < k
            invariant
                k == cc.len() == a.len(),
                l == mm.len(),
                p + l == m.len(),
                q + k == c.len(),
                mm == m@.skip(p as int),
                cc == c@.skip(q as int),
                all_digits(mm),
                all_digits(cc),
                a == mm + zeros(sn),
                s == st,
                sn == s,
                digits_value(m@) == digits_value(mm),
                digits_value(c@) == digits_value(cc),
                digits_value(a) == digits_value(mm) * pow10(sn),
                i <= k,
                a.take(i as int) == cc.take(i as int),
            decreases k - i,
        {
            let x: char = if i < l {
                m[p + i]
            } else {
                '0'
            };
            let y: char = c[q + i];
            proof {
                assert(x == a[i as int]);
                assert(y == cc[i as int]);
            }
            if x != y {
                proof {
                    assert(all_digits(a)) by {
                        assert forall|j: int| 0 <= j < a.len() implies is_digit(#[trigger] a[j]) by {
                            if j < l {
                                assert(a[j] == mm[j]);
                            } else {
                                assert(a[j] == zeros(sn)[j - l]);
                            }
                        }
                    }
                    if x < y {
                        lemma_lex_lt(a, cc, i as int);
                    } else {
                        lemma_lex_lt(cc, a, i as int);
                    }
                }
                return x < y;
            }
            proof {
                assert(a.take(i + 1) =~= a.take(i as int).push(x));
                assert(cc.take(i + 1) =~= cc.take(i as int).push(y));
            }
            i = i + 1;
        }
        proof {
            assert(a =~= a.take(k as int));
            assert(cc =~= cc.take(k as int));
        }
        true
    } else {
        if k == 0 {
            proof {
                assert(cv == 0);
                let pw = pow10((-st) as nat);
                assert(cv * pw == 0) by (nonlinear_arith)
                    requires
                        cv == 0,
                ;
            }
            return false;
        }
        let t: i128 = -s;
        let len_a: i128 = l as i128;
        let len_b: i128 = (k as i128) + t;
        if len_a > len_b {
            proof {
                assert(s == st);
                let tn = t as nat;
                lemma_pow10_add(k as nat, tn);
                lemma_pow10_mono((k + tn) as nat, (l - 1) as nat);
                lemma_pow10_pos(tn);
                assert(cv * pow10(tn) < pow10(k as nat) * pow10(tn)) by (nonlinear_arith)
                    requires
                        cv < pow10(k as nat),
                        pow10(tn) >= 1,
                ;
                lemma_pow10_pos(tn);
            }
            return false;
        }
        if len_a < len_b {
            proof {
                let tn = (-st) as nat;
                lemma_pow10_add((k - 1) as nat, tn);
                lemma_pow10_mono(l as nat, (k - 1 + tn) as nat);
                assert(cv * pow10(tn) >= pow10((k - 1) as nat) * pow10(tn)) by (nonlinear_arith)
                    requires
                        cv >= pow10((k - 1) as nat),
                ;
            }
            return true;
        }
        let ghost tn = t as nat;
        let ghost b = cc + zeros(tn);
        proof {
            assert(s == st);
            lemma_trailing_zeros(cc, tn);
            lemma_zeros_value(tn);
            assert(b.len() == mm.len());
        }
        let mut i: usize = 0;
        while i < l
            invariant
                l == mm.len() == b.len(),
                k == cc.len(),
                p + l == m.len(),
                q + k == c.len(),
                mm == m@.skip(p as int),
                cc == c@.skip(q as int),
                all_digits(mm),
                all_digits(cc),
                b == cc + zeros(tn),
                s == st,
                tn == -s,
                s < 0,
                digits_value(m@) == digits_value(mm),
                digits_value(c@) == digits_value(cc),
                digits_value(b) == digits_value(cc) * pow10(tn),
                i <= l,
                mm.take(i as int) == b.take(i as int),
            decreases l - i,
        {
            let x: char = m[p + i];
            let y: char = if i < k {
                c[q + i]
            } else {
                '0'
            };
            proof {
                assert(x == mm[i as int]);
                assert(y == b[i as int]);
            }
            if x != y {
                proof {
                    assert(all_digits(b)) by {
                        assert forall|j: int| 0 <= j < b.len() implies is_digit(#[trigger] b[j]) by {
                            if j < k {
                                assert(b[j] == cc[j]);
                            } else {
                                assert(b[j] == zeros(tn)[j - k]);
                            }
                        }
                    }
                    if x < y {
                        lemma_lex_lt(mm, b, i as int);
                    } else {
                        lemma_lex_lt(b, mm, i as int);
                    }
                }
                return x < y;
            }
            proof {
                assert(mm.take(i + 1) =~= mm.take(i as int).push(x));
                assert(b.take(i + 1) =~= b.take(i as int).push(y));
            }
            i = i + 1;
        }
        proof {
            assert(mm =~= mm.take(l as int));
            assert(b =~= b.take(l as int));
        }
        true
    }
}


/// If `m * 10^k <= a` and `a * 10^places <= c`, then `m * 10^(k + places) <= c`.
pub proof fn lemma_scaled_le_weaken(m: nat, k: int, a: nat, places: nat, c: nat)
    requires
        scaled_le(m, k, a),
        a * pow10(places) <= c,
    ensures
        scaled_le(m, k + places, c),
{
    lemma_pow10_pos(places);
    if k >= 0 {
        let kn = k as nat;
        lemma_pow10_add(kn, places);
        let x = pow10(kn);
        let y = pow10(places);
        assert(m * (x * y) <= a * y) by (nonlinear_arith)
            requires
                m * x <= a,
        ;
        assert(m * pow10(kn + places) == m * (x * y));
    } else if k + places >= 0 {
        let t = (-k) as nat;
        let u = (k + places) as nat;
        lemma_pow10_add(t, u);
        assert(t + u == places);
        let x = pow10(t);
        let z = pow10(u);
        assert(m * z <= a * (x * z)) by (nonlinear_arith)
            requires
                m <= a * x,
        ;
    } else {
        let t = (-k) as nat;
        let v = (-(k + places)) as nat;
        lemma_pow10_add(places, v);
        assert(places + v == t);
        let y = pow10(places);
        let w = pow10(v);
        assert(a * (y * w) <= c * w) by (nonlinear_arith)
            requires
                a * y <= c,
        ;
    }
}

/// `5^n`.
pub open spec fn pow5(n: nat) -> nat
    decreases n,
{
    if n == 0 {
        1
    } else {
        5 * pow5((n - 1) as nat)
    }
}

/// `2^n`.
pub open spec fn pow2(n: nat) -> nat
    decreases n,
{
    if n == 0 {
        1
    } else {
        2 * pow2((n - 1) as nat)
    }
}

pub proof fn lemma_pow5_pow2(n: nat)
    ensures
        pow5(n) * pow2(n) == pow10(n),
    decreases n,
{
    if n > 0 {
        lemma_pow5_pow2((n - 1) as nat);
        let a = pow5((n - 1) as nat);
        let b = pow2((n - 1) as nat);
        assert((5 * a) * (2 * b) == 10 * (a * b)) by (nonlinear_arith);
        assert(pow5(n) == 5 * a);
        assert(pow2(n) == 2 * b);
        assert(pow10(n) == 10 * pow10((n - 1) as nat));
    } else {
        assert(pow5(n) == 1);
        assert(pow2(n) == 1);
        assert(pow10(n) == 1);
    }
}

/// The value of little-endian decimal digits.
pub open spec fn le_value(d: Seq<u8>) -> nat
    decreases d.len(),
{
    if d.len() == 0 {
        0
    } else {
        d[0] as nat + 10 * le_value(d.drop_first())
    }
}

/// Whether every entry of `d` is a decimal digit.
pub open spec fn small_digits(d: Seq<u8>) -> bool {
    forall|i: int| 0 <= i < d.len() ==> #[trigger] d[i] < 10
}

pub proof fn lemma_le_push(d: Seq<u8>, x: u8)
    ensures
        le_value(d.push(x)) == le_value(d) + x * pow10(d.len()),
    decreases d.len(),
{
    if d.len() == 0 {
        assert(d.push(x).drop_first() =~= Seq::<u8>::empty());
        assert(le_value(Seq::<u8>::empty()) == 0);
        assert(le_value(d.push(x)) == x);
        assert(pow10(0) == 1);
        assert(le_value(d) == 0);
    } else {
        let r = d.drop_first();
        assert(d.push(x).drop_first() =~= r.push(x));
        lemma_le_push(r, x);
        let p = pow10(r.len());
        assert(pow10(d.len()) == 10 * p);
        assert(10 * (le_value(r) + x * p) == 10 * le_value(r) + x * (10 * p)) by (nonlinear_arith);
        assert(d.push(x)[0] == d[0]);
        assert(le_value(d.push(x)) == d[0] + 10 * le_value(r.push(x)));
        assert(le_value(d) == d[0] + 10 * le_value(r));
    }
}

/// Multiplies little-endian decimal digits by `f`.
fn mul_small(d: &Vec<u8>, f: u64) -> (res: Vec<u8>)
    requires
        small_digits(d@),
        f >= 1,
        d.len() < 0x1000_0000,
    ensures
        small_digits(res@),
        le_value(res@) == le_value(d@) * f,
        res.len() <= d.len() + 20,
{
    let mut out: Vec<u8> = Vec::new();
    let mut carry: u128 = 0;
    let mut i: usize = 0;
    assert(d@.take(0) =~= Seq::<u8>::empty());
    assert(le_value(out@) + carry * pow10(0) == le_value(d@.take(0)) * f) by {
        assert(le_value(Seq::<u8>::empty()) == 0);
    }
    while i < d.len()
        invariant
            i <= d.len() < 0x1000_0000,
            out.len() == i,
            small_digits(d@),
            small_digits(out@),
            f >= 1,
            carry < f,
            le_value(out@) + carry * pow10(i as nat) == le_value(d@.take(i as int)) * f,
        decreases d.len() - i,
    {
        let di = d[i];
        assert((di as u128) * (f as u128) <= 9 * (f as u128)) by (nonlinear_arith)
            requires
                di < 10,
        ;
        let x: u128 = (di as u128) * (f as u128) + carry;
        assert(x < 10 * (f as u128)) by (nonlinear_arith)
            requires
                x == (di as u128) * (f as u128) + carry,
                di < 10,
                carry < f,
        ;
        let low: u8 = (x % 10) as u8;
        proof {
            let p = pow10(i as nat);
            lemma_le_push(out@, low);
            lemma_le_push(d@.take(i as int), di);
            assert(d@.take(i + 1) =~= d@.take(i as int).push(di));
            assert(pow10((i + 1) as nat) == 10 * p);
            let lo = le_value(out@);
            let ld = le_value(d@.take(i as int));
            assert(lo + low * p + (x / 10) * (10 * p) == (ld + di * p) * f) by (nonlinear_arith)
                requires
                    lo + carry * p == ld * f,
                    x == di * f + carry,
                    low == x % 10,
            ;
        }
        out.push(low);
        carry = x / 10;
        i = i + 1;
    }
    assert(d@.take(i as int) =~= d@);
    let mut guard: usize = 0;
    assert(pow10(20) == 100000000000000000000) by {
        reveal_with_fuel(pow10, 21);
    }
    while carry > 0
        invariant
            small_digits(out@),
            out.len() == d.len() + guard,
            guard <= 20,
            le_value(out@) + carry * pow10(out.len() as nat) == le_value(d@) * f,
            carry < pow10((20 - guard) as nat),
        decreases carry,
    {
        let low: u8 = (carry % 10) as u8;
        proof {
            let n = out.len() as nat;
            let p = pow10(n);
            lemma_le_push(out@, low);
            assert(pow10(n + 1) == 10 * p);
            let lo = le_value(out@);
            assert(lo + low * p + (carry / 10) * (10 * p) == lo + carry * p) by (nonlinear_arith)
                requires
                    low == carry % 10,
            ;
            assert(guard < 20) by {
                if guard >= 20 {
                    assert(pow10(0) == 1);
                }
            }
            let q = pow10((20 - guard - 1) as nat);
            assert(pow10((20 - guard) as nat) == 10 * q);
            assert(carry / 10 < q) by (nonlinear_arith)
                requires
                    carry < 10 * q,
            ;
        }
        out.push(low);
        carry = carry / 10;
        guard = guard + 1;
    }
    out
}

/// Decimal digits (most significant first) of little-endian digits.
pub open spec fn be_chars(d: Seq<u8>) -> Seq<char>
    decreases d.len(),
{
    if d.len() == 0 {
        Seq::empty()
    } else {
        be_chars(d.drop_first()).push(((d[0] as int) + 48) as char)
    }
}

pub proof fn lemma_be_chars(d: Seq<u8>)
    requires
        small_digits(d),
    ensures
        digits_value(be_chars(d)) == le_value(d),
        all_digits(be_chars(d)),
        be_chars(d).len() == d.len(),
    decreases d.len(),
{
    if d.len() > 0 {
        let r = d.drop_first();
        assert(small_digits(r)) by {
            assert forall|i: int| 0 <= i < r.len() implies #[trigger] r[i] < 10 by {
                assert(r[i] == d[i + 1]);
            }
        }
        lemma_be_chars(r);
        assert(d[0] < 10);
        let b = be_chars(d);
        assert(b.drop_last() =~= be_chars(r));
        assert(all_digits(b)) by {
            assert forall|i: int| 0 <= i < b.len() implies is_digit(#[trigger] b[i]) by {
                if i < b.len() - 1 {
                    assert(b[i] == be_chars(r)[i]);
                }
            }
        }
    }
}

/// The decimal digits of `5^k * f`, most significant first.
pub fn pow5_times(k: u32, f: u64) -> (res: Vec<char>)
    requires
        f >= 1,
        k <= 2000,
    ensures
        all_digits(res@),
        digits_value(res@) == pow5(k as nat) * f,
{
    let mut d: Vec<u8> = Vec::new();
    d.push(1);
    assert(le_value(d@) == 1) by {
        assert(d@.drop_first() =~= Seq::<u8>::empty());
        assert(d@[0] == 1);
        assert(le_value(Seq::<u8>::empty()) == 0);
    }
    let mut i: u32 = 0;
    while i < k
        invariant
            i <= k <= 2000,
            small_digits(d@),
            d.len() <= 1 + 20 * i,
            le_value(d@) == pow5(i as nat),
        decreases k - i,
    {
        d = mul_small(&d, 5);
        i = i + 1;
    }
    let d = mul_small(&d, f);
    let mut out: Vec<char> = Vec::new();
    let mut j: usize = d.len();
    while j > 0
        invariant
            j <= d.len(),
            small_digits(d@),
            out@ == be_chars(d@.skip(j as int)),
        decreases j,
    {
        j = j - 1;
        let dj = d[j];
        let c: char = (dj + 48) as char;
        proof {
            assert(d@.skip(j as int).drop_first() =~= d@.skip(j + 1));
        }
        out.push(c);
    }
    proof {
        assert(d@.skip(0) =~= d@);
        lemma_be_chars(d@);
    }
    out
}

} // verus!
