//! Binary floating point in integers.
//!
//! A storage quantity such as `1.5Gi` is read as an IEEE 754 double, multiplied by
//! a double, and truncated to a `u64`. This module states that computation over
//! fractions of natural numbers and carries it out with `u128` and decimal digits.
//! The exponent is unbounded here. Where a double would overflow to infinity the
//! result saturates either way, and where it would be subnormal the result is
//! zero either way.

use vstd::arithmetic::div_mod::{
    lemma_div_by_multiple, lemma_div_denominator, lemma_div_is_ordered, lemma_fundamental_div_mod,
    lemma_fundamental_div_mod_converse, lemma_mod_bound,
};
use vstd::arithmetic::power2::{
    lemma2_to64, lemma2_to64_rest, lemma_pow2_adds, lemma_pow2_pos, pow2,
};
use vstd::prelude::*;

verus! {

/// The integer nearest to `n / d`, the even one of two that are equally near.
pub open spec fn round_half_even(n: nat, d: nat) -> nat {
    let q = n / d;
    let r = n % d;
    if 2 * r > d || (2 * r == d && q % 2 == 1) {
        q + 1
    } else {
        q
    }
}

/// `n / d` divided by `2^e`: the numerator.
pub open spec fn scaled_numerator(n: nat, e: int) -> nat {
    if e < 0 {
        n * pow2((-e) as nat)
    } else {
        n
    }
}

/// `n / d` divided by `2^e`: the denominator.
pub open spec fn scaled_denominator(d: nat, e: int) -> nat {
    if e < 0 {
        d
    } else {
        d * pow2(e as nat)
    }
}

/// Whether `n / d` divided by `2^e` is at least `2^52` and below `2^53`.
pub open spec fn is_exponent(n: nat, d: nat, e: int) -> bool {
    pow2(52) * scaled_denominator(d, e) <= scaled_numerator(n, e) < pow2(53) * scaled_denominator(
        d,
        e,
    )
}

/// The double nearest to `n / d`, as a pair `(m, e)` that stands for `m * 2^e`.
pub open spec fn nearest_double(n: nat, d: nat) -> (nat, int) {
    if n == 0 {
        (0, 0)
    } else {
        let e = choose|e: int| is_exponent(n, d, e);
        (round_half_even(scaled_numerator(n, e), scaled_denominator(d, e)), e)
    }
}

/// `m * 2^e` with its fraction cut off, at most `u64::MAX`.
pub open spec fn truncated(m: nat, e: int) -> nat {
    let v = if e < 0 {
        m / pow2((-e) as nat)
    } else {
        m * pow2(e as nat)
    };
    if v > u64::MAX {
        u64::MAX as nat
    } else {
        v
    }
}

/// The double nearest to `n / d`, times the double `factor`, truncated.
pub open spec fn scaled_double(n: nat, d: nat, factor: nat) -> nat {
    let (m1, e1) = nearest_double(n, d);
    let (m2, e2) = nearest_double(m1 * factor, 1);
    truncated(m2, e1 + e2)
}

/// The number that decimal digits write, the most significant digit first.
pub open spec fn digits_value(s: Seq<u8>) -> nat
    decreases s.len(),
{
    if s.len() == 0 {
        0
    } else {
        10 * digits_value(s.drop_last()) + s.last() as nat
    }
}

/// Ten to the power `k`.
pub open spec fn pow10(k: nat) -> nat
    decreases k,
{
    if k == 0 {
        1
    } else {
        10 * pow10((k - 1) as nat)
    }
}

/// Whether every element is a decimal digit.
pub open spec fn are_digits(s: Seq<u8>) -> bool {
    forall|i: int| 0 <= i < s.len() ==> s[i] < 10
}

// ── Fractions ───────────────────────────────────────────────────────────────

proof fn lemma_scale_exponent(n: nat, d: nat, p: nat, s: nat)
    requires
        n > 0,
        d > 0,
        pow2(52) * (d * pow2(s)) <= n * pow2(p) < pow2(53) * (d * pow2(s)),
    ensures
        is_exponent(n, d, s - p),
        round_half_even(scaled_numerator(n, s - p), scaled_denominator(d, s - p))
            == round_half_even(n * pow2(p), d * pow2(s)),
{
    let e = s - p;
    lemma_pow2_pos(s);
    lemma_pow2_pos(p);
    if e < 0 {
        let k = (p - s) as nat;
        lemma_pow2_adds(k, s);
        lemma_pow2_pos(k);
        assert(n * pow2(p) == (n * pow2(k)) * pow2(s)) by (nonlinear_arith)
            requires
                pow2(p) == pow2(k) * pow2(s),
        ;
        lemma_scale_fraction(n * pow2(k), d, pow2(s));
        assert(pow2(52) * d <= n * pow2(k) < pow2(53) * d) by (nonlinear_arith)
            requires
                pow2(52) * (d * pow2(s)) <= (n * pow2(k)) * pow2(s) < pow2(53) * (d * pow2(s)),
                pow2(s) > 0,
        ;
    } else {
        let k = (s - p) as nat;
        lemma_pow2_adds(k, p);
        assert(d * pow2(s) == (d * pow2(k)) * pow2(p)) by (nonlinear_arith)
            requires
                pow2(s) == pow2(k) * pow2(p),
        ;
        lemma_pow2_pos(k);
        assert(d * pow2(k) > 0) by (nonlinear_arith)
            requires
                d > 0,
                pow2(k) > 0,
        ;
        lemma_scale_fraction(n, d * pow2(k), pow2(p));
        assert(pow2(52) * (d * pow2(k)) <= n < pow2(53) * (d * pow2(k))) by (nonlinear_arith)
            requires
                pow2(52) * ((d * pow2(k)) * pow2(p)) <= n * pow2(p) < pow2(53) * ((d * pow2(k))
                    * pow2(p)),
                pow2(p) > 0,
        ;
    }
}

/// Rounding does not depend on how a fraction is expanded.
proof fn lemma_scale_fraction(n: nat, d: nat, k: nat)
    requires
        d > 0,
        k > 0,
    ensures
        round_half_even(n * k, d * k) == round_half_even(n, d),
{
    let q = n / d;
    let r = n % d;
    lemma_fundamental_div_mod(n as int, d as int);
    lemma_mod_bound(n as int, d as int);
    assert(n * k == (d * k) * q + r * k) by (nonlinear_arith)
        requires
            n == d * q + r,
    ;
    assert(0 <= r * k < d * k) by (nonlinear_arith)
        requires
            0 <= r < d,
            k > 0,
    ;
    assert(q * (d * k) + r * k == n * k) by (nonlinear_arith)
        requires
            n * k == (d * k) * q + r * k,
    ;
    lemma_fundamental_div_mod_converse((n * k) as int, (d * k) as int, q as int, (r * k) as int);
    assert((2 * (r * k) > d * k) == (2 * r > d)) by (nonlinear_arith)
        requires
            k > 0,
    ;
    assert((2 * (r * k) == d * k) == (2 * r == d)) by (nonlinear_arith)
        requires
            k > 0,
    ;
}

/// A fraction has at most one exponent.
proof fn lemma_exponent_unique(n: nat, d: nat, e: int, f: int)
    requires
        n > 0,
        d > 0,
        is_exponent(n, d, e),
        is_exponent(n, d, f),
    ensures
        e == f,
{
    lemma_exponent_order(n, d, e, f);
    lemma_exponent_order(n, d, f, e);
}

proof fn lemma_exponent_order(n: nat, d: nat, e: int, f: int)
    requires
        n > 0,
        d > 0,
        is_exponent(n, d, e),
        is_exponent(n, d, f),
    ensures
        e >= f,
{
    if e < f {
        // Expand both fractions to the denominator 2^k.
        let k = if e < 0 {
            (-e) as nat
        } else {
            0nat
        };
        let a = (e + k) as nat;
        let b = (f + k) as nat;
        lemma_common_scale(n, d, e, k);
        lemma_common_scale(n, d, f, k);
        lemma_pow2_adds(a, (b - a - 1) as nat);
        lemma_pow2_adds(1, (b - 1) as nat);
        lemma_pow2_pos((b - a - 1) as nat);
        lemma_pow2_pos(a);
        lemma2_to64();
        lemma2_to64_rest();
        assert(pow2(1) == 2);
        assert(pow2(b) >= 2 * pow2(a)) by (nonlinear_arith)
            requires
                pow2(b) == 2 * pow2((b - 1) as nat),
                pow2((b - 1) as nat) == pow2(a) * pow2((b - a - 1) as nat),
                pow2((b - a - 1) as nat) >= 1,
        ;
        lemma_pow2_adds(1, 52);
        assert(pow2(53) == 2 * pow2(52));
        assert(pow2(53) * (d * pow2(a)) <= pow2(52) * (d * pow2(b))) by (nonlinear_arith)
            requires
                pow2(53) == 2 * pow2(52),
                pow2(b) >= 2 * pow2(a),
        ;
    }
}

proof fn lemma_common_scale(n: nat, d: nat, e: int, k: nat)
    requires
        is_exponent(n, d, e),
        e + k >= 0,
    ensures
        pow2(52) * (d * pow2((e + k) as nat)) <= n * pow2(k) < pow2(53) * (d * pow2(
            (e + k) as nat,
        )),
{
    if e < 0 {
        let j = (-e) as nat;
        let rest = (k - j) as nat;
        lemma_pow2_adds(j, rest);
        lemma_pow2_pos(rest);
        assert(pow2(52) * (d * pow2(rest)) <= n * pow2(k) < pow2(53) * (d * pow2(rest)))
            by (nonlinear_arith)
            requires
                pow2(52) * d <= n * pow2(j) < pow2(53) * d,
                pow2(k) == pow2(j) * pow2(rest),
                pow2(rest) > 0,
        ;
    } else {
        lemma_pow2_adds(e as nat, k);
        lemma_pow2_pos(k);
        assert(pow2(52) * (d * pow2((e + k) as nat)) <= n * pow2(k) < pow2(53) * (d * pow2(
            (e + k) as nat,
        ))) by (nonlinear_arith)
            requires
                pow2(52) * (d * pow2(e as nat)) <= n < pow2(53) * (d * pow2(e as nat)),
                pow2((e + k) as nat) == pow2(e as nat) * pow2(k),
                pow2(k) > 0,
        ;
    }
}

/// The nearest double, once its exponent is known.
proof fn lemma_nearest(n: nat, d: nat, p: nat, s: nat)
    requires
        n > 0,
        d > 0,
        pow2(52) * (d * pow2(s)) <= n * pow2(p) < pow2(53) * (d * pow2(s)),
    ensures
        nearest_double(n, d) == (round_half_even(n * pow2(p), d * pow2(s)), s - p),
{
    lemma_scale_exponent(n, d, p, s);
    let e = choose|e: int| is_exponent(n, d, e);
    lemma_exponent_unique(n, d, e, s - p);
}

/// Every positive fraction that is at least `2^52` has an exponent of zero or more.
proof fn lemma_exponent_up(n: nat, d: nat) -> (e: nat)
    requires
        d > 0,
        pow2(52) * d <= n,
    ensures
        pow2(52) * (d * pow2(e)) <= n < pow2(53) * (d * pow2(e)),
    decreases n - d,
{
    lemma2_to64();
    lemma2_to64_rest();
    lemma_pow2_adds(1, 52);
    if n < pow2(53) * d {
        assert(d * pow2(0) == d);
        0
    } else {
        assert(pow2(52) * (2 * d) <= n) by (nonlinear_arith)
            requires
                pow2(53) * d <= n,
                pow2(53) == 2 * pow2(52),
        ;
        assert(2 * d <= n) by (nonlinear_arith)
            requires
                pow2(52) * (2 * d) <= n,
                pow2(52) >= 1,
                d > 0,
        ;
        let e = lemma_exponent_up(n, 2 * d);
        lemma_pow2_adds(1, e);
        assert((2 * d) * pow2(e) == d * pow2(e + 1)) by (nonlinear_arith)
            requires
                pow2(e + 1) == 2 * pow2(e),
        ;
        e + 1
    }
}

/// Every positive fraction below `2^53` has an exponent of zero or less.
proof fn lemma_exponent_down(n: nat, d: nat) -> (e: nat)
    requires
        n > 0,
        d > 0,
        n < pow2(53) * d,
    ensures
        pow2(52) * d <= n * pow2(e) < pow2(53) * d,
    decreases pow2(53) * d - n,
{
    lemma2_to64();
    lemma2_to64_rest();
    lemma_pow2_adds(1, 52);
    if pow2(52) * d <= n {
        assert(n * pow2(0) == n);
        0
    } else {
        assert(2 * n < pow2(53) * d) by (nonlinear_arith)
            requires
                n < pow2(52) * d,
                pow2(53) == 2 * pow2(52),
        ;
        let e = lemma_exponent_down(2 * n, d);
        lemma_pow2_adds(1, e);
        assert((2 * n) * pow2(e) == n * pow2(e + 1)) by (nonlinear_arith)
            requires
                pow2(e + 1) == 2 * pow2(e),
        ;
        e + 1
    }
}

/// The nearest double of a positive fraction is normal: its exponent is the fraction's,
/// and its significand has 53 bits, or is `2^53` after rounding up.
proof fn lemma_nearest_normal(n: nat, d: nat)
    requires
        n > 0,
        d > 0,
    ensures
        is_exponent(n, d, nearest_double(n, d).1),
        pow2(52) <= nearest_double(n, d).0 <= pow2(53),
{
    if pow2(52) * d <= n {
        let e = lemma_exponent_up(n, d);
        assert(is_exponent(n, d, e as int));
    } else {
        lemma2_to64();
        lemma2_to64_rest();
        lemma_pow2_adds(1, 52);
        assert(n < pow2(53) * d) by (nonlinear_arith)
            requires
                n < pow2(52) * d,
                pow2(53) == 2 * pow2(52),
        ;
        let e = lemma_exponent_down(n, d);
        if e == 0 {
            assert(n * pow2(0) == n);
            assert(d * pow2(0) == d);
            assert(is_exponent(n, d, 0));
        } else {
            assert(is_exponent(n, d, -(e as int)));
        }
    }
    let e = nearest_double(n, d).1;
    let a = scaled_numerator(n, e);
    let b = scaled_denominator(d, e);
    if e >= 0 {
        lemma_pow2_pos(e as nat);
        assert(b > 0) by (nonlinear_arith)
            requires
                d > 0,
                pow2(e as nat) > 0,
                b == d * pow2(e as nat),
        ;
    }
    lemma_quotient_bounds(a, b, pow2(52), pow2(53));
}

/// A fraction between two integers has its floor between them.
proof fn lemma_quotient_bounds(a: nat, b: nat, lo: nat, hi: nat)
    requires
        b > 0,
        lo * b <= a < hi * b,
    ensures
        lo <= a / b < hi,
{
    lemma_fundamental_div_mod(a as int, b as int);
    lemma_mod_bound(a as int, b as int);
    let q = a / b;
    let r = a % b;
    assert(lo <= q < hi) by (nonlinear_arith)
        requires
            a == b * q + r,
            0 <= r < b,
            lo * b <= a < hi * b,
    ;
}

/// Numbers below `2^-64` times a factor below `2^41` truncate to zero.
proof fn lemma_tiny(n: nat, d: nat, factor: nat)
    requires
        d > 0,
        n * pow2(64) < d,
        0 < factor <= pow2(40),
    ensures
        scaled_double(n, d, factor) == 0,
{
    lemma2_to64();
    lemma2_to64_rest();
    let (m1, e1) = nearest_double(n, d);
    let (m2, e2) = nearest_double(m1 * factor, 1);
    if n == 0 {
        assert(m1 * factor == 0) by (nonlinear_arith)
            requires
                m1 == 0,
        ;
    } else {
        lemma_nearest_normal(n, d);
        // e1 is at most -116.
        if e1 > -116 {
            let k: nat = 116;
            if e1 + k < 0 {
            } else {
                lemma_common_scale(n, d, e1, k);
                let a = (e1 + k) as nat;
                lemma_pow2_pos(a);
                lemma_pow2_adds(64, 52);
                assert(n * pow2(116) == (n * pow2(64)) * pow2(52)) by (nonlinear_arith)
                    requires
                        pow2(116) == pow2(64) * pow2(52),
                ;
                assert(false) by (nonlinear_arith)
                    requires
                        pow2(52) * (d * pow2(a)) <= (n * pow2(64)) * pow2(52),
                        n * pow2(64) < d,
                        pow2(a) >= 1,
                        pow2(52) > 0,
                ;
            }
        }
        let y = m1 * factor;
        assert(0 < y <= pow2(53) * pow2(40)) by (nonlinear_arith)
            requires
                0 < m1 <= pow2(53),
                0 < factor <= pow2(40),
                y == m1 * factor,
        ;
        lemma_pow2_adds(53, 40);
        lemma_nearest_normal(y, 1);
        // e2 is at most 41.
        if e2 > 41 {
            lemma_pow2_adds(52, e2 as nat);
            lemma_pow2_adds(93, (52 + e2 - 93) as nat);
            lemma_pow2_adds(1, (52 + e2 - 94) as nat);
            lemma_pow2_pos((52 + e2 - 94) as nat);
            assert(pow2(52) * (1 * pow2(e2 as nat)) <= y);
            assert(pow2((52 + e2) as nat) <= pow2(93));
            assert(false) by (nonlinear_arith)
                requires
                    pow2((52 + e2) as nat) == pow2(93) * pow2((52 + e2 - 93) as nat),
                    pow2((52 + e2) as nat) <= pow2(93),
                    pow2((52 + e2 - 93) as nat) == 2 * pow2((52 + e2 - 94) as nat),
                    pow2((52 + e2 - 94) as nat) >= 1,
                    pow2(93) == pow2(53) * pow2(40),
                    pow2(53) > 0,
                    pow2(40) > 0,
            ;
        }
        let e = e1 + e2;
        let k = (-e) as nat;
        lemma_pow2_adds(54, (k - 54) as nat);
        lemma_pow2_pos((k - 54) as nat);
        assert(pow2(k) > m2) by (nonlinear_arith)
            requires
                pow2(k) == pow2(54) * pow2((k - 54) as nat),
                pow2((k - 54) as nat) >= 1,
                pow2(54) > pow2(53),
                m2 <= pow2(53),
        ;
        lemma_fundamental_div_mod_converse(m2 as int, pow2(k) as int, 0, m2 as int);
    }
}

/// Numbers of `2^64` and more, times a factor, saturate.
proof fn lemma_huge(n: nat, d: nat, factor: nat)
    requires
        d > 0,
        n >= pow2(64) * d,
        factor > 0,
    ensures
        scaled_double(n, d, factor) == u64::MAX,
{
    lemma2_to64();
    lemma2_to64_rest();
    let (m1, e1) = nearest_double(n, d);
    let (m2, e2) = nearest_double(m1 * factor, 1);
    assert(n > 0) by (nonlinear_arith)
        requires
            d > 0,
            n >= pow2(64) * d,
            pow2(64) > 0,
    ;
    lemma_nearest_normal(n, d);
    // e1 is at least 12.
    if e1 < 12 {
        let k = if e1 < 0 {
            (-e1) as nat
        } else {
            0nat
        };
        let a = (e1 + k) as nat;
        lemma_common_scale(n, d, e1, k);
        lemma_pow2_pos(k);
        lemma_pow2_pos(a);
        if e1 < 0 {
            assert(false) by (nonlinear_arith)
                requires
                    n * pow2(k) < pow2(53) * (d * pow2(a)),
                    pow2(a) == 1,
                    pow2(k) >= 1,
                    n >= pow2(64) * d,
                    pow2(64) >= pow2(53),
            ;
        } else {
            lemma_pow2_adds(53, a);
            lemma_pow2_adds((53 + a) as nat, (64 - 53 - a) as nat);
            lemma_pow2_pos((11 - a) as nat);
            assert(pow2(53) * (d * pow2(a)) == pow2((53 + a) as nat) * d) by (nonlinear_arith)
                requires
                    pow2((53 + a) as nat) == pow2(53) * pow2(a),
            ;
            assert(pow2(64) >= pow2((53 + a) as nat)) by (nonlinear_arith)
                requires
                    pow2(64) == pow2((53 + a) as nat) * pow2((11 - a) as nat),
                    pow2((11 - a) as nat) >= 1,
            ;
            assert(false) by (nonlinear_arith)
                requires
                    n * pow2(k) < pow2((53 + a) as nat) * d,
                    pow2(k) == 1,
                    n >= pow2(64) * d,
                    pow2(64) >= pow2((53 + a) as nat),
            ;
        }
    }
    let y = m1 * factor;
    assert(y >= pow2(52)) by (nonlinear_arith)
        requires
            m1 >= pow2(52),
            factor >= 1,
            y == m1 * factor,
    ;
    lemma_nearest_normal(y, 1);
    if e2 < 0 {
        lemma_pow2_adds(1, ((-e2) - 1) as nat);
        lemma_pow2_pos(((-e2) - 1) as nat);
        assert(false) by (nonlinear_arith)
            requires
                y * pow2((-e2) as nat) < pow2(53) * 1,
                pow2((-e2) as nat) == 2 * pow2(((-e2) - 1) as nat),
                pow2(((-e2) - 1) as nat) >= 1,
                y >= pow2(52),
                pow2(53) == 2 * pow2(52),
        ;
    }
    let e = (e1 + e2) as nat;
    lemma_pow2_adds(12, (e - 12) as nat);
    lemma_pow2_pos((e - 12) as nat);
    assert(m2 * pow2(e) >= pow2(52) * pow2(12)) by (nonlinear_arith)
        requires
            m2 >= pow2(52),
            pow2(e) == pow2(12) * pow2((e - 12) as nat),
            pow2((e - 12) as nat) >= 1,
    ;
    lemma_pow2_adds(52, 12);
}

/// Whole numbers below `2^53` are read and multiplied exactly.
pub proof fn lemma_whole_is_exact(n: nat, factor: nat)
    requires
        factor > 0,
        n * factor < 0x20_0000_0000_0000,
    ensures
        scaled_double(n, 1, factor) == n * factor,
{
    lemma2_to64();
    lemma2_to64_rest();
    let w = n * factor;
    if n == 0 {
        assert(w == 0) by (nonlinear_arith)
            requires
                n == 0,
                w == n * factor,
        ;
        assert(0 * factor == 0);
        assert(pow2(0) == 1);
    } else {
        assert(n <= w && w > 0) by (nonlinear_arith)
            requires
                n > 0,
                factor > 0,
                w == n * factor,
        ;
        // The number itself.
        let e = lemma_exponent_down(n, 1);
        assert(1 * pow2(0) == 1);
        lemma_nearest(n, 1, e, 0);
        let m = n * pow2(e);
        lemma_fundamental_div_mod_converse(m as int, 1, m as int, 0);
        assert(nearest_double(n, 1) == (m, -(e as int)));
        // The product.
        let g = lemma_exponent_down(w, 1);
        lemma_pow2_pos(e);
        lemma_pow2_pos(g);
        if g > e {
            lemma_pow2_adds(1, e);
            lemma_pow2_adds((e + 1) as nat, (g - e - 1) as nat);
            lemma_pow2_pos((g - e - 1) as nat);
            assert(false) by (nonlinear_arith)
                requires
                    w * pow2(g) < pow2(53) * 1,
                    pow2(52) * 1 <= n * pow2(e),
                    n <= w,
                    n > 0,
                    pow2(53) == 2 * pow2(52),
                    pow2((e + 1) as nat) == 2 * pow2(e),
                    pow2(g) == pow2((e + 1) as nat) * pow2((g - e - 1) as nat),
                    pow2((g - e - 1) as nat) >= 1,
            ;
        }
        let s = (e - g) as nat;
        lemma_pow2_adds(g, s);
        lemma_pow2_pos(s);
        let y = m * factor;
        let t = w * pow2(g);
        assert(y == t * pow2(s)) by (nonlinear_arith)
            requires
                y == (n * pow2(e)) * factor,
                pow2(e) == pow2(g) * pow2(s),
                w == n * factor,
                t == w * pow2(g),
        ;
        assert(y > 0) by (nonlinear_arith)
            requires
                y == t * pow2(s),
                t >= pow2(52),
                pow2(52) > 0,
                pow2(s) > 0,
        ;
        assert(pow2(52) * (1 * pow2(s)) <= y * pow2(0) < pow2(53) * (1 * pow2(s)))
            by (nonlinear_arith)
            requires
                y == t * pow2(s),
                pow2(52) * 1 <= t < pow2(53) * 1,
                pow2(s) > 0,
                pow2(0) == 1,
        ;
        lemma_nearest(y, 1, 0, s);
        assert(y * pow2(0) == y);
        assert(1 * pow2(s) == pow2(s));
        lemma_fundamental_div_mod_converse(y as int, pow2(s) as int, t as int, 0);
        assert(nearest_double(y, 1) == (t, s as int));
        // Back to the number of bytes.
        let back = -(e as int) + s;
        assert(back == -(g as int));
        if g == 0 {
            assert(t == w) by (nonlinear_arith)
                requires
                    t == w * pow2(g),
                    pow2(g) == 1,
            ;
            assert(t * pow2(0) == t);
        } else {
            assert(w * pow2(g) == pow2(g) * w) by (nonlinear_arith);
            lemma_fundamental_div_mod_converse(t as int, pow2(g) as int, w as int, 0);
        }
    }
}

// ── Order ───────────────────────────────────────────────────────────────────

/// Rounding keeps the order of fractions.
proof fn lemma_round_is_monotonic(a: nat, b: nat, c: nat, d: nat)
    requires
        b > 0,
        d > 0,
        a * d <= c * b,
    ensures
        round_half_even(a, b) <= round_half_even(c, d),
{
    let q1 = a / b;
    let r1 = a % b;
    let q2 = c / d;
    let r2 = c % d;
    lemma_fundamental_div_mod(a as int, b as int);
    lemma_mod_bound(a as int, b as int);
    lemma_fundamental_div_mod(c as int, d as int);
    lemma_mod_bound(c as int, d as int);
    assert(q1 <= q2) by (nonlinear_arith)
        requires
            a == b * q1 + r1,
            c == d * q2 + r2,
            0 <= r1 < b,
            0 <= r2 < d,
            a * d <= c * b,
    ;
    if q1 == q2 {
        assert(r1 * d <= r2 * b) by (nonlinear_arith)
            requires
                a == b * q1 + r1,
                c == d * q1 + r2,
                a * d <= c * b,
        ;
        if 2 * r1 > b {
            assert(2 * r2 > d) by (nonlinear_arith)
                requires
                    r1 * d <= r2 * b,
                    2 * r1 > b,
                    b > 0,
                    d > 0,
            ;
        } else if 2 * r1 == b {
            assert(2 * r2 >= d) by (nonlinear_arith)
                requires
                    r1 * d <= r2 * b,
                    2 * r1 == b,
                    b > 0,
            ;
        }
    }
}

/// A larger power of two is at least twice as large.
proof fn lemma_pow2_doubles(a: nat, b: nat)
    requires
        a < b,
    ensures
        pow2(b) >= 2 * pow2(a),
{
    lemma2_to64();
    lemma_pow2_adds(1, a);
    lemma_pow2_adds(a + 1, (b - a - 1) as nat);
    lemma_pow2_pos((b - a - 1) as nat);
    assert(pow2(b) >= 2 * pow2(a)) by (nonlinear_arith)
        requires
            pow2(b) == pow2(a + 1) * pow2((b - a - 1) as nat),
            pow2(a + 1) == 2 * pow2(a),
            pow2((b - a - 1) as nat) >= 1,
    ;
}

/// The exponent of a fraction is at most that of a larger one.
proof fn lemma_exponent_is_monotonic(n1: nat, d1: nat, e1: int, n2: nat, d2: nat, e2: int)
    requires
        d1 > 0,
        d2 > 0,
        n1 * d2 <= n2 * d1,
        is_exponent(n1, d1, e1),
        is_exponent(n2, d2, e2),
    ensures
        e1 <= e2,
{
    if e1 > e2 {
        let k = if e2 < 0 {
            (-e2) as nat
        } else {
            0nat
        };
        let a = (e1 + k) as nat;
        let b = (e2 + k) as nat;
        let t = pow2(k);
        lemma_common_scale(n1, d1, e1, k);
        lemma_common_scale(n2, d2, e2, k);
        lemma_pow2_doubles(b, a);
        lemma_pow2_pos(k);
        lemma2_to64();
        lemma_pow2_adds(1, 52);
        let lo = pow2(52);
        assert(pow2(53) == 2 * lo);
        // Both fractions over the common denominator d1 * d2.
        assert((lo * (d1 * pow2(a))) * d2 <= (n1 * t) * d2) by (nonlinear_arith)
            requires
                lo * (d1 * pow2(a)) <= n1 * t,
        ;
        assert((n2 * t) * d1 < (2 * lo * (d2 * pow2(b))) * d1) by (nonlinear_arith)
            requires
                n2 * t < 2 * lo * (d2 * pow2(b)),
                d1 > 0,
        ;
        assert((2 * lo * (d2 * pow2(b))) * d1 == (lo * (d1 * d2)) * (2 * pow2(b)))
            by (nonlinear_arith);
        assert((lo * (d1 * pow2(a))) * d2 == (lo * (d1 * d2)) * pow2(a)) by (nonlinear_arith);
        let w = lo * (d1 * d2);
        assert(w * (2 * pow2(b)) <= w * pow2(a)) by (nonlinear_arith)
            requires
                2 * pow2(b) <= pow2(a),
        ;
        assert((n1 * t) * d2 <= (n2 * t) * d1) by (nonlinear_arith)
            requires
                n1 * d2 <= n2 * d1,
        ;
    }
}

/// The nearest doubles of two fractions are in the order of the fractions. They are compared
/// over the denominator `2^k`.
proof fn lemma_nearest_is_monotonic(n1: nat, d1: nat, n2: nat, d2: nat, k: nat)
    requires
        n1 > 0,
        n2 > 0,
        d1 > 0,
        d2 > 0,
        n1 * d2 <= n2 * d1,
        nearest_double(n1, d1).1 + k >= 0,
        nearest_double(n2, d2).1 + k >= 0,
    ensures
        nearest_double(n1, d1).0 * pow2((nearest_double(n1, d1).1 + k) as nat) <= nearest_double(
            n2,
            d2,
        ).0 * pow2((nearest_double(n2, d2).1 + k) as nat),
{
    let (m1, e1) = nearest_double(n1, d1);
    let (m2, e2) = nearest_double(n2, d2);
    lemma_nearest_normal(n1, d1);
    lemma_nearest_normal(n2, d2);
    lemma_exponent_is_monotonic(n1, d1, e1, n2, d2, e2);
    let p1 = pow2((e1 + k) as nat);
    let p2 = pow2((e2 + k) as nat);
    if e1 == e2 {
        let a = scaled_numerator(n1, e1);
        let b = scaled_denominator(d1, e1);
        let c = scaled_numerator(n2, e1);
        let d = scaled_denominator(d2, e1);
        if e1 < 0 {
            let t = pow2((-e1) as nat);
            assert(a * d <= c * b) by (nonlinear_arith)
                requires
                    a == n1 * t,
                    b == d1,
                    c == n2 * t,
                    d == d2,
                    n1 * d2 <= n2 * d1,
            ;
        } else {
            let t = pow2(e1 as nat);
            lemma_pow2_pos(e1 as nat);
            assert(a * d <= c * b) by (nonlinear_arith)
                requires
                    a == n1,
                    b == d1 * t,
                    c == n2,
                    d == d2 * t,
                    n1 * d2 <= n2 * d1,
            ;
            assert(b > 0 && d > 0) by (nonlinear_arith)
                requires
                    b == d1 * t,
                    d == d2 * t,
                    d1 > 0,
                    d2 > 0,
                    t > 0,
            ;
        }
        lemma_round_is_monotonic(a, b, c, d);
        assert(m1 * p1 <= m2 * p1) by (nonlinear_arith)
            requires
                m1 <= m2,
        ;
    } else {
        lemma_pow2_doubles((e1 + k) as nat, (e2 + k) as nat);
        lemma2_to64();
        lemma_pow2_adds(1, 52);
        assert(m1 * p1 <= m2 * p2) by (nonlinear_arith)
            requires
                m1 <= 2 * pow2(52),
                m2 >= pow2(52),
                p2 >= 2 * p1,
        ;
    }
}

/// A fraction times a power of two has the same significand, and its exponent is shifted.
proof fn lemma_nearest_shift(n: nat, d: nat, p: nat, s: nat)
    requires
        n > 0,
        d > 0,
    ensures
        nearest_double(n * pow2(p), d * pow2(s)) == (
            nearest_double(n, d).0,
            nearest_double(n, d).1 + p - s,
        ),
{
    lemma_nearest_normal(n, d);
    let e = nearest_double(n, d).1;
    let k = if e < 0 {
        (-e) as nat
    } else {
        0nat
    };
    let h = (e + k) as nat;
    lemma_common_scale(n, d, e, k);
    lemma_nearest(n, d, k, h);
    let a = n * pow2(k);
    let b = d * pow2(h);
    let t = pow2(p + s);
    lemma_pow2_pos(p);
    lemma_pow2_pos(s);
    lemma_pow2_pos(h);
    lemma_pow2_pos(p + s);
    lemma_pow2_adds(p, s);
    lemma_pow2_adds(k, s);
    lemma_pow2_adds(h, p);
    let shifted_n = n * pow2(p);
    let shifted_d = d * pow2(s);
    assert(shifted_n * pow2(k + s) == a * t) by (nonlinear_arith)
        requires
            shifted_n == n * pow2(p),
            a == n * pow2(k),
            pow2(k + s) == pow2(k) * pow2(s),
            t == pow2(p) * pow2(s),
    ;
    assert(shifted_d * pow2(h + p) == b * t) by (nonlinear_arith)
        requires
            shifted_d == d * pow2(s),
            b == d * pow2(h),
            pow2(h + p) == pow2(h) * pow2(p),
            t == pow2(p) * pow2(s),
    ;
    assert(pow2(52) * (b * t) <= a * t < pow2(53) * (b * t)) by (nonlinear_arith)
        requires
            pow2(52) * b <= a < pow2(53) * b,
            t > 0,
    ;
    assert(shifted_n > 0 && shifted_d > 0 && b > 0) by (nonlinear_arith)
        requires
            shifted_n == n * pow2(p),
            shifted_d == d * pow2(s),
            b == d * pow2(h),
            n > 0,
            d > 0,
            pow2(p) > 0,
            pow2(s) > 0,
            pow2(h) > 0,
    ;
    lemma_scale_fraction(a, b, t);
    lemma_nearest(shifted_n, shifted_d, k + s, h + p);
}

/// Cutting off the fraction keeps the order of numbers. They are compared over the denominator
/// `2^k`.
proof fn lemma_truncated_is_monotonic(m1: nat, e1: int, m2: nat, e2: int, k: nat)
    requires
        e1 + k >= 0,
        e2 + k >= 0,
        m1 * pow2((e1 + k) as nat) <= m2 * pow2((e2 + k) as nat),
    ensures
        truncated(m1, e1) <= truncated(m2, e2),
{
    lemma_floor(m1, e1, k);
    lemma_floor(m2, e2, k);
    lemma_pow2_pos(k);
    lemma_div_is_ordered(
        (m1 * pow2((e1 + k) as nat)) as int,
        (m2 * pow2((e2 + k) as nat)) as int,
        pow2(k) as int,
    );
}

/// `m * 2^e` with its fraction cut off, over the denominator `2^k`.
proof fn lemma_floor(m: nat, e: int, k: nat)
    requires
        e + k >= 0,
    ensures
        (m * pow2((e + k) as nat)) / pow2(k) == if e < 0 {
            m / pow2((-e) as nat)
        } else {
            m * pow2(e as nat)
        },
{
    lemma_pow2_pos(k);
    if e < 0 {
        let j = (-e) as nat;
        let h = (e + k) as nat;
        lemma_pow2_pos(h);
        lemma_pow2_pos(j);
        lemma_pow2_adds(h, j);
        lemma_div_denominator((m * pow2(h)) as int, pow2(h) as int, pow2(j) as int);
        lemma_div_by_multiple(m as int, pow2(h) as int);
    } else {
        lemma_pow2_adds(e as nat, k);
        let v = m * pow2(e as nat);
        assert(m * pow2((e + k) as nat) == v * pow2(k)) by (nonlinear_arith)
            requires
                v == m * pow2(e as nat),
                pow2((e + k) as nat) == pow2(e as nat) * pow2(k),
        ;
        lemma_div_by_multiple(v as int, pow2(k) as int);
    }
}

/// Of two fractions with one factor the larger makes no smaller number.
pub proof fn lemma_scaled_is_monotonic(n1: nat, d1: nat, n2: nat, d2: nat, factor: nat)
    requires
        d1 > 0,
        d2 > 0,
        factor > 0,
        n1 * d2 <= n2 * d1,
    ensures
        scaled_double(n1, d1, factor) <= scaled_double(n2, d2, factor),
{
    lemma2_to64();
    if n1 == 0 {
        assert(0 * factor == 0);
        assert(scaled_double(n1, d1, factor) == 0);
    } else {
        assert(n2 > 0) by (nonlinear_arith)
            requires
                n1 * d2 <= n2 * d1,
                n1 > 0,
                d2 > 0,
        ;
        let (a1, x1) = nearest_double(n1, d1);
        let (a2, x2) = nearest_double(n2, d2);
        lemma_nearest_normal(n1, d1);
        lemma_nearest_normal(n2, d2);
        lemma_pow2_pos(52);
        let k = above(x1, x2);
        lemma_nearest_is_monotonic(n1, d1, n2, d2, k);
        let f1 = a1 * factor;
        let f2 = a2 * factor;
        assert(f1 > 0 && f2 > 0) by (nonlinear_arith)
            requires
                f1 == a1 * factor,
                f2 == a2 * factor,
                a1 > 0,
                a2 > 0,
                factor > 0,
        ;
        let p1 = (x1 + k) as nat;
        let p2 = (x2 + k) as nat;
        lemma_nearest_shift(f1, 1, p1, k);
        lemma_nearest_shift(f2, 1, p2, k);
        lemma_pow2_pos(p1);
        lemma_pow2_pos(p2);
        lemma_pow2_pos(k);
        let d = 1 * pow2(k);
        let w1 = f1 * pow2(p1);
        let w2 = f2 * pow2(p2);
        assert(w1 > 0 && w2 > 0) by (nonlinear_arith)
            requires
                w1 == f1 * pow2(p1),
                w2 == f2 * pow2(p2),
                f1 > 0,
                f2 > 0,
                pow2(p1) > 0,
                pow2(p2) > 0,
        ;
        assert(w1 <= w2) by (nonlinear_arith)
            requires
                w1 == (a1 * factor) * pow2(p1),
                w2 == (a2 * factor) * pow2(p2),
                a1 * pow2(p1) <= a2 * pow2(p2),
        ;
        assert(w1 * d <= w2 * d) by (nonlinear_arith)
            requires
                w1 <= w2,
        ;
        let (b1, y1) = nearest_double(w1, d);
        let (b2, y2) = nearest_double(w2, d);
        let h = above(y1, y2);
        lemma_nearest_is_monotonic(w1, d, w2, d, h);
        lemma_truncated_is_monotonic(b1, y1, b2, y2, h);
    }
}

/// A number that is at least zero when added to either of the two.
spec fn above(a: int, b: int) -> nat {
    if a < 0 && a <= b {
        (-a) as nat
    } else if b < 0 {
        (-b) as nat
    } else {
        0
    }
}

// ── Decimal digits ──────────────────────────────────────────────────────────

pub proof fn lemma_pow10_pos(k: nat)
    ensures
        pow10(k) > 0,
    decreases k,
{
    if k > 0 {
        lemma_pow10_pos((k - 1) as nat);
    }
}

/// Digits written one after the other.
proof fn lemma_digits_concat(a: Seq<u8>, b: Seq<u8>)
    ensures
        digits_value(a + b) == digits_value(a) * pow10(b.len()) + digits_value(b),
    decreases b.len(),
{
    if b.len() == 0 {
        assert(a + b =~= a);
        assert(pow10(0) == 1);
        assert(digits_value(a) * 1 == digits_value(a));
    } else {
        let c = b.drop_last();
        lemma_digits_concat(a, c);
        assert((a + b).drop_last() =~= a + c);
        assert((a + b).last() == b.last());
        assert(10 * (digits_value(a) * pow10(c.len())) == digits_value(a) * pow10(b.len()))
            by (nonlinear_arith)
            requires
                pow10(b.len()) == 10 * pow10(c.len()),
        ;
    }
}

proof fn lemma_digits_bound(s: Seq<u8>)
    requires
        are_digits(s),
    ensures
        digits_value(s) < pow10(s.len()),
    decreases s.len(),
{
    if s.len() > 0 {
        lemma_digits_bound(s.drop_last());
    }
}

proof fn lemma_digits_zero(s: Seq<u8>)
    ensures
        digits_value(s) == 0 <==> (forall|i: int| 0 <= i < s.len() ==> s[i] == 0),
    decreases s.len(),
{
    if s.len() > 0 {
        let t = s.drop_last();
        lemma_digits_zero(t);
        if digits_value(s) == 0 {
            assert forall|i: int| 0 <= i < s.len() implies s[i] == 0 by {
                if i < t.len() {
                    assert(t[i] == 0);
                }
            }
        } else if digits_value(t) > 0 {
            let i = choose|i: int| 0 <= i < t.len() && t[i] != 0;
            assert(s[i] != 0);
        } else {
            assert(s[s.len() - 1] != 0);
        }
    }
}

/// Doubles the decimal fraction `0.d1d2...` in place and returns the digit that is
/// carried in front of the point.
fn double_fraction(digits: &mut Vec<u8>) -> (carry: u8)
    requires
        are_digits(old(digits)@),
    ensures
        are_digits(final(digits)@),
        final(digits)@.len() == old(digits)@.len(),
        carry <= 1,
        2 * digits_value(old(digits)@) == carry * pow10(old(digits)@.len()) + digits_value(
            final(digits)@,
        ),
{
    let ghost before = digits@;
    let len: usize = digits.len();
    let mut i: usize = len;
    let mut carry: u8 = 0;
    proof {
        assert(before.skip(len as int) =~= Seq::<u8>::empty());
        assert(digits@.skip(len as int) =~= Seq::<u8>::empty());
    }
    while i > 0
        invariant
            len == before.len(),
            digits@.len() == len,
            i <= len,
            carry <= 1,
            are_digits(before),
            are_digits(digits@),
            forall|j: int| 0 <= j < i ==> digits@[j] == before[j],
            2 * digits_value(before.skip(i as int)) == carry * pow10((len - i) as nat)
                + digits_value(digits@.skip(i as int)),
        decreases i,
    {
        i = i - 1;
        let ghost held = digits@;
        let ghost c0 = carry;
        let doubled: u8 = 2 * digits[i] + carry;
        let (digit, next): (u8, u8) = if doubled >= 10 {
            (doubled - 10, 1)
        } else {
            (doubled, 0)
        };
        digits.set(i, digit);
        carry = next;
        proof {
            let tail = (len - i - 1) as nat;
            assert(before.skip(i as int) =~= seq![before[i as int]] + before.skip(i + 1));
            assert(digits@.skip(i as int) =~= seq![digit] + held.skip(i + 1));
            lemma_digits_concat(seq![before[i as int]], before.skip(i + 1));
            lemma_digits_concat(seq![digit], held.skip(i + 1));
            lemma_one_digit(before[i as int]);
            lemma_one_digit(digit);
            let p = pow10(tail);
            assert(pow10((len - i) as nat) == 10 * p);
            assert(2 * (before[i as int] * p) + c0 * p == next * (10 * p) + digit * p)
                by (nonlinear_arith)
                requires
                    2 * before[i as int] + c0 == 10 * next + digit,
            ;
        }
    }
    proof {
        assert(before.skip(0) =~= before);
        assert(digits@.skip(0) =~= digits@);
    }
    carry
}

proof fn lemma_one_digit(d: u8)
    ensures
        digits_value(seq![d]) == d as nat,
{
    assert(seq![d].drop_last() =~= Seq::<u8>::empty());
    assert(digits_value(Seq::<u8>::empty()) == 0);
}

// ── Rounding in machine integers ────────────────────────────────────────────

/// `x` and a fraction below one, which is positive where `sticky`, divided by the
/// even number `p` and rounded to the nearest integer, ties to even.
spec fn rounded(x: nat, sticky: bool, p: nat) -> nat {
    let q = x / p;
    let r = x % p;
    if 2 * r > p || (2 * r == p && (sticky || q % 2 == 1)) {
        q + 1
    } else {
        q
    }
}

/// A floor and the knowledge whether it is exact suffice to round a fraction.
proof fn lemma_sticky(a: nat, d: nat, s: nat)
    requires
        d > 0,
        s > 0 || a % d == 0,
    ensures
        round_half_even(a, d * pow2(s)) == rounded(a / d, a % d != 0, pow2(s)),
{
    let p = pow2(s);
    let x = a / d;
    let f = a % d;
    let q = x / p;
    let r = x % p;
    lemma_pow2_pos(s);
    lemma_div_denominator(a as int, d as int, p as int);
    lemma_fundamental_div_mod(a as int, d as int);
    lemma_fundamental_div_mod(x as int, p as int);
    lemma_mod_bound(a as int, d as int);
    lemma_mod_bound(x as int, p as int);
    let rest = d * r + f;
    assert(a == q * (d * p) + rest) by (nonlinear_arith)
        requires
            a == d * x + f,
            x == p * q + r,
            rest == d * r + f,
    ;
    assert(0 <= rest < d * p) by (nonlinear_arith)
        requires
            0 <= f < d,
            0 <= r < p,
            rest == d * r + f,
    ;
    lemma_fundamental_div_mod_converse(a as int, (d * p) as int, q as int, rest as int);
    if 2 * r > p {
        assert(2 * rest > d * p) by (nonlinear_arith)
            requires
                2 * r > p,
                d > 0,
                f >= 0,
                rest == d * r + f,
        ;
    } else if 2 * r == p {
        assert(2 * rest == d * p + 2 * f) by (nonlinear_arith)
            requires
                2 * r == p,
                rest == d * r + f,
        ;
    } else if s > 0 {
        lemma2_to64();
        lemma_pow2_adds(1, (s - 1) as nat);
        assert(2 * r <= p - 2);
        assert(2 * rest < d * p) by (nonlinear_arith)
            requires
                2 * r <= p - 2,
                0 <= f < d,
                rest == d * r + f,
        ;
    } else {
        assert(2 * rest < d * p) by (nonlinear_arith)
            requires
                2 * r < p,
                f == 0,
                d > 0,
                rest == d * r + f,
        ;
    }
}

proof fn lemma_pow2_128()
    ensures
        pow2(128) == u128::MAX + 1,
{
    lemma2_to64();
    lemma_pow2_adds(64, 64);
}

/// Rounds `x`, followed by a fraction that is positive where `sticky`, to 53 bits.
/// Returns the rounded significand and the number of bits that were cut off.
fn round_to_significand(x: u128, sticky: bool) -> (r: (u64, u32))
    requires
        x >= pow2(52),
        sticky ==> x >= pow2(53),
    ensures
        r.1 <= 75,
        sticky ==> r.1 > 0,
        pow2(52) * pow2(r.1 as nat) <= x < pow2(53) * pow2(r.1 as nat),
        r.0 == rounded(x as nat, sticky, pow2(r.1 as nat)),
        pow2(52) <= r.0 <= pow2(53),
{
    let mut q: u128 = x;
    let mut p: u128 = 1;
    let mut s: u32 = 0;
    proof {
        lemma2_to64();
        lemma2_to64_rest();
    }
    while q >= 0x20_0000_0000_0000
        invariant
            q == x as nat / p as nat,
            p == pow2(s as nat),
            p >= 1,
            s <= 75,
            q >= pow2(52),
            s == 0 ==> q == x,
            pow2(52) == 0x10_0000_0000_0000,
            pow2(53) == 0x20_0000_0000_0000,
            pow2(1) == 2,
        decreases q,
    {
        proof {
            lemma_fundamental_div_mod(x as int, p as int);
            lemma_mod_bound(x as int, p as int);
            if s >= 75 {
                lemma_pow2_128();
                lemma_pow2_adds(53, 75);
                assert(q * p >= pow2(128)) by (nonlinear_arith)
                    requires
                        q >= pow2(53),
                        p == pow2(75),
                        pow2(128) == pow2(53) * pow2(75),
                ;
                assert(p * q <= x);
                assert(q * p == p * q) by (nonlinear_arith);
            }
            assert(2 * p <= x) by (nonlinear_arith)
                requires
                    x == p * q + x % p,
                    x % p >= 0,
                    q >= 2,
                    p >= 1,
            ;
            lemma_div_denominator(x as int, p as int, 2);
            lemma_pow2_adds(1, s as nat);
        }
        q = q / 2;
        p = p * 2;
        s = s + 1;
    }
    let rest: u128 = x % p;
    proof {
        lemma_fundamental_div_mod(x as int, p as int);
        lemma_mod_bound(x as int, p as int);
        assert(pow2(52) * p <= x < pow2(53) * p) by (nonlinear_arith)
            requires
                x == p * q + rest,
                0 <= rest < p,
                pow2(52) <= q < pow2(53),
        ;
        if p > x {
            assert(pow2(52) * p >= p) by (nonlinear_arith)
                requires
                    pow2(52) >= 1,
            ;
        }
        assert(p <= 0x8000_0000_0000_0000_0000) by {
            if p > 0x8000_0000_0000_0000_0000 {
                assert(pow2(52) * p > u128::MAX) by (nonlinear_arith)
                    requires
                        pow2(52) == 0x10_0000_0000_0000,
                        p > 0x8000_0000_0000_0000_0000,
                ;
            }
        }
    }
    let half_way: u128 = 2 * rest;
    let significand: u64 = q as u64;
    if half_way > p || (half_way == p && (sticky || significand % 2 == 1)) {
        (significand + 1, s)
    } else {
        (significand, s)
    }
}

/// `2^k`.
fn power_of_two(k: u32) -> (r: u128)
    requires
        k < 128,
    ensures
        r == pow2(k as nat),
{
    let mut r: u128 = 1;
    let mut i: u32 = 0;
    proof {
        lemma2_to64();
    }
    while i < k
        invariant
            i <= k < 128,
            r == pow2(i as nat),
            pow2(1) == 2,
        decreases k - i,
    {
        proof {
            lemma_pow2_pos(i as nat);
            lemma_pow2_adds(1, i as nat);
            lemma_pow2_128();
            lemma_pow2_adds((i + 1) as nat, (127 - i) as nat);
            lemma_pow2_pos((127 - i) as nat);
            if i + 1 < 128 {
                lemma_pow2_adds(1, (126 - i) as nat);
                lemma_pow2_pos((126 - i) as nat);
            }
            assert(2 * r < pow2(128)) by (nonlinear_arith)
                requires
                    pow2((i + 1) as nat) == 2 * r,
                    pow2(128) == pow2((i + 1) as nat) * pow2((127 - i) as nat),
                    pow2((127 - i) as nat) >= 2,
                    r > 0,
            ;
        }
        r = 2 * r;
        i = i + 1;
    }
    r
}

/// Cuts the fraction off `m * 2^e`, where `m` has 53 bits.
fn truncate(m: u64, e: i64) -> (r: u64)
    requires
        pow2(52) <= m <= pow2(53),
        -1000 < e < 1000,
    ensures
        r == truncated(m as nat, e as int),
{
    proof {
        lemma2_to64();
        lemma2_to64_rest();
    }
    if e >= 12 {
        proof {
            lemma_pow2_adds(12, (e - 12) as nat);
            lemma_pow2_pos((e - 12) as nat);
            assert(m * pow2(e as nat) >= pow2(52) * pow2(12)) by (nonlinear_arith)
                requires
                    m >= pow2(52),
                    pow2(e as nat) == pow2(12) * pow2((e - 12) as nat),
                    pow2((e - 12) as nat) >= 1,
            ;
            lemma_pow2_adds(52, 12);
        }
        u64::MAX
    } else if e >= 0 {
        let p = power_of_two(e as u32);
        proof {
            lemma_pow2_adds(e as nat, (12 - e) as nat);
            lemma_pow2_pos((12 - e) as nat);
            assert(p <= 4096) by (nonlinear_arith)
                requires
                    pow2(12) == p * pow2((12 - e) as nat),
                    pow2((12 - e) as nat) >= 1,
                    pow2(12) == 4096,
            ;
            assert(m * p <= 0x20_0000_0000_0000 * 4096) by (nonlinear_arith)
                requires
                    m <= 0x20_0000_0000_0000,
                    p <= 4096,
            ;
        }
        let v: u128 = (m as u128) * p;
        if v > u64::MAX as u128 {
            u64::MAX
        } else {
            v as u64
        }
    } else if e <= -64 {
        proof {
            let k = (-e) as nat;
            lemma_pow2_adds(64, (k - 64) as nat);
            lemma_pow2_pos((k - 64) as nat);
            assert(pow2(k) > m) by (nonlinear_arith)
                requires
                    pow2(k) == pow2(64) * pow2((k - 64) as nat),
                    pow2((k - 64) as nat) >= 1,
                    m < pow2(64),
            ;
            lemma_fundamental_div_mod_converse(m as int, pow2(k) as int, 0, m as int);
        }
        0
    } else {
        let p = power_of_two((-e) as u32);
        proof {
            lemma_fundamental_div_mod(m as int, p as int);
            lemma_mod_bound(m as int, p as int);
            let q = m as int / p as int;
            let r = m as int % p as int;
            assert(0 <= q <= m) by (nonlinear_arith)
                requires
                    m == p * q + r,
                    0 <= r < p,
                    m >= 0,
            ;
        }
        ((m as u128) / p) as u64
    }
}

// ── Decimal numbers ─────────────────────────────────────────────────────────

/// The double nearest to the decimal number `whole.fraction`, times `factor`, truncated.
pub fn scaled_decimal(whole: &Vec<u8>, fraction: &Vec<u8>, factor: u64) -> (r: u64)
    requires
        are_digits(whole@),
        are_digits(fraction@),
        0 < factor <= pow2(40),
    ensures
        r == scaled_double(digits_value(whole@ + fraction@), pow10(fraction@.len()), factor as nat),
{
    let ghost d = pow10(fraction@.len());
    let ghost n = digits_value(whole@ + fraction@);
    proof {
        lemma2_to64();
        lemma2_to64_rest();
        lemma_pow10_pos(fraction@.len());
        lemma_digits_concat(whole@, fraction@);
        lemma_digits_bound(fraction@);
    }
    // The digits in front of the point.
    let mut units: u128 = 0;
    let mut i: usize = 0;
    while i < whole.len()
        invariant
            i <= whole@.len(),
            are_digits(whole@),
            units == digits_value(whole@.take(i as int)),
            units < pow2(64),
            pow2(64) == u64::MAX + 1,
            d > 0,
            d == pow10(fraction@.len()),
            n == digits_value(whole@) * d + digits_value(fraction@),
            n == digits_value(whole@ + fraction@),
            factor > 0,
        decreases whole@.len() - i,
    {
        proof {
            assert(whole@.take(i + 1).drop_last() =~= whole@.take(i as int));
        }
        units = 10 * units + whole[i] as u128;
        i = i + 1;
        if units > u64::MAX as u128 {
            proof {
                let rest = whole@.skip(i as int);
                assert(whole@ =~= whole@.take(i as int) + rest);
                lemma_digits_concat(whole@.take(i as int), rest);
                lemma_pow10_pos(rest.len());
                assert(digits_value(whole@) >= units) by (nonlinear_arith)
                    requires
                        digits_value(whole@) == units * pow10(rest.len()) + digits_value(rest),
                        pow10(rest.len()) >= 1,
                ;
                assert(n >= pow2(64) * d) by (nonlinear_arith)
                    requires
                        n == digits_value(whole@) * d + digits_value(fraction@),
                        digits_value(whole@) >= pow2(64),
                ;
                lemma_huge(n, d, factor as nat);
            }
            return u64::MAX;
        }
    }
    proof {
        assert(whole@.take(whole@.len() as int) =~= whole@);
    }
    // The binary digits behind the point, one carry at a time.
    let places: u32 = if units > 0 {
        64
    } else {
        128
    };
    let mut digits: Vec<u8> = fraction.clone();
    proof {
        assert(digits@ =~= fraction@);
    }
    let mut bits: u128 = 0;
    let mut j: u32 = 0;
    while j < places
        invariant
            j <= places <= 128,
            are_digits(digits@),
            digits@.len() == fraction@.len(),
            bits < pow2(j as nat),
            digits_value(fraction@) * pow2(j as nat) == bits * pow10(fraction@.len())
                + digits_value(digits@),
            pow2(1) == 2,
        decreases places - j,
    {
        let ghost held = digits@;
        let ghost seen = bits;
        let carry = double_fraction(&mut digits);
        proof {
            lemma_pow2_adds(1, j as nat);
            lemma_pow2_128();
            lemma_pow2_adds((j + 1) as nat, (127 - j) as nat);
            lemma_pow2_pos((127 - j) as nat);
            assert(2 * seen + 1 < pow2(128)) by (nonlinear_arith)
                requires
                    seen < pow2(j as nat),
                    pow2((j + 1) as nat) == 2 * pow2(j as nat),
                    pow2(128) == pow2((j + 1) as nat) * pow2((127 - j) as nat),
                    pow2((127 - j) as nat) >= 1,
            ;
        }
        bits = 2 * bits + carry as u128;
        j = j + 1;
        proof {
            let t = pow10(fraction@.len());
            let v = digits_value(fraction@);
            assert(v * pow2(j as nat) == bits * t + digits_value(digits@)) by (nonlinear_arith)
                requires
                    v * pow2((j - 1) as nat) == seen * t + digits_value(held),
                    pow2(j as nat) == 2 * pow2((j - 1) as nat),
                    bits == 2 * seen + carry,
                    2 * digits_value(held) == carry * t + digits_value(digits@),
            ;
        }
    }
    let sticky = any_nonzero(&digits);
    proof {
        lemma_pow2_128();
    }
    proof {
        assert(units * 0x1_0000_0000_0000_0000 <= u64::MAX * 0x1_0000_0000_0000_0000)
            by (nonlinear_arith)
            requires
                units <= u64::MAX,
        ;
    }
    let x: u128 = if units > 0 {
        units * 0x1_0000_0000_0000_0000 + bits
    } else {
        bits
    };
    let ghost p = places as nat;
    let ghost a = n * pow2(p);
    let ghost f = digits_value(digits@);
    proof {
        let v = digits_value(fraction@);
        assert(x == units * pow2(p) + bits) by {
            if units == 0 {
                assert(units * pow2(p) == 0) by (nonlinear_arith)
                    requires
                        units == 0,
                ;
            }
        }
        assert(a == x * d + f) by (nonlinear_arith)
            requires
                a == n * pow2(p),
                n == units * d + v,
                v * pow2(p) == bits * d + f,
                x == units * pow2(p) + bits,
        ;
        lemma_digits_bound(digits@);
        lemma_fundamental_div_mod_converse(a as int, d as int, x as int, f as int);
    }
    if x < 0x1_0000_0000_0000_0000 {
        proof {
            lemma_pow2_adds(64, 64);
            assert(places == 128) by {
                if units > 0 {
                    assert(units * 0x1_0000_0000_0000_0000 >= 0x1_0000_0000_0000_0000)
                        by (nonlinear_arith)
                        requires
                            units >= 1,
                    ;
                }
            }
            assert(n * pow2(64) < d) by (nonlinear_arith)
                requires
                    n * pow2(128) == x * d + f,
                    f < d,
                    x < pow2(64),
                    pow2(128) == pow2(64) * pow2(64),
                    pow2(64) > 0,
                    d > 0,
            ;
            lemma_tiny(n, d, factor as nat);
        }
        return 0;
    }
    let (m1, s1) = round_to_significand(x, sticky);
    proof {
        let u = pow2(s1 as nat);
        assert(pow2(52) * (d * u) <= a < pow2(53) * (d * u)) by (nonlinear_arith)
            requires
                pow2(52) * u <= x < pow2(53) * u,
                a == x * d + f,
                0 <= f < d,
        ;
        if n == 0 {
            assert(a == 0) by (nonlinear_arith)
                requires
                    a == n * pow2(p),
                    n == 0,
            ;
        }
        lemma_nearest(n, d, p, s1 as nat);
        lemma_sticky(a, d, s1 as nat);
        assert(pow2(52) <= m1 * factor <= pow2(53) * pow2(40)) by (nonlinear_arith)
            requires
                pow2(52) <= m1 <= pow2(53),
                1 <= factor <= pow2(40),
        ;
        lemma_pow2_adds(53, 40);
        lemma_pow2_adds(93, 35);
    }
    let y: u128 = (m1 as u128) * (factor as u128);
    let (m2, s2) = round_to_significand(y, false);
    proof {
        let u = pow2(s2 as nat);
        assert(y * pow2(0) == y);
        assert(1 * u == u);
        lemma_nearest(y as nat, 1, 0, s2 as nat);
        assert(y as nat / 1 == y);
        assert(y as nat % 1 == 0);
        lemma_sticky(y as nat, 1, s2 as nat);
    }
    truncate(m2, s1 as i64 - places as i64 + s2 as i64)
}

/// Whether a digit is not zero.
fn any_nonzero(digits: &Vec<u8>) -> (r: bool)
    ensures
        r == (digits_value(digits@) != 0),
{
    let mut i: usize = 0;
    proof {
        lemma_digits_zero(digits@);
    }
    while i < digits.len()
        invariant
            i <= digits@.len(),
            forall|j: int| 0 <= j < i ==> digits@[j] == 0,
            digits_value(digits@) == 0 <==> (forall|j: int|
                0 <= j < digits@.len() ==> digits@[j] == 0),
        decreases digits@.len() - i,
    {
        if digits[i] != 0 {
            return true;
        }
        i = i + 1;
    }
    false
}

} // verus!
