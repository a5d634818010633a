//! Exact integer arithmetic on micro-unit values: powers of ten, decimal
//! digit counts, and floor / ceiling / nearest-integer division.

use vstd::prelude::*;
use vstd::arithmetic::div_mod::lemma_fundamental_div_mod;
use vstd::arithmetic::div_mod::lemma_fundamental_div_mod_converse;

verus! {

/// One whole unit, in micro-units.
pub const MICRO: i64 = 1_000_000;

/// The k-th power of ten.
pub open spec fn pow10(k: nat) -> int
    decreases k,
{
    if k == 0 {
        1
    } else {
        10 * pow10((k - 1) as nat)
    }
}

/// Powers of ten are positive.
pub proof fn lemma_pow10_pos(k: nat)
    ensures
        pow10(k) >= 1,
    decreases k,
{
    if k > 0 {
        lemma_pow10_pos((k - 1) as nat);
    }
}

/// Powers of ten grow with the exponent.
pub proof fn lemma_pow10_mono(a: nat, b: nat)
    requires
        a <= b,
    ensures
        pow10(a) <= pow10(b),
    decreases b,
{
    if a < b {
        lemma_pow10_mono(a, (b - 1) as nat);
        lemma_pow10_pos((b - 1) as nat);
    }
}

/// Number of decimal digits of `n` (zero counts as one digit).
pub open spec fn digit_count(n: nat) -> nat
    decreases n,
{
    if n < 10 {
        1
    } else {
        1 + digit_count(n / 10)
    }
}

/// A positive number lies between the powers of ten that its digit count
/// names.
pub proof fn lemma_digit_count_bounds(n: nat)
    requires
        n >= 1,
    ensures
        pow10((digit_count(n) - 1) as nat) <= n < pow10(digit_count(n)),
    decreases n,
{
    if n >= 10 {
        lemma_digit_count_bounds(n / 10);
        let d = digit_count(n);
        assert(n == 10 * (n / 10) + n % 10) by {
            lemma_fundamental_div_mod(n as int, 10);
        }
        assert(pow10((d - 1) as nat) == 10 * pow10((d - 2) as nat));
        assert(10 * pow10((d - 2) as nat) <= 10 * (n / 10)) by {
            vstd::arithmetic::mul::lemma_mul_inequality(
                pow10((d - 2) as nat),
                n as int / 10,
                10,
            );
        }
        assert(n / 10 < pow10((d - 1) as nat));
        assert(n / 10 + 1 <= pow10((d - 1) as nat));
        assert(10 * (n / 10 + 1) <= 10 * pow10((d - 1) as nat)) by {
            vstd::arithmetic::mul::lemma_mul_inequality(
                n as int / 10 + 1,
                pow10((d - 1) as nat),
                10,
            );
        }
    }
}

/// A number below the k-th power of ten has at most k digits.
pub proof fn lemma_digit_count_le(n: nat, k: nat)
    requires
        k >= 1,
        n < pow10(k),
    ensures
        digit_count(n) <= k,
    decreases n,
{
    if n >= 10 {
        assert(k >= 2) by {
            if k == 1 {
                assert(pow10(1) == 10);
            }
        }
        assert(n / 10 < pow10((k - 1) as nat)) by {
            assert(pow10(k) == 10 * pow10((k - 1) as nat));
            lemma_fundamental_div_mod(n as int, 10);
        }
        lemma_digit_count_le(n / 10, (k - 1) as nat);
    }
}

/// Number of decimal digits of `n`.
pub fn digit_count_u64(n: u64) -> (d: u32)
    ensures
        d == digit_count(n as nat),
        1 <= d <= 20,
{
    proof {
        assert(pow10(20) == 0x56bc75e2d63100000) by {
            reveal_with_fuel(pow10, 21);
        }
        lemma_digit_count_le(n as nat, 20);
    }
    let mut m = n;
    let mut d: u32 = 1;
    while m >= 10
        invariant
            digit_count(n as nat) == d - 1 + digit_count(m as nat),
            1 <= d,
            d - 1 + digit_count(m as nat) <= 20,
        decreases m,
    {
        m = m / 10;
        d = d + 1;
    }
    d
}

/// The k-th power of ten.
pub fn pow10_i64(k: u32) -> (r: i64)
    requires
        k <= 18,
    ensures
        r == pow10(k as nat),
{
    let mut r: i64 = 1;
    let mut i: u32 = 0;
    while i < k
        invariant
            i <= k,
            k <= 18,
            r == pow10(i as nat),
        decreases k - i,
    {
        proof {
            lemma_pow10_pos(i as nat);
            lemma_pow10_mono(i as nat, 17);
            assert(pow10(17) == 100_000_000_000_000_000) by {
                reveal_with_fuel(pow10, 18);
            }
        }
        r = r * 10;
        i = i + 1;
    }
    r
}

/// Division rounding toward negative infinity (as `/` does in
/// specifications, for a positive divisor).
pub fn floor_div_i64(n: i64, d: i64) -> (r: i64)
    requires
        d > 0,
        n > i64::MIN,
    ensures
        r == n as int / d as int,
{
    if n >= 0 {
        let q = (n as u64) / (d as u64);
        proof {
            lemma_fundamental_div_mod(n as int, d as int);
        }
        q as i64
    } else {
        let m = (-n) as u64;
        let du = d as u64;
        let q = m / du;
        let rem = m % du;
        proof {
            lemma_fundamental_div_mod(m as int, du as int);
            assert(m == du * q + rem);
            if rem == 0 {
                assert(n as int == (-(q as int)) * (d as int) + 0) by (nonlinear_arith)
                    requires
                        m == du * q + rem,
                        rem == 0,
                        n as int == -(m as int),
                        du == d,
                ;
                lemma_fundamental_div_mod_converse(n as int, d as int, -(q as int), 0);
            } else {
                assert(n as int == (-(q as int) - 1) * (d as int) + (d - rem)) by (nonlinear_arith)
                    requires
                        m == du * q + rem,
                        n as int == -(m as int),
                        du == d,
                ;
                lemma_fundamental_div_mod_converse(
                    n as int,
                    d as int,
                    -(q as int) - 1,
                    d - rem,
                );
            }
        }
        if rem == 0 {
            -(q as i64)
        } else {
            -(q as i64) - 1
        }
    }
}

/// Division rounding toward positive infinity, for a positive divisor.
pub open spec fn ceil_div(n: int, d: int) -> int {
    (n + d - 1) / d
}

/// Division rounding to the nearest integer, halves away from zero, for a
/// positive divisor.
pub open spec fn round_div(n: int, d: int) -> int {
    if n >= 0 {
        (2 * n + d) / (2 * d)
    } else {
        -((2 * (-n) + d) / (2 * d))
    }
}

/// Nearest-integer division differs from the exact quotient by at most a
/// half.
pub proof fn lemma_round_div_bounds(n: int, d: int)
    requires
        d > 0,
    ensures
        -d <= 2 * (round_div(n, d) * d - n) <= d,
{
    if n >= 0 {
        let q = (2 * n + d) / (2 * d);
        lemma_fundamental_div_mod(2 * n + d, 2 * d);
        let rem = (2 * n + d) % (2 * d);
        assert(2 * n + d == 2 * d * q + rem);
        assert(0 <= rem < 2 * d);
        assert(2 * (q * d - n) == d - rem) by (nonlinear_arith)
            requires
                2 * n + d == 2 * d * q + rem,
        ;
    } else {
        let m = -n;
        let q = (2 * m + d) / (2 * d);
        lemma_fundamental_div_mod(2 * m + d, 2 * d);
        let rem = (2 * m + d) % (2 * d);
        assert(2 * m + d == 2 * d * q + rem);
        assert(0 <= rem < 2 * d);
        assert(2 * ((-q) * d - n) == rem - d) by (nonlinear_arith)
            requires
                2 * m + d == 2 * d * q + rem,
                m == -n,
        ;
    }
}

/// Nearest-integer division of an exact multiple gives the multiplier back.
pub proof fn lemma_round_div_exact(k: int, d: int)
    requires
        d > 0,
    ensures
        round_div(k * d, d) == k,
{
    if k >= 0 {
        assert(k * d >= 0) by (nonlinear_arith)
            requires
                k >= 0,
                d > 0,
        ;
        assert(2 * (k * d) + d == 2 * d * k + d) by (nonlinear_arith);
        lemma_fundamental_div_mod_converse(2 * (k * d) + d, 2 * d, k, d);
    } else {
        assert(k * d < 0) by (nonlinear_arith)
            requires
                k < 0,
                d > 0,
        ;
        assert(2 * (-(k * d)) + d == 2 * d * (-k) + d) by (nonlinear_arith);
        lemma_fundamental_div_mod_converse(2 * (-(k * d)) + d, 2 * d, -k, d);
    }
}

/// `x` clamped to the range of `i64`.
pub open spec fn clamp64(x: int) -> int {
    if x > i64::MAX {
        i64::MAX as int
    } else if x < i64::MIN {
        i64::MIN as int
    } else {
        x
    }
}

/// Nearest-integer division for a non-negative numerator, computed in
/// 128-bit arithmetic.
pub fn round_div_u128(n: u128, d: u128) -> (r: u128)
    requires
        d > 0,
        n <= u128::MAX / 4,
        d <= u128::MAX / 4,
    ensures
        r == round_div(n as int, d as int),
{
    (2 * n + d) / (2 * d)
}

/// `x` clamped to the range of `i32`.
pub open spec fn clamp32(x: int) -> int {
    if x > i32::MAX {
        i32::MAX as int
    } else if x < i32::MIN {
        i32::MIN as int
    } else {
        x
    }
}

/// `t` clamped to the range of `i32`.
pub fn clamp32_i64(t: i64) -> (r: i32)
    ensures
        r == clamp32(t as int),
{
    if t > i32::MAX as i64 {
        i32::MAX
    } else if t < i32::MIN as i64 {
        i32::MIN
    } else {
        t as i32
    }
}

/// A pixel position: `base` plus the ratio `n / d` rounded to the nearest
/// integer, clamped to the range of `i32`.
pub fn map_round(base: i32, n: i128, d: i64) -> (r: i32)
    requires
        d > 0,
        -(i128::MAX / 4) <= n <= i128::MAX / 4,
    ensures
        r == clamp32(base + round_div(n as int, d as int)),
{
    let t: i128 = if n >= 0 {
        let q = round_div_u128(n as u128, d as u128);
        base as i128 + q as i128
    } else {
        let q = round_div_u128((-n) as u128, d as u128);
        base as i128 - q as i128
    };
    if t > i32::MAX as i128 {
        i32::MAX
    } else if t < i32::MIN as i128 {
        i32::MIN
    } else {
        t as i32
    }
}

} // verus!
