//! Saturating fixed-point arithmetic in millionths.
//!
//! Every real-valued quantity of the performance pipeline is a `Fix`:
//! a non-negative number stored as an integer count of millionths.
//! Subtraction floors at zero and every operation saturates at the
//! largest representable value, so no operation panics and each one is
//! pinned to an exact integer-level specification.

use vstd::prelude::*;

verus! {

/// Number of raw units that make up 1.0.
pub const SCALE: u64 = 1_000_000;

/// A non-negative fixed-point number; `raw` counts millionths.
#[derive(Clone, Copy, Debug, PartialEq, Eq, Structural)]
pub struct Fix {
    pub raw: u64,
}

/// Clamp an unbounded integer into the representable range.
pub open spec fn cap(x: int) -> int {
    if x > u64::MAX as int {
        u64::MAX as int
    } else if x < 0 {
        0
    } else {
        x
    }
}

/// Saturating addition on raw values.
pub open spec fn fadd_s(a: int, b: int) -> int {
    cap(a + b)
}

/// Saturating (floored-at-zero) subtraction on raw values.
pub open spec fn fsub_s(a: int, b: int) -> int {
    if a >= b {
        a - b
    } else {
        0
    }
}

/// Fixed-point product on raw values: `a * b / SCALE`, saturated.
pub open spec fn fmul_s(a: int, b: int) -> int {
    cap((a * b) / (SCALE as int))
}

/// Fixed-point quotient on raw values: `a * SCALE / b`, saturated.
/// Division by zero saturates, modelling an unbounded ratio.
pub open spec fn fdiv_s(a: int, b: int) -> int {
    if b == 0 {
        u64::MAX as int
    } else {
        cap((a * (SCALE as int)) / b)
    }
}

/// Raw image of the integer `n`: `n * SCALE`, saturated.
pub open spec fn int_fix_s(n: int) -> int {
    cap(n * (SCALE as int))
}

/// Smaller of two raw values.
pub open spec fn fmin_s(a: int, b: int) -> int {
    if a <= b {
        a
    } else {
        b
    }
}

/// Larger of two raw values.
pub open spec fn fmax_s(a: int, b: int) -> int {
    if a >= b {
        a
    } else {
        b
    }
}

impl Fix {
    /// The value zero.
    pub fn zero() -> (r: Fix)
        ensures
            r.raw == 0,
    {
        Fix { raw: 0 }
    }

    /// The value one.
    pub fn one() -> (r: Fix)
        ensures
            r.raw == SCALE,
    {
        Fix { raw: SCALE }
    }

    /// The fixed-point number holding `raw` millionths.
    pub fn from_raw(raw: u64) -> (r: Fix)
        ensures
            r.raw == raw,
    {
        Fix { raw }
    }

    /// The fixed-point image of the integer `n`, saturated.
    pub fn from_int(n: u64) -> (r: Fix)
        ensures
            r.raw == int_fix_s(n as int),
    {
        proof {
            vstd::arithmetic::mul::lemma_mul_upper_bound(
                n as int,
                u64::MAX as int,
                SCALE as int,
                SCALE as int,
            );
        }
        let p: u128 = (n as u128) * (SCALE as u128);
        if p > u64::MAX as u128 {
            Fix { raw: u64::MAX }
        } else {
            Fix { raw: p as u64 }
        }
    }
}

/// Saturating addition.
pub fn fadd(a: Fix, b: Fix) -> (r: Fix)
    ensures
        r.raw == fadd_s(a.raw as int, b.raw as int),
{
    Fix { raw: a.raw.checked_add(b.raw).unwrap_or(u64::MAX) }
}

/// Saturating subtraction, floored at zero.
pub fn fsub(a: Fix, b: Fix) -> (r: Fix)
    ensures
        r.raw == fsub_s(a.raw as int, b.raw as int),
{
    if a.raw >= b.raw {
        Fix { raw: a.raw - b.raw }
    } else {
        Fix { raw: 0 }
    }
}

/// Saturating fixed-point multiplication.
pub fn fmul(a: Fix, b: Fix) -> (r: Fix)
    ensures
        r.raw == fmul_s(a.raw as int, b.raw as int),
{
    proof {
        vstd::arithmetic::mul::lemma_mul_upper_bound(
            a.raw as int,
            u64::MAX as int,
            b.raw as int,
            u64::MAX as int,
        );
    }
    let p: u128 = (a.raw as u128) * (b.raw as u128) / (SCALE as u128);
    if p > u64::MAX as u128 {
        Fix { raw: u64::MAX }
    } else {
        Fix { raw: p as u64 }
    }
}

/// Saturating fixed-point division; division by zero saturates.
pub fn fdiv(a: Fix, b: Fix) -> (r: Fix)
    ensures
        r.raw == fdiv_s(a.raw as int, b.raw as int),
{
    if b.raw == 0 {
        return Fix { raw: u64::MAX };
    }
    proof {
        vstd::arithmetic::mul::lemma_mul_upper_bound(
            a.raw as int,
            u64::MAX as int,
            SCALE as int,
            SCALE as int,
        );
    }
    let p: u128 = (a.raw as u128) * (SCALE as u128) / (b.raw as u128);
    if p > u64::MAX as u128 {
        Fix { raw: u64::MAX }
    } else {
        Fix { raw: p as u64 }
    }
}

/// Smaller of two fixed-point numbers.
pub fn fmin(a: Fix, b: Fix) -> (r: Fix)
    ensures
        r.raw == fmin_s(a.raw as int, b.raw as int),
{
    if a.raw <= b.raw {
        a
    } else {
        b
    }
}

/// Larger of two fixed-point numbers.
pub fn fmax(a: Fix, b: Fix) -> (r: Fix)
    ensures
        r.raw == fmax_s(a.raw as int, b.raw as int),
{
    if a.raw >= b.raw {
        a
    } else {
        b
    }
}

/// Square of an integer.
pub open spec fn sq(x: int) -> int {
    x * x
}

/// Fifth power of an integer.
pub open spec fn pow5(x: int) -> int {
    x * x * x * x * x
}

/// `r` is the floor of the square root of `v`.
pub open spec fn is_sqrt_floor(v: int, r: int) -> bool {
    0 <= r && sq(r) <= v && v < sq(r + 1)
}

/// Floor of the square root of `v`.
pub open spec fn sqrt_floor(v: int) -> int {
    choose|r: int| is_sqrt_floor(v, r)
}

/// `r` is the floor of the fifth root of `v`.
pub open spec fn is_root5_floor(v: int, r: int) -> bool {
    0 <= r && pow5(r) <= v && v < pow5(r + 1)
}

/// Floor of the fifth root of `v`.
pub open spec fn root5_floor(v: int) -> int {
    choose|r: int| is_root5_floor(v, r)
}

proof fn lemma_sqrt_floor_unique(v: int, r: int)
    requires
        is_sqrt_floor(v, r),
    ensures
        sqrt_floor(v) == r,
{
    assert(exists|x: int| is_sqrt_floor(v, x));
    let c = sqrt_floor(v);
    assert(is_sqrt_floor(v, c));
    if c < r {
        assert(sq(c + 1) <= sq(r)) by (nonlinear_arith)
            requires
                0 <= c < r,
        ;
    }
    if r < c {
        assert(sq(r + 1) <= sq(c)) by (nonlinear_arith)
            requires
                0 <= r < c,
        ;
    }
}

proof fn lemma_root5_floor_unique(v: int, r: int)
    requires
        is_root5_floor(v, r),
    ensures
        root5_floor(v) == r,
{
    assert(exists|x: int| is_root5_floor(v, x));
    let c = root5_floor(v);
    assert(is_root5_floor(v, c));
    if c < r {
        assert(pow5(c + 1) <= pow5(r)) by (nonlinear_arith)
            requires
                0 <= c < r,
        ;
    }
    if r < c {
        assert(pow5(r + 1) <= pow5(c)) by (nonlinear_arith)
            requires
                0 <= r < c,
        ;
    }
}

fn isqrt_rec(v: u128, lo: u64, hi: u64) -> (r: u64)
    requires
        lo < hi,
        hi <= 0x800_0000_0000,
        sq(lo as int) <= v as int,
        (v as int) < sq(hi as int),
    ensures
        is_sqrt_floor(v as int, r as int),
    decreases hi - lo,
{
    if hi - lo == 1 {
        lo
    } else {
        let mid = lo + (hi - lo) / 2;
        proof {
            assert((mid as int) * (mid as int) <= 0x800_0000_0000 * 0x800_0000_0000)
                by (nonlinear_arith)
                requires
                    0 <= mid as int <= 0x800_0000_0000,
            ;
        }
        let m2 = (mid as u128) * (mid as u128);
        if m2 <= v {
            isqrt_rec(v, mid, hi)
        } else {
            isqrt_rec(v, lo, mid)
        }
    }
}

fn root5_rec(v: u128, lo: u64, hi: u64) -> (r: u64)
    requires
        lo < hi,
        hi <= 0x200_0000,
        pow5(lo as int) <= v as int,
        (v as int) < pow5(hi as int),
    ensures
        is_root5_floor(v as int, r as int),
    decreases hi - lo,
{
    if hi - lo == 1 {
        lo
    } else {
        let mid = lo + (hi - lo) / 2;
        proof {
            assert(pow5(mid as int) < pow5(0x200_0001)) by (nonlinear_arith)
                requires
                    0 <= mid as int <= 0x200_0000,
            ;
            assert(pow5(0x200_0001) < u128::MAX as int) by (nonlinear_arith);
        }
        let m = mid as u128;
        proof {
            let mi = m as int;
            assert(mi * mi <= 0x200_0000 * 0x200_0000 && mi * mi * mi <= 0x200_0000 * 0x200_0000
                * 0x200_0000 && mi * mi * mi * mi <= 0x200_0000 * 0x200_0000 * 0x200_0000
                * 0x200_0000 && mi * mi * mi * mi * mi <= 0x200_0000 * 0x200_0000 * 0x200_0000
                * 0x200_0000 * 0x200_0000) by (nonlinear_arith)
                requires
                    0 <= mi <= 0x200_0000,
            ;
        }
        let m5 = m * m * m * m * m;
        assert(m5 == pow5(mid as int)) by (nonlinear_arith)
            requires
                m == mid as int && m5 == m * m * m * m * m,
        ;
        if m5 <= v {
            root5_rec(v, mid, hi)
        } else {
            root5_rec(v, lo, mid)
        }
    }
}

/// Floor square root in fixed point: the raw result is the floor of
/// the square root of `raw * SCALE`.
pub open spec fn fsqrt_s(x: int) -> int {
    sqrt_floor(x * (SCALE as int))
}

/// Fixed-point square root, rounded down.
pub fn fsqrt(x: Fix) -> (r: Fix)
    ensures
        r.raw == fsqrt_s(x.raw as int),
{
    let v = (x.raw as u128) * (SCALE as u128);
    proof {
        vstd::arithmetic::mul::lemma_mul_upper_bound(
            x.raw as int,
            u64::MAX as int,
            SCALE as int,
            SCALE as int,
        );
        assert((v as int) < sq(0x800_0000_0000)) by (nonlinear_arith)
            requires
                v as int <= (u64::MAX as int) * (SCALE as int),
        ;
    }
    let r = isqrt_rec(v, 0, 0x800_0000_0000);
    proof {
        lemma_sqrt_floor_unique(v as int, r as int);
    }
    Fix { raw: r }
}

/// Saturation bound of the four-fifths power: `2^125 - 1`.
pub const POW45_CAP: u128 = 0x1fff_ffff_ffff_ffff_ffff_ffff_ffff_ffff;

/// Raw image of the four-fifths power `x^(4/5)`: the floor fifth root
/// of `x^4 * SCALE`, with the radicand saturated at `POW45_CAP`.
#[verifier::opaque]
pub open spec fn fpow45_s(x: int) -> int {
    root5_floor(fmin_s(x * x * x * x * (SCALE as int), POW45_CAP as int))
}

/// Fixed-point `x^(4/5)`, rounded down; saturates for raw values
/// beyond roughly eighty units.
pub fn fpow45(x: Fix) -> (r: Fix)
    ensures
        r.raw == fpow45_s(x.raw as int),
{
    proof {
        reveal(fpow45_s);
        assert((x.raw as int) * (x.raw as int) <= (u64::MAX as int) * (u64::MAX as int))
            by (nonlinear_arith)
            requires
                0 <= x.raw as int <= u64::MAX as int,
        ;
    }
    let x2 = (x.raw as u128) * (x.raw as u128);
    let v: u128 = match x2.checked_mul(x2) {
        Some(x4) => match x4.checked_mul(SCALE as u128) {
            Some(w) => {
                if w > POW45_CAP {
                    POW45_CAP
                } else {
                    w
                }
            },
            None => POW45_CAP,
        },
        None => POW45_CAP,
    };
    proof {
        let xi = x.raw as int;
        assert(x2 as int == xi * xi);
        assert(xi * xi * (xi * xi) == xi * xi * xi * xi) by (nonlinear_arith);
        assert(xi * xi * xi * xi * (SCALE as int) >= 0) by (nonlinear_arith)
            requires
                xi >= 0,
        ;
        if x2 * x2 > u128::MAX {
            assert((POW45_CAP as int) <= (u128::MAX as int) * (SCALE as int)) by (nonlinear_arith);
            assert(xi * xi * xi * xi * (SCALE as int) > (u128::MAX as int) * (SCALE as int)) by (nonlinear_arith)
                requires
                    xi * xi * (xi * xi) == xi * xi * xi * xi && xi * xi * (xi * xi) > u128::MAX
                        as int,
            ;
        } else {
            if (x2 * x2) * (SCALE as u128) > u128::MAX {
                assert(v as int == fmin_s(xi * xi * xi * xi * (SCALE as int), POW45_CAP as int));
            }
        }
        assert(v as int == fmin_s(xi * xi * xi * xi * (SCALE as int), POW45_CAP as int));
        assert((v as int) < pow5(0x200_0000)) by (nonlinear_arith)
            requires
                v as int <= POW45_CAP as int,
        ;
    }
    let r = root5_rec(v, 0, 0x200_0000);
    proof {
        lemma_root5_floor_unique(v as int, r as int);
    }
    Fix { raw: r }
}

/// Raw image of the integer power `b^n` in fixed point.
pub open spec fn powi_s(b: int, n: nat) -> int
    decreases n,
{
    if n == 0 {
        SCALE as int
    } else {
        fmul_s(b, powi_s(b, (n - 1) as nat))
    }
}

/// Fixed-point integer power.
pub fn fpowi(b: Fix, n: u64) -> (r: Fix)
    ensures
        r.raw == powi_s(b.raw as int, n as nat),
    decreases n,
{
    if n == 0 {
        Fix::one()
    } else {
        fmul(b, fpowi(b, n - 1))
    }
}

/// Base-two exponential digit: `2^(2^-i)` in millionths, for the
/// digit-by-digit evaluation of fractional exponents.
pub open spec fn exp2_digit_s(i: int) -> int {
    if i == 1 {
        1414214
    } else if i == 2 {
        1189207
    } else if i == 3 {
        1090508
    } else if i == 4 {
        1044274
    } else if i == 5 {
        1021897
    } else if i == 6 {
        1010889
    } else if i == 7 {
        1005430
    } else if i == 8 {
        1002711
    } else if i == 9 {
        1001355
    } else if i == 10 {
        1000677
    } else if i == 11 {
        1000339
    } else if i == 12 {
        1000169
    } else if i == 13 {
        1000085
    } else if i == 14 {
        1000042
    } else if i == 15 {
        1000021
    } else if i == 16 {
        1000011
    } else if i == 17 {
        1000005
    } else if i == 18 {
        1000003
    } else if i == 19 {
        1000001
    } else if i == 20 {
        1000001
    } else {
        SCALE as int
    }
}

fn exp2_digit(i: u64) -> (r: u64)
    ensures
        r as int == exp2_digit_s(i as int),
{
    if i == 1 {
        1414214
    } else if i == 2 {
        1189207
    } else if i == 3 {
        1090508
    } else if i == 4 {
        1044274
    } else if i == 5 {
        1021897
    } else if i == 6 {
        1010889
    } else if i == 7 {
        1005430
    } else if i == 8 {
        1002711
    } else if i == 9 {
        1001355
    } else if i == 10 {
        1000677
    } else if i == 11 {
        1000339
    } else if i == 12 {
        1000169
    } else if i == 13 {
        1000085
    } else if i == 14 {
        1000042
    } else if i == 15 {
        1000021
    } else if i == 16 {
        1000011
    } else if i == 17 {
        1000005
    } else if i == 18 {
        1000003
    } else if i == 19 {
        1000001
    } else if i == 20 {
        1000001
    } else {
        SCALE
    }
}

/// Digit-by-digit `2^(f/SCALE)` for a fractional exponent `f`,
/// starting at digit `i`.
pub open spec fn exp2_frac_s(f: int, i: int) -> int
    decreases 21 - i,
{
    if i >= 21 || i < 1 {
        SCALE as int
    } else {
        let f2 = f * 2;
        if f2 >= SCALE as int {
            fmul_s(exp2_digit_s(i), exp2_frac_s(f2 - SCALE as int, i + 1))
        } else {
            exp2_frac_s(f2, i + 1)
        }
    }
}

fn exp2_frac(f: u64, i: u64) -> (r: u64)
    requires
        f < SCALE,
        1 <= i,
    ensures
        r as int == exp2_frac_s(f as int, i as int),
    decreases 21 - i,
{
    if i >= 21 {
        SCALE
    } else {
        let f2 = 2 * f;
        if f2 >= SCALE {
            fmul(Fix { raw: exp2_digit(i) }, Fix { raw: exp2_frac(f2 - SCALE, i + 1) }).raw
        } else {
            exp2_frac(f2, i + 1)
        }
    }
}

/// `x * 2^k`, saturated, one doubling at a time.
pub open spec fn shl_s(x: int, k: int) -> int
    decreases k,
{
    if k <= 0 {
        x
    } else {
        shl_s(cap(2 * x), k - 1)
    }
}

fn shl_sat(x: u64, k: u64) -> (r: u64)
    ensures
        r as int == shl_s(x as int, k as int),
    decreases k,
{
    if k == 0 {
        x
    } else if x > u64::MAX / 2 {
        shl_sat(u64::MAX, k - 1)
    } else {
        shl_sat(2 * x, k - 1)
    }
}

/// Raw image of `2^(e/SCALE)`, saturated.
#[verifier::opaque]
pub open spec fn exp2_s(e: int) -> int {
    let ip = e / (SCALE as int);
    let fr = e % (SCALE as int);
    if ip >= 64 {
        u64::MAX as int
    } else {
        shl_s(exp2_frac_s(fr, 1), ip)
    }
}

/// Fixed-point base-two exponential, saturated.
pub fn fexp2(e: Fix) -> (r: Fix)
    ensures
        r.raw == exp2_s(e.raw as int),
{
    proof {
        reveal(exp2_s);
    }
    let ip = e.raw / SCALE;
    let fr = e.raw % SCALE;
    if ip >= 64 {
        Fix { raw: u64::MAX }
    } else {
        Fix { raw: shl_sat(exp2_frac(fr, 1), ip) }
    }
}

/// Halve `m` until it lies below `2 * SCALE`; yields the mantissa and
/// the number of halvings.
pub open spec fn log2_norm_s(m: int) -> (int, int)
    decreases m,
{
    if m < 2 * (SCALE as int) {
        (m, 0)
    } else {
        let p = log2_norm_s(m / 2);
        (p.0, p.1 + 1)
    }
}

fn log2_norm(m: u64) -> (r: (u64, u64))
    requires
        m >= SCALE,
    ensures
        r.0 as int == log2_norm_s(m as int).0,
        r.1 as int == log2_norm_s(m as int).1,
        SCALE <= r.0 < 2 * SCALE,
        (vstd::arithmetic::power2::pow2(r.1 as nat) as int) * (SCALE as int) <= m as int,
    decreases m,
{
    if m < 2 * SCALE {
        proof {
            vstd::arithmetic::power2::lemma2_to64();
        }
        (m, 0)
    } else {
        let p = log2_norm(m / 2);
        proof {
            let w = vstd::arithmetic::power2::pow2(p.1 as nat) as int;
            vstd::arithmetic::power2::lemma_pow2_adds(p.1 as nat, 1);
            vstd::arithmetic::power2::lemma2_to64();
            assert(vstd::arithmetic::power2::pow2((p.1 + 1) as nat) as int == 2 * w);
            assert(2 * (w * (SCALE as int)) <= 2 * ((m as int) / 2)) by (nonlinear_arith)
                requires
                    w * (SCALE as int) <= (m as int) / 2,
            ;
            assert((2 * w) * (SCALE as int) == 2 * (w * (SCALE as int))) by (nonlinear_arith);
            if p.1 >= 64 {
                if p.1 > 64 {
                    vstd::arithmetic::power2::lemma_pow2_strictly_increases(64, p.1 as nat);
                }
                assert(w >= 0x1_0000_0000_0000_0000);
                assert(w * (SCALE as int) >= 0x1_0000_0000_0000_0000 * (SCALE as int))
                    by (nonlinear_arith)
                    requires
                        w >= 0x1_0000_0000_0000_0000,
                ;
            }
        }
        (p.0, p.1 + 1)
    }
}

/// Base-two logarithm digit: `SCALE / 2^i`, rounded down.
pub open spec fn log2_digit_s(i: int) -> int {
    if i == 1 {
        500000
    } else if i == 2 {
        250000
    } else if i == 3 {
        125000
    } else if i == 4 {
        62500
    } else if i == 5 {
        31250
    } else if i == 6 {
        15625
    } else if i == 7 {
        7812
    } else if i == 8 {
        3906
    } else if i == 9 {
        1953
    } else if i == 10 {
        976
    } else if i == 11 {
        488
    } else if i == 12 {
        244
    } else if i == 13 {
        122
    } else if i == 14 {
        61
    } else if i == 15 {
        30
    } else if i == 16 {
        15
    } else if i == 17 {
        7
    } else if i == 18 {
        3
    } else if i == 19 {
        1
    } else {
        0
    }
}

fn log2_digit(i: u64) -> (r: u64)
    ensures
        r as int == log2_digit_s(i as int),
{
    if i == 1 {
        500000
    } else if i == 2 {
        250000
    } else if i == 3 {
        125000
    } else if i == 4 {
        62500
    } else if i == 5 {
        31250
    } else if i == 6 {
        15625
    } else if i == 7 {
        7812
    } else if i == 8 {
        3906
    } else if i == 9 {
        1953
    } else if i == 10 {
        976
    } else if i == 11 {
        488
    } else if i == 12 {
        244
    } else if i == 13 {
        122
    } else if i == 14 {
        61
    } else if i == 15 {
        30
    } else if i == 16 {
        15
    } else if i == 17 {
        7
    } else if i == 18 {
        3
    } else if i == 19 {
        1
    } else {
        0
    }
}

/// Fractional digits of the base-two logarithm of a mantissa in
/// `[SCALE, 2 * SCALE)`, starting at digit `i`.
pub open spec fn log2_frac_s(m: int, i: int) -> int
    decreases 21 - i,
{
    if i >= 21 || i < 1 {
        0
    } else {
        let m2 = fmul_s(m, m);
        if m2 >= 2 * (SCALE as int) {
            log2_digit_s(i) + log2_frac_s(m2 / 2, i + 1)
        } else {
            log2_frac_s(m2, i + 1)
        }
    }
}

fn log2_frac(m: u64, i: u64) -> (r: u64)
    requires
        m < 2 * SCALE,
        1 <= i,
    ensures
        r as int == log2_frac_s(m as int, i as int),
        r as int <= 2 * log2_digit_s(i as int),
    decreases 21 - i,
{
    if i >= 21 {
        0
    } else {
        proof {
            assert((m as int) * (m as int) < 4 * (SCALE as int) * (SCALE as int))
                by (nonlinear_arith)
                requires
                    0 <= (m as int) && (m as int) < 2 * (SCALE as int),
            ;
            vstd::arithmetic::div_mod::lemma_multiply_divide_lt(
                (m as int) * (m as int),
                4 * (SCALE as int),
                SCALE as int,
            );
        }
        let m2 = fmul(Fix { raw: m }, Fix { raw: m }).raw;
        if m2 >= 2 * SCALE {
            log2_digit(i) + log2_frac(m2 / 2, i + 1)
        } else {
            log2_frac(m2, i + 1)
        }
    }
}

/// Raw image of the base-two logarithm of `x`, for `x` at least one.
#[verifier::opaque]
pub open spec fn log2u_s(x: int) -> int {
    let p = log2_norm_s(x);
    cap(p.1 * (SCALE as int) + log2_frac_s(p.0, 1))
}

/// Fixed-point base-two logarithm; the argument must be at least one.
pub fn flog2u(x: Fix) -> (r: Fix)
    requires
        x.raw >= SCALE,
    ensures
        r.raw == log2u_s(x.raw as int),
{
    proof {
        reveal(log2u_s);
    }
    let (m, k) = log2_norm(x.raw);
    let fr = log2_frac(m, 1);
    let kk = k.checked_mul(SCALE).unwrap_or(u64::MAX);
    Fix { raw: kk.checked_add(fr).unwrap_or(u64::MAX) }
}

/// `log10(2)` in millionths.
pub const LOG10_2: u64 = 301030;

/// Raw image of the base-ten logarithm of `x`, for `x` at least one.
#[verifier::opaque]
pub open spec fn log10u_s(x: int) -> int {
    fmul_s(log2u_s(x), LOG10_2 as int)
}

/// Fixed-point base-ten logarithm; the argument must be at least one.
pub fn flog10u(x: Fix) -> (r: Fix)
    requires
        x.raw >= SCALE,
    ensures
        r.raw == log10u_s(x.raw as int),
{
    proof {
        reveal(log10u_s);
    }
    fmul(flog2u(x), Fix { raw: LOG10_2 })
}

/// Raw image of the general power `b^e` for non-negative fixed-point
/// base and exponent, evaluated through base-two logarithms.
#[verifier::opaque]
pub open spec fn powf_s(b: int, e: int) -> int {
    if e == 0 {
        SCALE as int
    } else if b == 0 {
        0
    } else if b >= SCALE as int {
        exp2_s(fmul_s(e, log2u_s(b)))
    } else {
        fdiv_s(SCALE as int, exp2_s(fmul_s(e, log2u_s(fdiv_s(SCALE as int, b)))))
    }
}

/// Fixed-point general power `b^e`.
pub fn fpowf(b: Fix, e: Fix) -> (r: Fix)
    ensures
        r.raw == powf_s(b.raw as int, e.raw as int),
{
    proof {
        reveal(powf_s);
    }
    if e.raw == 0 {
        Fix::one()
    } else if b.raw == 0 {
        Fix::zero()
    } else if b.raw >= SCALE {
        fexp2(fmul(e, flog2u(b)))
    } else {
        let inv = fdiv(Fix::one(), b);
        proof {
            assert((SCALE as int) * (SCALE as int) / (b.raw as int) >= SCALE as int)
                by (nonlinear_arith)
                requires
                    0 < (b.raw as int) && (b.raw as int) < (SCALE as int),
            ;
        }
        fdiv(Fix::one(), fexp2(fmul(e, flog2u(inv))))
    }
}

/// The product in `fmul_s` never shrinks when either factor grows.
pub proof fn lemma_fmul_s_mono(a1: int, b1: int, a2: int, b2: int)
    requires
        0 <= a1 <= a2,
        0 <= b1 <= b2,
    ensures
        fmul_s(a1, b1) <= fmul_s(a2, b2),
{
    vstd::arithmetic::mul::lemma_mul_inequality(a1, a2, b1);
    vstd::arithmetic::mul::lemma_mul_inequality(b1, b2, a2);
    vstd::arithmetic::mul::lemma_mul_is_commutative(a2, b1);
    vstd::arithmetic::mul::lemma_mul_is_commutative(a2, b2);
    vstd::arithmetic::div_mod::lemma_div_is_ordered(a1 * b1, a2 * b2, SCALE as int);
}

/// The quotient in `fdiv_s` never shrinks when the dividend grows.
pub proof fn lemma_fdiv_s_mono_num(a1: int, a2: int, b: int)
    requires
        0 <= a1 <= a2,
        0 <= b,
    ensures
        fdiv_s(a1, b) <= fdiv_s(a2, b),
{
    if b != 0 {
        vstd::arithmetic::mul::lemma_mul_inequality(a1, a2, SCALE as int);
        vstd::arithmetic::div_mod::lemma_div_is_ordered(
            a1 * (SCALE as int),
            a2 * (SCALE as int),
            b,
        );
    }
}

/// Fixed-point integer powers are monotone in the base.
pub proof fn lemma_powi_s_mono(b1: int, b2: int, n: nat)
    requires
        0 <= b1 <= b2,
    ensures
        powi_s(b1, n) <= powi_s(b2, n),
    decreases n,
{
    if n > 0 {
        lemma_powi_s_mono(b1, b2, (n - 1) as nat);
        lemma_fmul_s_mono(b1, powi_s(b1, (n - 1) as nat), b2, powi_s(b2, (n - 1) as nat));
    }
}

proof fn lemma_root5_exists(v: int, lo: int, hi: int)
    requires
        0 <= lo < hi,
        pow5(lo) <= v < pow5(hi),
    ensures
        exists|r: int| is_root5_floor(v, r),
    decreases hi - lo,
{
    if hi - lo == 1 {
        assert(is_root5_floor(v, lo));
    } else {
        let mid = lo + (hi - lo) / 2;
        if pow5(mid) <= v {
            lemma_root5_exists(v, mid, hi);
        } else {
            lemma_root5_exists(v, lo, mid);
        }
    }
}

proof fn lemma_root5_floor_mono(v1: int, v2: int)
    requires
        0 <= v1 <= v2,
        v2 < pow5(0x200_0000),
    ensures
        root5_floor(v1) <= root5_floor(v2),
{
    lemma_root5_exists(v1, 0, 0x200_0000);
    lemma_root5_exists(v2, 0, 0x200_0000);
    let r1 = root5_floor(v1);
    let r2 = root5_floor(v2);
    assert(is_root5_floor(v1, r1));
    assert(is_root5_floor(v2, r2));
    if r1 > r2 {
        assert(pow5(r2 + 1) <= pow5(r1)) by (nonlinear_arith)
            requires
                0 <= r2 && r2 + 1 <= r1,
        ;
    }
}

/// The four-fifths power is monotone.
pub proof fn lemma_fpow45_s_mono(x1: int, x2: int)
    requires
        0 <= x1 <= x2,
    ensures
        fpow45_s(x1) <= fpow45_s(x2),
        0 <= fpow45_s(x1),
{
    reveal(fpow45_s);
    assert(x1 * x1 * x1 * x1 * (SCALE as int) <= x2 * x2 * x2 * x2 * (SCALE as int))
        by (nonlinear_arith)
        requires
            0 <= x1 <= x2,
    ;
    assert(x1 * x1 * x1 * x1 * (SCALE as int) >= 0) by (nonlinear_arith)
        requires
            0 <= x1,
    ;
    let v1 = fmin_s(x1 * x1 * x1 * x1 * (SCALE as int), POW45_CAP as int);
    let v2 = fmin_s(x2 * x2 * x2 * x2 * (SCALE as int), POW45_CAP as int);
    assert((POW45_CAP as int) < pow5(0x200_0000)) by (nonlinear_arith);
    lemma_root5_floor_mono(v1, v2);
    lemma_root5_exists(v1, 0, 0x200_0000);
    assert(is_root5_floor(v1, root5_floor(v1)));
}

proof fn lemma_exp2_frac_s_nonneg(f: int, i: int)
    ensures
        0 <= exp2_frac_s(f, i),
    decreases 21 - i,
{
    if i >= 21 || i < 1 {
    } else {
        let f2 = f * 2;
        if f2 >= SCALE as int {
            lemma_exp2_frac_s_nonneg(f2 - SCALE as int, i + 1);
        } else {
            lemma_exp2_frac_s_nonneg(f2, i + 1);
        }
    }
}

proof fn lemma_shl_s_nonneg(x: int, k: int)
    requires
        0 <= x,
    ensures
        0 <= shl_s(x, k),
    decreases k,
{
    if k > 0 {
        lemma_shl_s_nonneg(cap(2 * x), k - 1);
    }
}

/// Every value of the general power is non-negative.
pub proof fn lemma_powf_s_nonneg(b: int, e: int)
    ensures
        0 <= powf_s(b, e),
{
    reveal(powf_s);
    reveal(exp2_s);
    if e != 0 && b != 0 {
        if b >= SCALE as int {
            let y = fmul_s(e, log2u_s(b));
            lemma_exp2_frac_s_nonneg(y % (SCALE as int), 1);
            lemma_shl_s_nonneg(exp2_frac_s(y % (SCALE as int), 1), y / (SCALE as int));
        }
    }
}

} // verus!
