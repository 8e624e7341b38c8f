//! Saturating fixed-point scalars.
//!
//! A scalar is an `i64` holding `FX_ONE` times its value, so 20 bits of
//! fraction. Every operation is total: results outside the representable
//! range saturate at `i64::MAX` / `i64::MIN`, and a division by zero yields
//! the saturated value of the numerator's sign (the role infinities play in
//! floating-point slab intersection). Products and quotients truncate toward
//! zero, as the underlying machine division does.

use vstd::prelude::*;

verus! {

/// The fixed-point unit: scalars carry 20 fractional bits.
pub const FX_ONE: i64 = 0x100000;

/// Magnitude of `x`.
pub open spec fn iabs(x: int) -> int {
    if x < 0 {
        -x
    } else {
        x
    }
}

/// Clamp an unbounded result into the representable `i64` range.
pub open spec fn fx_sat(x: int) -> int {
    if x > i64::MAX {
        i64::MAX as int
    } else if x < i64::MIN {
        i64::MIN as int
    } else {
        x
    }
}

/// Division truncated toward zero, the rounding of machine division.
pub open spec fn tdiv(a: int, b: int) -> int
    recommends
        b != 0,
{
    if (a < 0) != (b < 0) {
        -(iabs(a) / iabs(b))
    } else {
        iabs(a) / iabs(b)
    }
}

/// Saturating fixed-point addition.
pub open spec fn spec_add(a: int, b: int) -> int {
    fx_sat(a + b)
}

/// Saturating fixed-point subtraction.
pub open spec fn spec_sub(a: int, b: int) -> int {
    fx_sat(a - b)
}

/// Saturating fixed-point multiplication, truncated toward zero.
pub open spec fn spec_mul(a: int, b: int) -> int {
    fx_sat(tdiv(a * b, FX_ONE as int))
}

/// Saturating fixed-point division, truncated toward zero. A zero divisor
/// saturates by the numerator's sign, standing in for the infinities that
/// floating-point division would produce.
pub open spec fn spec_div(a: int, b: int) -> int {
    if b == 0 {
        if a > 0 {
            i64::MAX as int
        } else if a < 0 {
            i64::MIN as int
        } else {
            0
        }
    } else {
        fx_sat(tdiv(a * FX_ONE, b))
    }
}

/// Saturating negation.
pub open spec fn spec_neg(a: int) -> int {
    fx_sat(-a)
}

/// Saturating magnitude.
pub open spec fn spec_abs(a: int) -> int {
    fx_sat(iabs(a))
}

/// Clamp into the unit interval `[0, FX_ONE]`.
pub open spec fn spec_clamp01(a: int) -> int {
    if a < 0 {
        0
    } else if a > FX_ONE {
        FX_ONE as int
    } else {
        a
    }
}

/// The product of two values in the `i64` range stays well inside the
/// `i128` range.
proof fn lemma_i64_product_range(a: int, b: int)
    requires
        -0x8000000000000000 <= a < 0x8000000000000000,
        -0x8000000000000000 <= b < 0x8000000000000000,
    ensures
        -0x40000000000000000000000000000000 <= a * b,
        a * b <= 0x40000000000000000000000000000000,
{
    assert(-0x40000000000000000000000000000000 <= a * b
        <= 0x40000000000000000000000000000000) by (nonlinear_arith)
        requires
            -0x8000000000000000 <= a < 0x8000000000000000,
            -0x8000000000000000 <= b < 0x8000000000000000;
}

fn sat_i128(q: i128) -> (r: i64)
    ensures
        r == fx_sat(q as int),
{
    if q > i64::MAX as i128 {
        i64::MAX
    } else if q < i64::MIN as i128 {
        i64::MIN
    } else {
        q as i64
    }
}

pub fn fx_add(a: i64, b: i64) -> (r: i64)
    ensures
        r == spec_add(a as int, b as int),
{
    sat_i128(a as i128 + b as i128)
}

pub fn fx_sub(a: i64, b: i64) -> (r: i64)
    ensures
        r == spec_sub(a as int, b as int),
{
    sat_i128(a as i128 - b as i128)
}

pub fn fx_neg(a: i64) -> (r: i64)
    ensures
        r == spec_neg(a as int),
{
    sat_i128(-(a as i128))
}

pub fn fx_mul(a: i64, b: i64) -> (r: i64)
    ensures
        r == spec_mul(a as int, b as int),
{
    proof {
        lemma_i64_product_range(a as int, b as int);
    }
    let p: i128 = (a as i128) * (b as i128);
    let q: i128 = if p >= 0 {
        ((p as u128) / (FX_ONE as u128)) as i128
    } else {
        -(((-p) as u128 / (FX_ONE as u128)) as i128)
    };
    assert(q == tdiv(a as int * b as int, FX_ONE as int));
    sat_i128(q)
}

pub fn fx_div(a: i64, b: i64) -> (r: i64)
    ensures
        r == spec_div(a as int, b as int),
{
    if b == 0 {
        if a > 0 {
            i64::MAX
        } else if a < 0 {
            i64::MIN
        } else {
            0
        }
    } else {
        let n: i128 = (a as i128) * 0x100000;
        let na: u128 = if n < 0 {
            (-n) as u128
        } else {
            n as u128
        };
        let nb: u128 = if b < 0 {
            (-(b as i128)) as u128
        } else {
            b as u128
        };
        let q: u128 = na / nb;
        assert(na == iabs(a as int * FX_ONE as int) && nb == iabs(b as int));
        let s: i128 = if (a < 0) != (b < 0) {
            -(q as i128)
        } else {
            q as i128
        };
        assert(s == tdiv(a as int * FX_ONE as int, b as int));
        sat_i128(s)
    }
}

pub fn fx_abs(a: i64) -> (r: i64)
    ensures
        r == spec_abs(a as int),
        r >= 0,
{
    if a < 0 {
        sat_i128(-(a as i128))
    } else {
        a
    }
}

pub fn fx_min(a: i64, b: i64) -> (r: i64)
    ensures
        r == if a <= b {
            a
        } else {
            b
        },
{
    if a <= b {
        a
    } else {
        b
    }
}

pub fn fx_max(a: i64, b: i64) -> (r: i64)
    ensures
        r == if a >= b {
            a
        } else {
            b
        },
{
    if a >= b {
        a
    } else {
        b
    }
}

pub fn fx_clamp01(a: i64) -> (r: i64)
    ensures
        r == spec_clamp01(a as int),
{
    if a < 0 {
        0
    } else if a > FX_ONE {
        FX_ONE
    } else {
        a
    }
}

/// The fixed-point scalar holding the integer `n`.
pub open spec fn spec_from_int(n: int) -> int {
    fx_sat(n * FX_ONE)
}

pub fn fx_from_int(n: i64) -> (r: i64)
    ensures
        r == spec_from_int(n as int),
{
    sat_i128((n as i128) * 0x100000)
}

/// `r` is the integer square root of `n`.
pub open spec fn is_isqrt(n: int, r: int) -> bool {
    0 <= r && r * r <= n && n < (r + 1) * (r + 1)
}

/// The integer square root of a nonnegative `n`.
pub open spec fn isqrt_of(n: int) -> int {
    choose|r: int| is_isqrt(n, r)
}

pub proof fn lemma_isqrt_exists(n: nat)
    ensures
        exists|r: int| is_isqrt(n as int, r),
    decreases n,
{
    if n == 0 {
        assert(is_isqrt(0, 0));
    } else {
        lemma_isqrt_exists((n - 1) as nat);
        let r = choose|r: int| #[trigger] is_isqrt(n - 1, r);
        if (r + 1) * (r + 1) <= n {
            assert(is_isqrt(n as int, r + 1)) by (nonlinear_arith)
                requires
                    is_isqrt(n - 1, r),
                    (r + 1) * (r + 1) <= n;
        } else {
            assert(is_isqrt(n as int, r));
        }
    }
}

pub proof fn lemma_isqrt_unique(n: int, r1: int, r2: int)
    by (nonlinear_arith)
    requires
        is_isqrt(n, r1),
        is_isqrt(n, r2),
    ensures
        r1 == r2,
{
}

fn isqrt_u128(v: u128) -> (r: u64)
    requires
        v < 0x100000000000000000000000000,
    ensures
        is_isqrt(v as int, r as int),
        r == isqrt_of(v as int),
        r < 0x10000000000000,
{
    let mut lo: u64 = 0;
    let mut hi: u64 = 0x10000000000000;
    proof {
        assert((0x10000000000000 as int) * (0x10000000000000 as int)
            == 0x100000000000000000000000000);
    }
    while lo + 1 < hi
        invariant
            lo < hi <= 0x10000000000000,
            (lo as int) * (lo as int) <= v as int,
            (v as int) < (hi as int) * (hi as int),
        decreases hi - lo,
    {
        let mid: u64 = lo + (hi - lo) / 2;
        proof {
            assert((mid as int) * (mid as int) <= 0x100000000000000000000000000)
                by (nonlinear_arith)
                requires
                    0 <= mid <= 0x10000000000000;
        }
        let sq: u128 = (mid as u128) * (mid as u128);
        if sq <= v {
            lo = mid;
        } else {
            hi = mid;
        }
    }
    proof {
        assert(is_isqrt(v as int, lo as int));
        lemma_isqrt_exists(v as nat);
        lemma_isqrt_unique(v as int, lo as int, isqrt_of(v as int));
    }
    lo
}

/// Fixed-point square root: zero on nonpositive input.
pub open spec fn spec_sqrt(x: int) -> int {
    if x <= 0 {
        0
    } else {
        isqrt_of(x * FX_ONE)
    }
}

pub fn fx_sqrt(x: i64) -> (r: i64)
    ensures
        r == spec_sqrt(x as int),
        r >= 0,
        x > 0 ==> is_isqrt(x * FX_ONE, r as int),
{
    if x <= 0 {
        0
    } else {
        let v: u128 = (x as u128) * 0x100000;
        let r = isqrt_u128(v);
        r as i64
    }
}

/// `b` raised to the power `n` by binary exponentiation, for a base in the
/// unit interval; each product truncates toward zero, as the executable
/// computation does.
pub open spec fn pow_unit(b: int, n: nat) -> int
    decreases n,
{
    if n == 0 {
        FX_ONE as int
    } else if n % 2 == 0 {
        let h = pow_unit(b, n / 2);
        h * h / (FX_ONE as int)
    } else {
        pow_unit(b, (n - 1) as nat) * b / (FX_ONE as int)
    }
}

pub proof fn lemma_pow_unit_bounds(b: int, n: nat)
    requires
        0 <= b <= FX_ONE,
    ensures
        0 <= pow_unit(b, n) <= FX_ONE,
    decreases n,
{
    if n == 0 {
    } else if n % 2 == 0 {
        lemma_pow_unit_bounds(b, n / 2);
        let h = pow_unit(b, n / 2);
        assert(0 <= h * h / (FX_ONE as int) <= FX_ONE) by (nonlinear_arith)
            requires
                0 <= h <= FX_ONE,
                FX_ONE == 0x100000;
    } else {
        lemma_pow_unit_bounds(b, (n - 1) as nat);
        let h = pow_unit(b, (n - 1) as nat);
        assert(0 <= h * b / (FX_ONE as int) <= FX_ONE) by (nonlinear_arith)
            requires
                0 <= h <= FX_ONE,
                0 <= b <= FX_ONE,
                FX_ONE == 0x100000;
    }
}

pub fn fx_pow_unit(b: i64, n: u64) -> (r: i64)
    requires
        0 <= b <= FX_ONE,
    ensures
        r == pow_unit(b as int, n as nat),
        0 <= r <= FX_ONE,
    decreases n,
{
    proof {
        lemma_pow_unit_bounds(b as int, n as nat);
    }
    if n == 0 {
        FX_ONE
    } else if n % 2 == 0 {
        let h = fx_pow_unit(b, n / 2);
        proof {
            assert(0 <= (h as int) * (h as int) <= 0x10000000000) by (nonlinear_arith)
                requires
                    0 <= h <= 0x100000;
        }
        ((h as u128) * (h as u128) / 0x100000) as i64
    } else {
        let p = fx_pow_unit(b, n - 1);
        proof {
            assert(0 <= (p as int) * (b as int) <= 0x10000000000) by (nonlinear_arith)
                requires
                    0 <= p <= 0x100000,
                    0 <= b <= 0x100000;
        }
        ((p as u128) * (b as u128) / 0x100000) as i64
    }
}

/// The nearest natural number to a fixed-point exponent; nonpositive
/// exponents round to zero.
pub open spec fn round_exp(e: int) -> nat {
    if e <= 0 {
        0
    } else {
        ((e + (FX_ONE as int) / 2) / (FX_ONE as int)) as nat
    }
}

pub fn fx_round_exp(e: i64) -> (n: u64)
    ensures
        n == round_exp(e as int),
{
    if e <= 0 {
        0
    } else {
        ((e as u64) + (FX_ONE as u64) / 2) / (FX_ONE as u64)
    }
}

} // verus!
