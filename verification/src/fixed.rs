//! Fixed-point scalar arithmetic.
//!
//! A scalar is an `i64` counting millionths of a unit (`FX_ONE` is `1.0`).
//! Every operation is total: out-of-range results saturate to the `i64`
//! bounds, and a division by zero yields zero. Division truncates toward
//! zero, as the spec function `tdiv` defines. Each executable operation has
//! an exact specification, so any computation built from them is pinned
//! bit for bit.

use vstd::prelude::*;

verus! {

/// The fixed-point representation of `1.0`: one million millionths.
pub const FX_ONE: i64 = 1_000_000;

/// Clamp a mathematical integer into the `i64` range.
pub open spec fn sat64(x: int) -> int {
    if x > i64::MAX as int {
        i64::MAX as int
    } else if x < i64::MIN as int {
        i64::MIN as int
    } else {
        x
    }
}

/// Absolute value of a mathematical integer.
pub open spec fn absv(x: int) -> int {
    if x < 0 {
        -x
    } else {
        x
    }
}

/// Division truncating toward zero, total: division by zero yields zero.
pub open spec fn tdiv(a: int, b: int) -> int {
    if b == 0 {
        0
    } else if (a < 0) == (b < 0) {
        absv(a) / absv(b)
    } else {
        -(absv(a) / absv(b))
    }
}

/// Saturating fixed-point addition.
pub open spec fn fadd(a: int, b: int) -> int {
    sat64(a + b)
}

/// Saturating fixed-point subtraction.
pub open spec fn fsub(a: int, b: int) -> int {
    sat64(a - b)
}

/// Saturating fixed-point negation.
pub open spec fn fneg(a: int) -> int {
    sat64(-a)
}

/// Saturating fixed-point absolute value.
pub open spec fn fabs(a: int) -> int {
    sat64(absv(a))
}

/// Fixed-point multiplication: `a * b` in millionths, truncated toward zero.
pub open spec fn fmul(a: int, b: int) -> int {
    sat64(tdiv(a * b, FX_ONE as int))
}

/// Fixed-point division: `a / b` in millionths, truncated toward zero.
pub open spec fn fdiv(a: int, b: int) -> int {
    sat64(tdiv(a * (FX_ONE as int), b))
}

/// Integer square root: the unique `r` with `r * r <= n < (r + 1) * (r + 1)`.
pub open spec fn sqrt_nat(n: nat) -> nat
    decreases n,
{
    if n == 0 {
        0
    } else {
        let r = sqrt_nat((n - 1) as nat);
        if (r + 1) * (r + 1) <= n {
            r + 1
        } else {
            r
        }
    }
}

/// Fixed-point square root of a nonnegative scalar; zero for negatives.
pub open spec fn fsqrt(x: int) -> int {
    if x <= 0 {
        0
    } else {
        sqrt_nat((x * (FX_ONE as int)) as nat) as int
    }
}

proof fn lemma_abs_mul(a: int, b: int)
    ensures
        absv(a * b) == absv(a) * absv(b),
{
    if a >= 0 && b >= 0 {
        assert(a * b >= 0) by (nonlinear_arith)
            requires
                a >= 0,
                b >= 0,
        ;
    } else if a >= 0 && b < 0 {
        assert(a * b <= 0 && a * b == -(a * (-b))) by (nonlinear_arith)
            requires
                a >= 0,
                b < 0,
        ;
    } else if a < 0 && b >= 0 {
        assert(a * b <= 0 && a * b == -((-a) * b)) by (nonlinear_arith)
            requires
                a < 0,
                b >= 0,
        ;
    } else {
        assert(a * b >= 0 && a * b == (-a) * (-b)) by (nonlinear_arith)
            requires
                a < 0,
                b < 0,
        ;
    }
}

proof fn lemma_sign_mul(a: int, b: int)
    ensures
        ((a < 0) == (b < 0)) ==> a * b >= 0,
        (((a < 0) != (b < 0)) && a != 0 && b != 0) ==> a * b < 0,
        (a == 0 || b == 0) ==> a * b == 0,
{
    assert(((a < 0) == (b < 0)) ==> a * b >= 0) by (nonlinear_arith);
    assert((((a < 0) != (b < 0)) && a != 0 && b != 0) ==> a * b < 0) by (nonlinear_arith);
    assert((a == 0 || b == 0) ==> a * b == 0) by (nonlinear_arith);
}

proof fn lemma_sqrt_nat_bounds(n: nat)
    ensures
        sqrt_nat(n) * sqrt_nat(n) <= n,
        n < (sqrt_nat(n) + 1) * (sqrt_nat(n) + 1),
    decreases n,
{
    if n == 0 {
        assert(sqrt_nat(0) == 0);
        assert((0 + 1) * (0 + 1) == 1) by (nonlinear_arith);
    } else {
        lemma_sqrt_nat_bounds((n - 1) as nat);
        let r = sqrt_nat((n - 1) as nat);
        if (r + 1) * (r + 1) <= n {
            assert(sqrt_nat(n) == r + 1);
            assert(n < (r + 1 + 1) * (r + 1 + 1)) by (nonlinear_arith)
                requires
                    n - 1 < (r + 1) * (r + 1),
                    r >= 0,
            ;
        } else {
            assert(sqrt_nat(n) == r);
        }
    }
}

proof fn lemma_sqrt_nat_unique(n: nat, r: nat)
    requires
        r * r <= n,
        n < (r + 1) * (r + 1),
    ensures
        r == sqrt_nat(n),
{
    lemma_sqrt_nat_bounds(n);
    let s = sqrt_nat(n);
    if r < s {
        assert((r + 1) * (r + 1) <= s * s) by (nonlinear_arith)
            requires
                0 <= r,
                r < s,
        ;
    }
    if s < r {
        assert((s + 1) * (s + 1) <= r * r) by (nonlinear_arith)
            requires
                0 <= s,
                s < r,
        ;
    }
}

fn clamp_to_i64(x: i128) -> (r: i64)
    ensures
        r as int == sat64(x as int),
{
    if x > i64::MAX as i128 {
        i64::MAX
    } else if x < i64::MIN as i128 {
        i64::MIN
    } else {
        x as i64
    }
}

fn abs_u64(a: i64) -> (r: u64)
    ensures
        r as int == absv(a as int),
{
    if a >= 0 {
        a as u64
    } else {
        (-(a as i128)) as u64
    }
}

pub(crate) fn mul_u64_u128(x: u64, y: u64) -> (r: u128)
    ensures
        r as int == (x as int) * (y as int),
{
    proof {
        assert((x as int) * (y as int) <= 0xffff_ffff_ffff_ffff * 0xffff_ffff_ffff_ffff)
            by (nonlinear_arith)
            requires
                0 <= x as int <= 0xffff_ffff_ffff_ffff,
                0 <= y as int <= 0xffff_ffff_ffff_ffff,
        ;
    }
    (x as u128) * (y as u128)
}

/// Saturating addition of two fixed-point scalars.
pub fn fx_add(a: i64, b: i64) -> (r: i64)
    ensures
        r as int == fadd(a as int, b as int),
{
    clamp_to_i64(a as i128 + b as i128)
}

/// Saturating subtraction of two fixed-point scalars.
pub fn fx_sub(a: i64, b: i64) -> (r: i64)
    ensures
        r as int == fsub(a as int, b as int),
{
    clamp_to_i64(a as i128 - b as i128)
}

/// Saturating negation of a fixed-point scalar.
pub fn fx_neg(a: i64) -> (r: i64)
    ensures
        r as int == fneg(a as int),
{
    clamp_to_i64(-(a as i128))
}

/// Saturating absolute value of a fixed-point scalar.
pub fn fx_abs(a: i64) -> (r: i64)
    ensures
        r as int == fabs(a as int),
{
    if a >= 0 {
        a
    } else {
        clamp_to_i64(-(a as i128))
    }
}

/// Fixed-point multiplication, exact per `fmul`.
pub fn fx_mul(a: i64, b: i64) -> (r: i64)
    ensures
        r as int == fmul(a as int, b as int),
{
    let negative = (a < 0) != (b < 0);
    let p = mul_u64_u128(abs_u64(a), abs_u64(b));
    let q = p / 1_000_000u128;
    proof {
        lemma_abs_mul(a as int, b as int);
        lemma_sign_mul(a as int, b as int);
        assert(q as int == absv(a as int * b as int) / 1_000_000);
    }
    let signed = if negative {
        -(q as i128)
    } else {
        q as i128
    };
    proof {
        assert(signed as int == tdiv(a as int * b as int, 1_000_000));
    }
    clamp_to_i64(signed)
}

/// Fixed-point division, exact per `fdiv`; division by zero yields zero.
pub fn fx_div(a: i64, b: i64) -> (r: i64)
    ensures
        r as int == fdiv(a as int, b as int),
{
    if b == 0 {
        return 0;
    }
    let negative = (a < 0) != (b < 0);
    let p = mul_u64_u128(abs_u64(a), 1_000_000u64);
    let q = p / (abs_u64(b) as u128);
    proof {
        lemma_abs_mul(a as int, FX_ONE as int);
    }
    let signed = if negative {
        -(q as i128)
    } else {
        q as i128
    };
    clamp_to_i64(signed)
}

fn isqrt_u128(n: u128) -> (r: u64)
    requires
        n < 0x4000_0000_0000_0000_0000_0000_0000_0000u128,
    ensures
        r as nat == sqrt_nat(n as nat),
        (r as int) * (r as int) <= n as int,
        (n as int) < (r as int + 1) * (r as int + 1),
{
    let mut lo: u64 = 0;
    let mut hi: u64 = 0x8000_0000_0000_0000;
    proof {
        assert((hi as int) * (hi as int) == 0x4000_0000_0000_0000_0000_0000_0000_0000int)
            by (nonlinear_arith)
            requires
                hi == 0x8000_0000_0000_0000u64,
        ;
    }
    while lo + 1 < hi
        invariant
            lo < hi,
            hi <= 0x8000_0000_0000_0000u64,
            (lo as int) * (lo as int) <= n as int,
            (n as int) < (hi as int) * (hi as int),
        decreases hi - lo,
    {
        let mid = lo + (hi - lo) / 2;
        let sq = mul_u64_u128(mid, mid);
        if sq <= n {
            lo = mid;
        } else {
            hi = mid;
        }
    }
    proof {
        lemma_sqrt_nat_unique(n as nat, lo as nat);
    }
    lo
}

/// Fixed-point square root, exact per `fsqrt`.
pub fn fx_sqrt(x: i64) -> (r: i64)
    ensures
        r as int == fsqrt(x as int),
{
    if x <= 0 {
        return 0;
    }
    let n = mul_u64_u128(x as u64, 1_000_000u64);
    let r0 = isqrt_u128(n);
    proof {
        assert(r0 as int <= 0x7fff_ffff_ffff_ffff) by (nonlinear_arith)
            requires
                (r0 as int) * (r0 as int) <= n as int,
                n as int <= 0x7fff_ffff_ffff_ffff * 1_000_000,
                r0 >= 0,
        ;
    }
    r0 as i64
}

/// Bounds of the fixed-point square root: for positive `x` it is the
/// integer square root of `x * FX_ONE`.
pub proof fn lemma_fsqrt_bounds(x: int)
    requires
        0 < x,
    ensures
        0 <= fsqrt(x),
        fsqrt(x) * fsqrt(x) <= x * (FX_ONE as int),
        x * (FX_ONE as int) < (fsqrt(x) + 1) * (fsqrt(x) + 1),
{
    lemma_sqrt_nat_bounds((x * (FX_ONE as int)) as nat);
}

/// `fmul` by one is the identity.
pub proof fn lemma_fmul_one(a: int)
    requires
        i64::MIN <= a <= i64::MAX,
    ensures
        fmul(a, FX_ONE as int) == a,
{
    lemma_abs_mul(a, FX_ONE as int);
}

/// `fmul` by zero is zero.
pub proof fn lemma_fmul_zero(a: int)
    ensures
        fmul(a, 0) == 0,
        fmul(0, a) == 0,
{
    assert(a * 0 == 0) by (nonlinear_arith);
    assert(0 * a == 0) by (nonlinear_arith);
}

} // verus!
