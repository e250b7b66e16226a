//! Fixed-point scalar arithmetic: truncating division, clamping into the
//! `i64` range, and an integer square root, each with an exact contract.

use vstd::prelude::*;

verus! {

/// Number of fixed-point units in one world-coordinate unit: every
/// coordinate, velocity and alpha value in this crate is a count of
/// millionths.
pub const SCALE: i64 = 1_000_000;

/// Largest coordinate magnitude, in units, accepted by the geometric
/// operations; this bound keeps every intermediate product of the
/// intersection solver comfortably inside `i128`.
pub const COORD_LIMIT: i64 = 2_000_000_000_000;

/// Quotient of `a` by `d` rounded toward zero, as hardware division rounds;
/// meaningful for `d > 0`.
pub open spec fn tdiv(a: int, d: int) -> int {
    if a >= 0 {
        a / d
    } else {
        -((-a) / d)
    }
}

/// `x` clamped into the representable range of `i64`.
pub open spec fn clamp_i64(x: int) -> int {
    if x > i64::MAX {
        i64::MAX as int
    } else if x < i64::MIN {
        i64::MIN as int
    } else {
        x
    }
}

/// Saturating addition: the exact sum, clamped into `i64`.
pub fn sat_add_i64(a: i64, b: i64) -> (r: i64)
    ensures
        r == clamp_i64(a + b),
{
    let s: i128 = (a as i128) + (b as i128);
    if s > i64::MAX as i128 {
        i64::MAX
    } else if s < i64::MIN as i128 {
        i64::MIN
    } else {
        s as i64
    }
}

/// Saturating subtraction: the exact difference, clamped into `i64`.
pub fn sat_sub_i64(a: i64, b: i64) -> (r: i64)
    ensures
        r == clamp_i64(a - b),
{
    let s: i128 = (a as i128) - (b as i128);
    if s > i64::MAX as i128 {
        i64::MAX
    } else if s < i64::MIN as i128 {
        i64::MIN
    } else {
        s as i64
    }
}

/// Truncating division never grows a value's magnitude and keeps its sign.
pub proof fn lemma_tdiv_bounds(a: int, d: int)
    requires
        d > 0,
    ensures
        a >= 0 ==> 0 <= tdiv(a, d) <= a,
        a < 0 ==> a <= tdiv(a, d) <= 0,
{
    if a >= 0 {
        vstd::arithmetic::div_mod::lemma_div_pos_is_pos(a, d);
        vstd::arithmetic::div_mod::lemma_div_nonincreasing(a, d);
    } else {
        vstd::arithmetic::div_mod::lemma_div_pos_is_pos(-a, d);
        vstd::arithmetic::div_mod::lemma_div_nonincreasing(-a, d);
    }
}

/// For a numerator that is at most `k` times the divisor, the truncated
/// quotient is at most `k`.
pub proof fn lemma_tdiv_mul_upper(a: int, d: int, k: int)
    requires
        d > 0,
        0 <= a <= k * d,
    ensures
        0 <= tdiv(a, d) <= k,
{
    lemma_tdiv_bounds(a, d);
    vstd::arithmetic::div_mod::lemma_div_is_ordered(a, k * d, d);
    vstd::arithmetic::div_mod::lemma_div_multiples_vanish(k, d);
    vstd::arithmetic::mul::lemma_mul_is_commutative(k, d);
}

/// The magnitude of a truncated quotient is bounded by `k` whenever the
/// numerator's magnitude is at most `k` times the divisor.
pub proof fn lemma_tdiv_abs_upper(a: int, d: int, k: int)
    requires
        d > 0,
        0 <= k,
        -(k * d) <= a <= k * d,
    ensures
        -k <= tdiv(a, d) <= k,
{
    if a >= 0 {
        lemma_tdiv_mul_upper(a, d, k);
    } else {
        lemma_tdiv_mul_upper(-a, d, k);
    }
}

/// Truncating division of an `i128` by a positive divisor.
pub fn tdiv_i128(a: i128, d: i128) -> (r: i128)
    requires
        d > 0,
    ensures
        r == tdiv(a as int, d as int),
{
    proof {
        lemma_tdiv_bounds(a as int, d as int);
    }
    match a.checked_div(d) {
        Some(q) => q,
        // With a positive divisor the truncated quotient never leaves the
        // range of the dividend's type, so this arm is unreachable.
        None => {
            proof {
                assert(false);
            }
            0
        },
    }
}

/// Integer square root, defined by counting up; `isqrt_spec(n)` is the
/// largest `r` with `r * r <= n`.
pub open spec fn isqrt_spec(n: nat) -> nat
    decreases n,
{
    if n == 0 {
        0
    } else {
        let r = isqrt_spec((n - 1) as nat);
        if (r + 1) * (r + 1) <= n {
            r + 1
        } else {
            r
        }
    }
}

/// The defining property of the integer square root.
pub proof fn lemma_isqrt_bounds(n: nat)
    ensures
        isqrt_spec(n) * isqrt_spec(n) <= n,
        n < (isqrt_spec(n) + 1) * (isqrt_spec(n) + 1),
    decreases n,
{
    if n > 0 {
        lemma_isqrt_bounds((n - 1) as nat);
        let r = isqrt_spec((n - 1) as nat);
        assert(r * r <= n - 1);
        assert(n - 1 < (r + 1) * (r + 1));
        if (r + 1) * (r + 1) <= n {
            assert(isqrt_spec(n) == r + 1);
            assert(n <= (r + 1) * (r + 1));
            assert(n < (r + 2) * (r + 2)) by (nonlinear_arith)
                requires
                    n <= (r + 1) * (r + 1),
                    r >= 0,
            ;
            assert((r + 2) * (r + 2) == (isqrt_spec(n) + 1) * (isqrt_spec(n) + 1));
        } else {
            assert(isqrt_spec(n) == r);
        }
    } else {
        assert(isqrt_spec(n) == 0);
        assert(n < (isqrt_spec(n) + 1) * (isqrt_spec(n) + 1)) by (nonlinear_arith)
            requires
                n == 0,
                isqrt_spec(n) == 0,
        ;
    }
}

/// Any `r` whose square brackets `n` is the integer square root of `n`.
pub proof fn lemma_isqrt_unique(n: nat, r: nat)
    requires
        r * r <= n,
        n < (r + 1) * (r + 1),
    ensures
        r == isqrt_spec(n),
{
    lemma_isqrt_bounds(n);
    let s = isqrt_spec(n);
    assert(r == s) by (nonlinear_arith)
        requires
            r * r <= n,
            n < (r + 1) * (r + 1),
            s * s <= n,
            n < (s + 1) * (s + 1),
            r >= 0,
            s >= 0,
    ;
}

/// Integer square root of a `u128`, by binary search.
pub fn isqrt_u128(n: u128) -> (r: u128)
    requires
        n < 0x4000_0000_0000_0000_0000_0000_0000_0000u128,
    ensures
        r == isqrt_spec(n as nat),
        r * r <= n,
        n < (r + 1) * (r + 1),
{
    let mut lo: u128 = 0;
    let mut hi: u128 = 0x8000_0000_0000_0000u128;
    assert(hi * hi == 0x4000_0000_0000_0000_0000_0000_0000_0000) by (nonlinear_arith)
        requires
            hi == 0x8000_0000_0000_0000u128,
    ;
    while hi - lo > 1
        invariant
            lo < hi,
            hi <= 0x8000_0000_0000_0000u128,
            lo * lo <= n,
            n < hi * hi,
        decreases hi - lo,
    {
        let mid = lo + (hi - lo) / 2;
        assert(lo < mid < hi);
        match mid.checked_mul(mid) {
            Some(sq) => {
                if sq <= n {
                    lo = mid;
                } else {
                    hi = mid;
                }
            },
            // `mid * mid` would exceed `u128::MAX`, so it certainly exceeds `n`.
            None => {
                hi = mid;
            },
        }
    }
    proof {
        lemma_isqrt_unique(n as nat, lo as nat);
    }
    lo
}

} // verus!
