//! Fixed-point scalars: a value is a count of millionths of a unit.
//!
//! The platform layer hands the library fractional quantities (normalized
//! touch locations, pinch scale factors, pixel positions). They are encoded
//! here as `i64` counts of millionths, so `1_500_000` stands for one and a
//! half units. Multiplication and division rescale by [`FX_ONE`] with the
//! quotient rounded toward zero, the rounding Rust's `/` performs.

use vstd::prelude::*;

verus! {

/// One unit: fixed-point values are counts of millionths.
pub const FX_ONE: i64 = 1_000_000;

/// Half a unit, used when rounding to the nearest whole unit.
pub const FX_HALF: i64 = 500_000;

/// The quotient rounded toward zero: what Rust's `/` computes on integers,
/// written over the Euclidean `/` of specifications.
pub open spec fn tdiv(a: int, b: int) -> int
    recommends
        b != 0,
{
    if a >= 0 && b > 0 {
        a / b
    } else if a <= 0 && b < 0 {
        (-a) / (-b)
    } else if a <= 0 && b > 0 {
        -((-a) / b)
    } else {
        -(a / (-b))
    }
}

/// The remainder matching [`tdiv`]: it carries the dividend's sign, as
/// Rust's `%` does.
pub open spec fn tmod(a: int, b: int) -> int
    recommends
        b != 0,
{
    a - b * tdiv(a, b)
}

/// Product of two fixed-point values, rescaled back to millionths.
pub open spec fn mul_fx(a: int, b: int) -> int {
    tdiv(a * b, FX_ONE as int)
}

/// Quotient of two fixed-point values, kept in millionths.
pub open spec fn div_fx(a: int, b: int) -> int
    recommends
        b != 0,
{
    tdiv(a * FX_ONE, b)
}

/// Truncating division on wide intermediates, the primitive every
/// fixed-point operation is built from.
pub(crate) fn i128_tdiv(a: i128, b: i128) -> (q: i128)
    requires
        b != 0,
        i128::MIN <= tdiv(a as int, b as int) <= i128::MAX,
    ensures
        q == tdiv(a as int, b as int),
{
    proof {
        lemma_tdiv_matches_checked(a as int, b as int);
    }
    let r: Option<i128> = a.checked_div(b);
    match r {
        Some(q) => q,
        None => {
            proof {
                assert(false);
            }
            0
        },
    }
}

/// The case split `checked_div` is specified with computes [`tdiv`].
proof fn lemma_tdiv_matches_checked(x: int, d: int)
    requires
        d != 0,
    ensures
        (if x == 0 {
            0int
        } else if x > 0 && d > 0 {
            x / d
        } else if x < 0 && d < 0 {
            ((x * -1) / (d * -1))
        } else if x < 0 {
            ((x * -1) / d) * -1
        } else {
            (x / (d * -1)) * -1
        }) == tdiv(x, d),
{
    if x == 0 {
        assert(tdiv(x, d) == 0) by {
            if d > 0 {
                vstd::arithmetic::div_mod::lemma_small_div_converse(x, d);
            } else {
                vstd::arithmetic::div_mod::lemma_small_div_converse(-x, -d);
            }
        }
    }
}

/// Truncating division on machine words.
pub fn i64_tdiv(a: i64, b: i64) -> (q: i64)
    requires
        b != 0,
        i64::MIN <= tdiv(a as int, b as int) <= i64::MAX,
    ensures
        q as int == tdiv(a as int, b as int),
{
    proof {
        lemma_tdiv_magnitude(a as int, b as int);
    }
    let q: i128 = i128_tdiv(a as i128, b as i128);
    q as i64
}

/// Division of an exact multiple is exact, also with the truncating
/// quotient.
pub proof fn lemma_tdiv_exact(k: int, b: int)
    requires
        b > 0,
    ensures
        tdiv(k * b, b) == k,
{
    if k * b >= 0 {
        assert(k >= 0) by (nonlinear_arith)
            requires
                b > 0,
                k * b >= 0,
        ;
        assert((b * k) / b == k) by {
            vstd::arithmetic::div_mod::lemma_div_multiples_vanish(k, b);
        }
    } else {
        assert(k < 0) by (nonlinear_arith)
            requires
                b > 0,
                k * b < 0,
        ;
        assert(-(k * b) == (-k) * b) by (nonlinear_arith);
        assert((b * (-k)) / b == -k) by {
            vstd::arithmetic::div_mod::lemma_div_multiples_vanish(-k, b);
        }
    }
}

/// A truncating quotient by a positive divisor stays within any bound the
/// dividend satisfies in multiples of the divisor.
pub proof fn lemma_tdiv_bound(a: int, b: int, c: int)
    requires
        b > 0,
        c >= 0,
        -(c * b) <= a <= c * b,
    ensures
        -c <= tdiv(a, b) <= c,
{
    if a >= 0 {
        vstd::arithmetic::div_mod::lemma_div_pos_is_pos(a, b);
        vstd::arithmetic::div_mod::lemma_div_is_ordered(a, c * b, b);
        lemma_tdiv_exact(c, b);
    } else {
        vstd::arithmetic::div_mod::lemma_div_pos_is_pos(-a, b);
        vstd::arithmetic::div_mod::lemma_div_is_ordered(-a, c * b, b);
        lemma_tdiv_exact(c, b);
    }
}

/// A truncating quotient never grows in magnitude when the divisor is a
/// nonzero integer.
pub proof fn lemma_tdiv_magnitude(a: int, b: int)
    requires
        b != 0,
    ensures
        a >= 0 ==> -a <= tdiv(a, b) <= a,
        a <= 0 ==> a <= tdiv(a, b) <= -a,
{
    let x: int = if a >= 0 { a } else { -a };
    let d: int = if b > 0 { b } else { -b };
    vstd::arithmetic::div_mod::lemma_div_pos_is_pos(x, d);
    vstd::arithmetic::div_mod::lemma_div_nonincreasing(x, d);
}

/// The truncating remainder is smaller in magnitude than the divisor and
/// carries the dividend's sign.
pub proof fn lemma_tmod_bound(a: int, b: int)
    requires
        b != 0,
    ensures
        tmod(a, b) < if b > 0 { b } else { -b },
        -(if b > 0 { b } else { -b }) < tmod(a, b),
        a >= 0 ==> tmod(a, b) >= 0,
        a <= 0 ==> tmod(a, b) <= 0,
{
    let x: int = if a >= 0 { a } else { -a };
    let d: int = if b > 0 { b } else { -b };
    vstd::arithmetic::div_mod::lemma_fundamental_div_mod(x, d);
    vstd::arithmetic::div_mod::lemma_mod_bound(x, d);
    let q: int = x / d;
    assert(x == d * q + (x % d));
    if a >= 0 && b > 0 {
        assert(tmod(a, b) == a - b * (a / b));
        assert(a - b * (a / b) == x % d);
    } else if a <= 0 && b < 0 {
        assert(tdiv(a, b) == q);
        assert(b * q == -(d * q)) by (nonlinear_arith)
            requires
                b == -d,
        ;
        assert(tmod(a, b) == a + d * q == -(x % d));
    } else if a <= 0 && b > 0 {
        assert(tdiv(a, b) == -q);
        assert(b * (-q) == -(d * q)) by (nonlinear_arith)
            requires
                b == d,
        ;
        assert(tmod(a, b) == a + d * q == -(x % d));
    } else {
        assert(tdiv(a, b) == -q);
        assert(b * (-q) == d * q) by (nonlinear_arith)
            requires
                b == -d,
        ;
        assert(tmod(a, b) == a - d * q == x % d);
    }
}

/// Fixed-point product of two values, `requires` only that the exact
/// result fits the machine word.
pub fn fx_mul(a: i64, b: i64) -> (r: i64)
    requires
        i64::MIN <= mul_fx(a as int, b as int) <= i64::MAX,
    ensures
        r as int == mul_fx(a as int, b as int),
{
    proof {
        assert(i128::MIN <= (a as int) * (b as int) <= i128::MAX) by (nonlinear_arith)
            requires
                i64::MIN <= a as int <= i64::MAX,
                i64::MIN <= b as int <= i64::MAX,
        ;
    }
    let p: i128 = (a as i128) * (b as i128);
    proof {
        lemma_tdiv_magnitude(p as int, FX_ONE as int);
    }
    let q: i128 = i128_tdiv(p, FX_ONE as i128);
    q as i64
}

/// Fixed-point quotient of two values; the divisor must be nonzero and the
/// exact result must fit the machine word.
pub fn fx_div(a: i64, b: i64) -> (r: i64)
    requires
        b != 0,
        i64::MIN <= div_fx(a as int, b as int) <= i64::MAX,
    ensures
        r as int == div_fx(a as int, b as int),
{
    let p: i128 = (a as i128) * (FX_ONE as i128);
    proof {
        lemma_tdiv_magnitude(p as int, b as int);
    }
    let q: i128 = i128_tdiv(p, b as i128);
    q as i64
}

/// Remainder with the dividend's sign, matching what `%` means for the
/// fractional values the encoding stands for.
pub fn fx_rem(a: i64, b: i64) -> (r: i64)
    requires
        b != 0,
    ensures
        r as int == tmod(a as int, b as int),
{
    proof {
        lemma_tdiv_magnitude(a as int, b as int);
    }
    let q: i128 = i128_tdiv(a as i128, b as i128);
    proof {
        assert(i128::MIN <= (b as int) * q <= i128::MAX) by (nonlinear_arith)
            requires
                i64::MIN <= b as int <= i64::MAX,
                -9223372036854775808 <= q <= 9223372036854775808,
        ;
        lemma_tmod_bound(a as int, b as int);
    }
    let m: i128 = (a as i128) - (b as i128) * q;
    m as i64
}

/// What it means for `r` to be the integer square root of `n`.
pub open spec fn is_isqrt(n: int, r: int) -> bool {
    0 <= r && r * r <= n && n < (r + 1) * (r + 1)
}

/// The integer square root: the unique `r` with `r * r <= n < (r + 1) * (r + 1)`.
pub open spec fn s_isqrt(n: int) -> int
    recommends
        n >= 0,
{
    choose|r: int| is_isqrt(n, r)
}

/// Every nonnegative integer has an integer square root.
pub proof fn lemma_isqrt_exists(n: int)
    requires
        n >= 0,
    ensures
        is_isqrt(n, s_isqrt(n)),
    decreases n,
{
    if n == 0 {
        assert(is_isqrt(0, 0));
    } else {
        lemma_isqrt_exists(n - 1);
        let r: int = s_isqrt(n - 1);
        if n == (r + 1) * (r + 1) {
            assert((r + 2) * (r + 2) > n) by (nonlinear_arith)
                requires
                    r >= 0,
                    n == (r + 1) * (r + 1),
            ;
            assert(is_isqrt(n, r + 1));
        } else {
            assert(is_isqrt(n, r));
        }
    }
}

/// There is only one integer square root.
pub proof fn lemma_isqrt_unique(n: int, r: int)
    requires
        is_isqrt(n, r),
    ensures
        r == s_isqrt(n),
{
    assert(n >= 0) by (nonlinear_arith)
        requires
            is_isqrt(n, r),
    ;
    lemma_isqrt_exists(n);
    let r2: int = s_isqrt(n);
    assert(r == r2) by (nonlinear_arith)
        requires
            is_isqrt(n, r),
            is_isqrt(n, r2),
    ;
}

/// Integer square root by bisection.
pub fn isqrt_u128(n: u128) -> (r: u64)
    ensures
        is_isqrt(n as int, r as int),
        r as int == s_isqrt(n as int),
{
    let mut lo: u128 = 0;
    let mut hi: u128 = 18446744073709551616;
    proof {
        assert((hi as int) * (hi as int) > n as int) by (nonlinear_arith)
            requires
                hi as int == 18446744073709551616,
                n as int <= 0xffffffffffffffffffffffffffffffff,
        ;
    }
    while lo + 1 < hi
        invariant
            0 <= lo < hi <= 18446744073709551616,
            (lo as int) * (lo as int) <= n as int,
            (n as int) < (hi as int) * (hi as int),
        decreases hi - lo,
    {
        let mid: u128 = lo + (hi - lo) / 2;
        proof {
            assert((mid as int) * (mid as int) < 0x100000000000000000000000000000000) by (nonlinear_arith)
                requires
                    0 <= mid as int <= 18446744073709551615,
            ;
        }
        if mid * mid <= n {
            lo = mid;
        } else {
            hi = mid;
        }
    }
    proof {
        assert(is_isqrt(n as int, lo as int));
        lemma_isqrt_unique(n as int, lo as int);
        assert((lo as int) * (lo as int) <= n as int);
    }
    lo as u64
}

} // verus!
