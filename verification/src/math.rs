//! Integer arithmetic used throughout the crate: angle constants, an exact
//! integer square root, and a rational approximation of the sine function
//! over a clock-tick angle domain (720 ticks to a full turn, one tick per
//! clock-face minute, i.e. half a degree).

use vstd::prelude::*;

verus! {

use vstd::arithmetic::div_mod::{lemma_div_is_ordered, lemma_div_multiples_vanish};

/// One pi in milliradians.
pub const PI_MILLI: i64 = 3142;
/// Half pi in milliradians.
pub const HALF_PI_MILLI: i64 = 1571;
/// Quarter pi in milliradians.
pub const QUARTER_PI_MILLI: i64 = 785;
/// One sixth of pi in milliradians.
pub const SIXTH_PI_MILLI: i64 = 524;

/// Length scale: the integer standing for one metre (tenths of a
/// millimetre).
pub const LENGTH_ONE: i64 = 10000;

/// Clock ticks in a full turn (one tick per clock minute, half a degree).
pub const TICKS_FULL_TURN: i64 = 720;
/// Mathematical integer square root: the largest `r` with `r * r <= n`.
pub open spec fn spec_isqrt(n: int) -> int
    decreases n,
{
    if n < 1 {
        0
    } else {
        let r = spec_isqrt(n - 1);
        if (r + 1) * (r + 1) <= n {
            r + 1
        } else {
            r
        }
    }
}

/// The defining property of `spec_isqrt`.
pub proof fn lemma_spec_isqrt(n: int)
    requires
        n >= 0,
    ensures
        0 <= spec_isqrt(n),
        spec_isqrt(n) * spec_isqrt(n) <= n,
        n < (spec_isqrt(n) + 1) * (spec_isqrt(n) + 1),
    decreases n,
{
    if n >= 1 {
        lemma_spec_isqrt(n - 1);
        let r = spec_isqrt(n - 1);
        if (r + 1) * (r + 1) <= n {
            assert((r + 2) * (r + 2) > n) by (nonlinear_arith)
                requires
                    n - 1 < (r + 1) * (r + 1),
                    r >= 0,
            ;
        }
    }
}

/// Any integer satisfying the square-root bracketing is `spec_isqrt`.
pub proof fn lemma_isqrt_unique(n: int, r: int)
    requires
        n >= 0,
        r >= 0,
        r * r <= n,
        n < (r + 1) * (r + 1),
    ensures
        r == spec_isqrt(n),
{
    lemma_spec_isqrt(n);
    let s = spec_isqrt(n);
    assert(r == s) by (nonlinear_arith)
        requires
            r >= 0,
            s >= 0,
            r * r <= n,
            n < (r + 1) * (r + 1),
            s * s <= n,
            n < (s + 1) * (s + 1),
    ;
}

/// Integer square root of `n`, exact: the largest `r` with `r * r <= n`.
pub fn isqrt(n: u64) -> (r: u64)
    requires
        n <= 200_000_000,
    ensures
        r * r <= n,
        n < (r + 1) * (r + 1),
        r == spec_isqrt(n as int),
{
    let mut r: u64 = 0;
    let mut sq: u64 = 0;
    while sq + 2 * r + 1 <= n
        invariant
            n <= 200_000_000,
            sq == r * r,
            sq <= n,
            r <= 14143,
        decreases 20_000 - r,
    {
        sq = sq + 2 * r + 1;
        r = r + 1;
        proof {
            assert(sq == r * r) by (nonlinear_arith)
                requires
                    sq == (r - 1) * (r - 1) + 2 * (r - 1) + 1,
            ;
            if r > 14143 {
                assert(r * r > 200_000_000) by (nonlinear_arith)
                    requires
                        r >= 14144,
                ;
            }
        }
    }
    proof {
        assert(n < (r + 1) * (r + 1)) by (nonlinear_arith)
            requires
                sq == r * r,
                n < sq + 2 * r + 1,
        ;
        lemma_isqrt_unique(n as int, r as int);
    }
    r
}

/// Sine over half a turn, in per-mille, for `x` in ticks within `[0, 360]`:
/// the rational approximation `4000 * p / (162000 - p)` with
/// `p = x * (360 - x)`. It is exact at both ends, at the peak, and one
/// sixth of the half-turn in from either end, and within a fraction of a
/// percent elsewhere.
pub open spec fn spec_sin_half(x: int) -> int {
    let p = x * (360 - x);
    4000 * p / (162000 - p)
}

/// Sine in per-mille for a tick angle in `[0, 720)`.
pub open spec fn spec_sin_milli(t: int) -> int {
    if t <= 360 {
        spec_sin_half(t)
    } else {
        -spec_sin_half(t - 360)
    }
}

/// Cosine in per-mille for a tick angle in `[0, 720)`: the sine a quarter
/// turn ahead.
pub open spec fn spec_cos_milli(t: int) -> int {
    if t + 180 < 720 {
        spec_sin_milli(t + 180)
    } else {
        spec_sin_milli(t + 180 - 720)
    }
}

/// The product `x * (360 - x)` lies in `[0, 32400]` for `x` in `[0, 360]`.
proof fn lemma_half_wave_product_range(x: int)
    requires
        0 <= x <= 360,
    ensures
        0 <= x * (360 - x) <= 32400,
{
    assert(x * (360 - x) >= 0) by (nonlinear_arith)
        requires
            0 <= x <= 360,
    ;
    assert(x * (360 - x) <= 32400) by (nonlinear_arith)
        requires
            0 <= x <= 360,
    ;
}

/// The half-wave sine lies in `[0, 1000]`.
pub proof fn lemma_sin_half_range(x: int)
    requires
        0 <= x <= 360,
    ensures
        0 <= spec_sin_half(x) <= 1000,
{
    let p = x * (360 - x);
    lemma_half_wave_product_range(x);
    assert(4000 * p / (162000 - p) >= 0) by (nonlinear_arith)
        requires
            0 <= p <= 32400,
    ;
    assert(4000 * p <= 1000 * (162000 - p)) by (nonlinear_arith)
        requires
            p <= 32400,
    ;
    lemma_div_is_ordered(4000 * p, 1000 * (162000 - p), 162000 - p);
    lemma_div_multiples_vanish(1000, 162000 - p);
}

/// Away from the zero crossings the half-wave sine is at least 8 per-mille.
pub proof fn lemma_sin_half_positive(x: int)
    requires
        1 <= x <= 359,
    ensures
        spec_sin_half(x) >= 8,
{
    let p = x * (360 - x);
    assert((x - 1) * (359 - x) >= 0) by (nonlinear_arith)
        requires
            1 <= x <= 359,
    ;
    assert(p >= 359) by (nonlinear_arith)
        requires
            (x - 1) * (359 - x) >= 0,
            p == x * (360 - x),
    ;
    lemma_half_wave_product_range(x);
    assert(4000 * p >= 8 * (162000 - p)) by (nonlinear_arith)
        requires
            p >= 359,
    ;
    lemma_div_multiples_vanish(8, 162000 - p);
    lemma_div_is_ordered(8 * (162000 - p), 4000 * p, 162000 - p);
}

/// Sine in per-mille of a tick angle, exact with respect to the crate's
/// sine model.
pub fn sin_milli(t: i64) -> (r: i64)
    requires
        0 <= t < 720,
    ensures
        r == spec_sin_milli(t as int),
        -1000 <= r <= 1000,
{
    let x: i64 = if t <= 360 {
        t
    } else {
        t - 360
    };
    proof {
        lemma_half_wave_product_range(x as int);
        lemma_sin_half_range(x as int);
    }
    let p: i64 = x * (360 - x);
    let s: i64 = 4000 * p / (162000 - p);
    if t <= 360 {
        s
    } else {
        -s
    }
}

/// Cosine in per-mille of a tick angle, exact with respect to the crate's
/// sine model.
pub fn cos_milli(t: i64) -> (r: i64)
    requires
        0 <= t < 720,
    ensures
        r == spec_cos_milli(t as int),
        -1000 <= r <= 1000,
{
    let u: i64 = if t + 180 < 720 {
        t + 180
    } else {
        t + 180 - 720
    };
    sin_milli(u)
}

/// The sine model vanishes only at the two zero crossings, where the cosine
/// model is a full-scale 1000 in magnitude.
pub proof fn lemma_sin_cos_not_both_zero(t: int)
    requires
        0 <= t < 720,
        spec_sin_milli(t) == 0,
    ensures
        t == 0 || t == 360,
        spec_cos_milli(t) == 1000 || spec_cos_milli(t) == -1000,
{
    if t <= 360 {
        if 1 <= t <= 359 {
            lemma_sin_half_positive(t);
        }
        if t == 360 {
            assert(spec_sin_half(360) == 0);
        }
    } else {
        lemma_sin_half_positive(t - 360);
    }
    assert(180 * (360 - 180) == 32400);
    lemma_div_multiples_vanish(1000, 129600);
    assert(spec_sin_half(180) == 1000);
    if t == 0 {
        assert(spec_cos_milli(0) == spec_sin_half(180));
    } else {
        assert(spec_cos_milli(360) == -spec_sin_half(180));
    }
}

/// The sine model is never more than full scale in magnitude.
pub proof fn lemma_sin_milli_range(t: int)
    requires
        0 <= t < 720,
    ensures
        -1000 <= spec_sin_milli(t) <= 1000,
        -1000 <= spec_cos_milli(t) <= 1000,
{
    if t <= 360 {
        lemma_sin_half_range(t);
    } else {
        lemma_sin_half_range(t - 360);
    }
    if t + 180 < 720 {
        if t + 180 <= 360 {
            lemma_sin_half_range(t + 180);
        } else {
            lemma_sin_half_range(t + 180 - 360);
        }
    } else {
        lemma_sin_half_range(t + 180 - 720);
    }
}

} // verus!
