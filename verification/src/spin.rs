//! Spin kinematics: pure functions mapping pitch parameters to the ball's
//! angular-velocity vector in the baseball reference frame, the fixed
//! baseball-to-world frame remap, and the launch velocity at release.

use vstd::prelude::*;

verus! {

use vstd::arithmetic::div_mod::{
    lemma_div_is_ordered,
    lemma_div_multiples_vanish,
    lemma_div_pos_is_pos,
    lemma_fundamental_div_mod_converse,
};
use crate::math::{
    lemma_sin_cos_not_both_zero,
    lemma_sin_half_positive,
    lemma_spec_isqrt,
    isqrt,
    cos_milli,
    sin_milli,
    spec_cos_milli,
    spec_isqrt,
    spec_sin_half,
    spec_sin_milli,
};
use crate::pitch::{GyroPole, Tilt};
use crate::vec::Vec3Fx;

/// Scaling with the sign split off, so that every division runs on
/// non-negative integers and floors toward zero.
pub open spec fn spec_signed_scale(v: int, k: int, den: int) -> int {
    if v >= 0 {
        v * k / den
    } else {
        -((-v) * k / den)
    }
}

/// Multiplies `v` by `k` and divides by `den`, rounding the magnitude down.
fn signed_scale(v: i64, k: i64, den: i64) -> (r: i64)
    requires
        0 < den,
        0 <= k <= 100_000,
        k <= den,
        -10_000_000_000_000 <= v <= 10_000_000_000_000,
    ensures
        r == spec_signed_scale(v as int, k as int, den as int),
        v >= 0 ==> 0 <= r <= v,
        v < 0 ==> v <= r <= 0,
{
    proof {
        let m: int = if v >= 0 { v as int } else { -(v as int) };
        assert(0 <= m * k) by (nonlinear_arith)
            requires
                0 <= m,
                0 <= k,
        ;
        assert(m * k <= m * den) by (nonlinear_arith)
            requires
                0 <= m,
                0 <= k <= den,
        ;
        lemma_div_pos_is_pos(m * k, den as int);
        lemma_div_is_ordered(m * k, m * den, den as int);
        lemma_div_multiples_vanish(m, den as int);
        assert(m * den == (den as int) * m) by (nonlinear_arith);
        assert(m * k / (den as int) <= m);
    }
    proof {
        assert(-1_000_000_000_000_000_000 <= v * k <= 1_000_000_000_000_000_000
            && -1_000_000_000_000_000_000 <= (-v) * k <= 1_000_000_000_000_000_000) by (
        nonlinear_arith)
            requires
                0 <= k <= 100_000,
                -10_000_000_000_000 <= v <= 10_000_000_000_000,
        ;
    }
    if v >= 0 {
        (v * k) / den
    } else {
        -(((-v) * k) / den)
    }
}

/// A zero spin rate is read as one revolution per minute, keeping the spin
/// axis well-defined downstream; every other rate stands as given.
pub open spec fn spec_effective_rate(rate: int) -> int {
    if rate == 0 {
        1
    } else {
        rate
    }
}

/// The cosine of the gyro angle in per-mille. The gyro angle is
/// `asin(efficiency)` for the left pole and `pi - asin(efficiency)` for the
/// right pole, so its cosine is the square root of one minus the squared
/// efficiency, negated for the right pole.
pub open spec fn spec_gyro_cos(eff: int, pole: GyroPole) -> int {
    let m = spec_isqrt(1_000_000 - eff * eff);
    match pole {
        GyroPole::Left => m,
        GyroPole::Right => -m,
    }
}

/// Baseball-frame x component of the spin vector, milliradians per second:
/// `rate * efficiency * sin(tilt)` scaled from rpm.
pub open spec fn spec_spin_x(rate: int, eff: int, ticks: int) -> int {
    spec_signed_scale(
        spec_effective_rate(rate) * eff * spec_sin_milli(ticks),
        10472,
        100_000_000,
    )
}

/// Baseball-frame y component of the spin vector, milliradians per second:
/// `rate * cos(gyro)` scaled from rpm.
pub open spec fn spec_spin_y(rate: int, eff: int, pole: GyroPole) -> int {
    spec_signed_scale(spec_effective_rate(rate) * spec_gyro_cos(eff, pole), 10472, 100_000)
}

/// Baseball-frame z component of the spin vector, milliradians per second:
/// `-rate * efficiency * cos(tilt)` scaled from rpm.
pub open spec fn spec_spin_z(rate: int, eff: int, ticks: int) -> int {
    spec_signed_scale(
        -(spec_effective_rate(rate) * eff * spec_cos_milli(ticks)),
        10472,
        100_000_000,
    )
}

/// The spin vector in the baseball reference frame, in milliradians per
/// second, from the spin rate (rpm), spin efficiency (per-mille), grip
/// tilt and gyro pole.
pub fn spin_vector(spin_rate: i64, spin_efficiency: i64, tilt: Tilt, gyro_pole: GyroPole) -> (r:
    Vec3Fx)
    requires
        0 <= spin_rate <= 100_000,
        0 <= spin_efficiency <= 1000,
        tilt.wf(),
    ensures
        r.x == spec_spin_x(spin_rate as int, spin_efficiency as int, tilt.ticks as int),
        r.y == spec_spin_y(spin_rate as int, spin_efficiency as int, gyro_pole),
        r.z == spec_spin_z(spin_rate as int, spin_efficiency as int, tilt.ticks as int),
        -100_000_000_000 <= r.x <= 100_000_000_000,
        -100_000_000 <= r.y <= 100_000_000,
        -100_000_000_000 <= r.z <= 100_000_000_000,
{
    let rate: i64 = if spin_rate == 0 {
        1
    } else {
        spin_rate
    };
    let s: i64 = sin_milli(tilt.ticks);
    let c: i64 = cos_milli(tilt.ticks);
    proof {
        assert(0 <= spin_efficiency * spin_efficiency <= 1_000_000) by (nonlinear_arith)
            requires
                0 <= spin_efficiency <= 1000,
        ;
    }
    let e2: i64 = spin_efficiency * spin_efficiency;
    let g_raw: u64 = isqrt((1_000_000 - e2) as u64);
    proof {
        assert(g_raw <= 1000) by (nonlinear_arith)
            requires
                g_raw * g_raw <= 1_000_000,
        ;
    }
    let g_mag: i64 = g_raw as i64;
    proof {
        lemma_spec_isqrt(1_000_000 - spin_efficiency * spin_efficiency);
        assert(spec_isqrt(1_000_000 - spin_efficiency * spin_efficiency) <= 1000) by (
        nonlinear_arith)
            requires
                spec_isqrt(1_000_000 - spin_efficiency * spin_efficiency) * spec_isqrt(
                    1_000_000 - spin_efficiency * spin_efficiency,
                ) <= 1_000_000 - spin_efficiency * spin_efficiency,
                0 <= spin_efficiency * spin_efficiency,
                0 <= spec_isqrt(1_000_000 - spin_efficiency * spin_efficiency),
        ;
    }
    let g: i64 = match gyro_pole {
        GyroPole::Left => g_mag,
        GyroPole::Right => -g_mag,
    };
    proof {
        assert(0 <= rate * spin_efficiency <= 100_000_000
            && -100_000_000_000 <= rate * spin_efficiency * s <= 100_000_000_000
            && -100_000_000_000 <= rate * spin_efficiency * c <= 100_000_000_000
            && -100_000_000 <= rate * g <= 100_000_000) by (nonlinear_arith)
            requires
                1 <= rate <= 100_000,
                0 <= spin_efficiency <= 1000,
                -1000 <= s <= 1000,
                -1000 <= c <= 1000,
                -1000 <= g <= 1000,
        ;
    }
    let x: i64 = signed_scale(rate * spin_efficiency * s, 10472, 100_000_000);
    let y: i64 = signed_scale(rate * g, 10472, 100_000);
    let z: i64 = signed_scale(-(rate * spin_efficiency * c), 10472, 100_000_000);
    Vec3Fx { x, y, z }
}

/// The fixed remap from the baseball reference frame to the world frame:
/// the two horizontal-spin axes swap so that the baseball z axis becomes
/// the world y axis, and the x axis flips to keep the frame right-handed.
pub fn from_baseball_coord_to_world(v: Vec3Fx) -> (r: Vec3Fx)
    requires
        -1_000_000_000_000 <= v.x <= 1_000_000_000_000,
        -1_000_000_000_000 <= v.y <= 1_000_000_000_000,
        -1_000_000_000_000 <= v.z <= 1_000_000_000_000,
    ensures
        r.x == -v.x,
        r.y == v.z,
        r.z == v.y,
{
    Vec3Fx { x: -v.x, y: v.z, z: v.y }
}

/// One component of the launch velocity in millimetres per second:
/// direction component (unit scale) times speed (milli-mph) times the mph
/// to metres-per-second conversion.
pub open spec fn spec_release_component(d: int, speed: int) -> int {
    spec_signed_scale(d * speed, 44_704, 1_000_000_000)
}

/// The linear velocity imparted to the ball at release: the aim direction
/// scaled by the launch speed, unit-converted. It depends on nothing but
/// the aim direction and the speed.
pub fn release_velocity(direction: Vec3Fx, speed: i64) -> (r: Vec3Fx)
    requires
        -10_000 <= direction.x <= 10_000,
        -10_000 <= direction.y <= 10_000,
        -10_000 <= direction.z <= 10_000,
        0 <= speed <= 300_000,
    ensures
        r.x == spec_release_component(direction.x as int, speed as int),
        r.y == spec_release_component(direction.y as int, speed as int),
        r.z == spec_release_component(direction.z as int, speed as int),
{
    proof {
        assert(-3_000_000_000_000 <= direction.x * speed <= 3_000_000_000_000
            && -3_000_000_000_000 <= direction.y * speed <= 3_000_000_000_000
            && -3_000_000_000_000 <= direction.z * speed <= 3_000_000_000_000) by (nonlinear_arith)
            requires
                -10_000 <= direction.x <= 10_000,
                -10_000 <= direction.y <= 10_000,
                -10_000 <= direction.z <= 10_000,
                0 <= speed <= 300_000,
        ;
    }
    let x: i64 = signed_scale(direction.x * speed, 44_704, 1_000_000_000);
    let y: i64 = signed_scale(direction.y * speed, 44_704, 1_000_000_000);
    let z: i64 = signed_scale(direction.z * speed, 44_704, 1_000_000_000);
    Vec3Fx { x, y, z }
}

/// Division bound: a quotient of non-negative integers is at least `q`
/// once the dividend reaches `q` times the divisor.
proof fn lemma_div_at_least(a: int, d: int, q: int)
    requires
        0 < d,
        0 <= q,
        a >= q * d,
    ensures
        a / d >= q,
{
    lemma_div_multiples_vanish(q, d);
    lemma_div_is_ordered(q * d, a, d);
}

/// A signed scaling is nonzero once the magnitude of the input, multiplied
/// by the numerator, reaches the denominator.
proof fn lemma_signed_scale_nonzero(v: int, k: int, den: int)
    requires
        0 < den,
        0 < k,
        v != 0,
        (if v >= 0 { v } else { -v }) * k >= den,
    ensures
        spec_signed_scale(v, k, den) != 0,
{
    if v >= 0 {
        lemma_div_at_least(v * k, den, 1);
    } else {
        lemma_div_at_least((-v) * k, den, 1);
    }
}

/// Helper: away from the quarter-turn crossings the half-wave sine is at
/// least 10 per-mille.
proof fn lemma_sin_half_at_least_ten(x: int)
    requires
        2 <= x <= 358,
    ensures
        spec_sin_half(x) >= 10,
{
    let p = x * (360 - x);
    assert((x - 2) * (358 - x) >= 0) by (nonlinear_arith)
        requires
            2 <= x <= 358,
    ;
    assert(p >= 716) by (nonlinear_arith)
        requires
            (x - 2) * (358 - x) >= 0,
            p == x * (360 - x),
    ;
    assert(p <= 32400) by (nonlinear_arith)
        requires
            0 <= x <= 360,
            p == x * (360 - x),
    ;
    assert(4000 * p >= 10 * (162000 - p)) by (nonlinear_arith)
        requires
            p >= 716,
    ;
    lemma_div_at_least(4000 * p, 162000 - p, 10);
}

/// Helper: one tick away from a quarter-turn crossing the half-wave sine
/// is 999 per-mille.
proof fn lemma_sin_half_near_peak(x: int)
    requires
        x == 179 || x == 181,
    ensures
        spec_sin_half(x) == 999,
{
    assert(x * (360 - x) == 32399);
    lemma_fundamental_div_mod_converse(4000int * 32399, 162000int - 32399, 999int, 124601int);
}

/// Degenerate spin rate: for every admissible efficiency, tilt and pole,
/// the spin vector of a zero spin rate (read as one rpm) is not the zero
/// vector, and more generally no admissible spin rate yields a zero
/// vector.
pub proof fn lemma_spin_vector_nonzero(rate: int, eff: int, ticks: int, pole: GyroPole)
    requires
        0 <= rate <= 100_000,
        0 <= eff <= 1000,
        0 <= ticks < 720,
    ensures
        !(spec_spin_x(rate, eff, ticks) == 0 && spec_spin_y(rate, eff, pole) == 0 && spec_spin_z(
            rate,
            eff,
            ticks,
        ) == 0),
{
    let er = spec_effective_rate(rate);
    let s = spec_sin_milli(ticks);
    let c = spec_cos_milli(ticks);
    crate::math::lemma_sin_milli_range(ticks);
    if eff <= 999 {
        // The gyro component alone is nonzero.
        let n = 1_000_000 - eff * eff;
        assert(n >= 1999) by (nonlinear_arith)
            requires
                0 <= eff <= 999,
                n == 1_000_000 - eff * eff,
        ;
        lemma_spec_isqrt(n);
        let g = spec_isqrt(n);
        assert(g >= 44) by (nonlinear_arith)
            requires
                (g + 1) * (g + 1) > n,
                n >= 1999,
                g >= 0,
        ;
        let v = er * spec_gyro_cos(eff, pole);
        let w = er * g;
        assert(w >= 44) by (nonlinear_arith)
            requires
                er >= 1,
                g >= 44,
                w == er * g,
        ;
        assert(w * 10472 >= 100_000) by (nonlinear_arith)
            requires
                w >= 44,
        ;
        match pole {
            GyroPole::Left => {
                assert(v == w);
                lemma_signed_scale_nonzero(v, 10472, 100_000);
            },
            GyroPole::Right => {
                assert(v == -w) by (nonlinear_arith)
                    requires
                        v == er * (-g),
                        w == er * g,
                ;
                lemma_signed_scale_nonzero(v, 10472, 100_000);
            },
        }
    } else {
        // Full efficiency: all of the spin is transverse; the tilt's sine
        // and cosine cannot both be small.
        let big: int = if spec_abs(s) >= 10 {
            s
        } else {
            c
        };
        if spec_abs(s) < 10 {
            lemma_sin_cos_near_crossing(ticks);
        }
        assert(spec_abs(big) >= 10);
        if spec_abs(s) >= 10 {
            let v = er * eff * s;
            assert(spec_abs(v) * 10472 >= 100_000_000 && v != 0) by (nonlinear_arith)
                requires
                    er >= 1,
                    eff == 1000,
                    spec_abs(s) >= 10,
                    v == er * eff * s,
                    spec_abs(v) == if v >= 0 { v } else { -v },
                    spec_abs(s) == if s >= 0 { s } else { -s },
            ;
            lemma_signed_scale_nonzero(v, 10472, 100_000_000);
        } else {
            let v = -(er * eff * c);
            assert(spec_abs(v) * 10472 >= 100_000_000 && v != 0) by (nonlinear_arith)
                requires
                    er >= 1,
                    eff == 1000,
                    spec_abs(c) >= 10,
                    v == -(er * eff * c),
                    spec_abs(v) == if v >= 0 { v } else { -v },
                    spec_abs(c) == if c >= 0 { c } else { -c },
            ;
            lemma_signed_scale_nonzero(v, 10472, 100_000_000);
        }
    }
}

/// The magnitude of an integer.
pub open spec fn spec_abs(v: int) -> int {
    if v >= 0 {
        v
    } else {
        -v
    }
}

/// Wherever the sine model is smaller than 10 per-mille in magnitude, the
/// cosine model is at least 999 per-mille in magnitude.
proof fn lemma_sin_cos_near_crossing(ticks: int)
    requires
        0 <= ticks < 720,
        spec_abs(spec_sin_milli(ticks)) < 10,
    ensures
        spec_abs(spec_cos_milli(ticks)) >= 999,
{
    // First pin the tick down to the crossings' neighbourhoods.
    if ticks <= 360 {
        if 2 <= ticks <= 358 {
            lemma_sin_half_at_least_ten(ticks);
        }
    } else {
        if 2 <= ticks - 360 <= 358 {
            lemma_sin_half_at_least_ten(ticks - 360);
        }
    }
    assert(ticks == 0 || ticks == 1 || ticks == 359 || ticks == 360 || ticks == 361 || ticks
        == 719);
    // Then evaluate the cosine there.
    assert(180 * (360 - 180) == 32400);
    lemma_div_multiples_vanish(1000, 129600);
    if ticks == 0 {
        assert(spec_cos_milli(0) == spec_sin_half(180));
    } else if ticks == 1 {
        lemma_sin_half_near_peak(181);
        assert(spec_cos_milli(1) == spec_sin_half(181));
    } else if ticks == 359 {
        lemma_sin_half_near_peak(179);
        assert(spec_cos_milli(359) == -spec_sin_half(179));
    } else if ticks == 360 {
        assert(spec_cos_milli(360) == -spec_sin_half(180));
    } else if ticks == 361 {
        lemma_sin_half_near_peak(181);
        assert(spec_cos_milli(361) == -spec_sin_half(181));
    } else {
        lemma_sin_half_near_peak(179);
        assert(spec_cos_milli(719) == spec_sin_half(179));
    }
}

} // verus!
