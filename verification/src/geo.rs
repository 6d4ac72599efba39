//! Great-circle (haversine) distance between two coordinates, computed in
//! fixed-point integer arithmetic.
//!
//! Angles are held in nano-radians (scale 1e9), unit-interval quantities such
//! as sines in the same 1e9 scale, and their products in the 1e18 scale.
//! Coordinates arrive in micro-degrees and are clamped to the valid ranges
//! (±90° latitude, ±180° longitude); distances leave in micro-miles.
//!
//! Each executable function returns exactly the value of its spec twin, so
//! callers' contracts can speak of the computed distance as a mathematical
//! function of the coordinates.

use vstd::prelude::*;

verus! {

/// Fixed-point scale for unit quantities and radians: 1e9.
pub const SCALE: i128 = 1_000_000_000;

/// π/2 in nano-radians.
pub const HALF_PI_NANO: i128 = 1_570_796_327;

/// π in nano-radians.
pub const PI_NANO: i128 = 3_141_592_654;

/// Nano-radians per micro-degree, times 1e6 (π/180 · 1e3 · 1e6).
pub const NANO_RAD_PER_MICRO_DEG_E6: i128 = 17_453_293;

/// Earth's radius in miles.
pub const EARTH_RADIUS_MILES: i128 = 3959;

/// One in the 1e18 product scale.
pub const ONE_Q: i128 = 1_000_000_000_000_000_000;

/// Largest distance the haversine formula can yield: half Earth's
/// circumference in micro-miles, by the constants above (π · 3959 · 1e6).
pub const MAX_SEGMENT_MICRO_MILES: u64 = 12_437_565_317;

/// `x · y ≤ a · b` for non-negative factors below their bounds.
proof fn lemma_mul_bound(x: int, y: int, a: int, b: int)
    requires
        0 <= x <= a,
        0 <= y <= b,
    ensures
        0 <= x * y <= a * b,
{
    assert(0 <= x * y <= a * b) by (nonlinear_arith)
        requires
            0 <= x <= a,
            0 <= y <= b,
    ;
}

/// Division of a bounded non-negative value by a positive divisor stays
/// within the divided bound.
proof fn lemma_div_bound(x: int, m: int, d: int)
    requires
        0 <= x <= m,
        0 < d,
    ensures
        0 <= x / d <= m / d,
{
    assert(0 <= x / d <= m / d) by (nonlinear_arith)
        requires
            0 <= x <= m,
            0 < d,
    ;
}

pub open spec fn clamp_spec(x: int, lo: int, hi: int) -> int {
    if x < lo {
        lo
    } else if x > hi {
        hi
    } else {
        x
    }
}

fn clamp_i128(x: i128, lo: i128, hi: i128) -> (r: i128)
    requires
        lo <= hi,
    ensures
        r == clamp_spec(x as int, lo as int, hi as int),
        lo <= r <= hi,
{
    if x < lo {
        lo
    } else if x > hi {
        hi
    } else {
        x
    }
}

pub open spec fn abs_spec(x: int) -> int {
    if x < 0 {
        -x
    } else {
        x
    }
}

/// Sine by its Taylor polynomial to the ninth power, for angles in
/// [0, π/2] nano-radians, clamped into [0, 1e9].
pub open spec fn sin_poly_spec(x: int) -> int {
    let s = SCALE as int;
    let u = x * x / s;
    let t1 = x;
    let t2 = t1 * u / s / 6;
    let t3 = t2 * u / s / 20;
    let t4 = t3 * u / s / 42;
    let t5 = t4 * u / s / 72;
    clamp_spec(t1 + t3 + t5 - t2 - t4, 0, s)
}

fn sin_poly(x: i128) -> (r: i128)
    requires
        0 <= x <= HALF_PI_NANO,
    ensures
        r == sin_poly_spec(x as int),
        0 <= r <= SCALE,
{
    proof {
        lemma_mul_bound(x as int, x as int, 1_600_000_000int, 1_600_000_000int);
        lemma_div_bound(x as int * x as int, 1_600_000_000int * 1_600_000_000int, SCALE as int);
    }
    let u: i128 = x * x / SCALE;
    let t1: i128 = x;
    proof {
        lemma_mul_bound(t1 as int, u as int, 1_600_000_000int, 2_560_000_000int);
        lemma_div_bound(t1 as int * u as int, 1_600_000_000int * 2_560_000_000int, SCALE as int);
        lemma_div_bound(t1 as int * u as int / (SCALE as int), 4_096_000_000int, 6int);
    }
    let t2: i128 = t1 * u / SCALE / 6;
    proof {
        lemma_mul_bound(t2 as int, u as int, 682_666_666int, 2_560_000_000int);
        lemma_div_bound(t2 as int * u as int, 682_666_666int * 2_560_000_000int, SCALE as int);
        lemma_div_bound(t2 as int * u as int / (SCALE as int), 1_747_626_664int, 20int);
    }
    let t3: i128 = t2 * u / SCALE / 20;
    proof {
        lemma_mul_bound(t3 as int, u as int, 87_381_333int, 2_560_000_000int);
        lemma_div_bound(t3 as int * u as int, 87_381_333int * 2_560_000_000int, SCALE as int);
        lemma_div_bound(t3 as int * u as int / (SCALE as int), 223_696_212int, 42int);
    }
    let t4: i128 = t3 * u / SCALE / 42;
    proof {
        lemma_mul_bound(t4 as int, u as int, 5_326_100int, 2_560_000_000int);
        lemma_div_bound(t4 as int * u as int, 5_326_100int * 2_560_000_000int, SCALE as int);
        lemma_div_bound(t4 as int * u as int / (SCALE as int), 13_634_816int, 72int);
    }
    let t5: i128 = t4 * u / SCALE / 72;
    clamp_i128(t1 + t3 + t5 - t2 - t4, 0, SCALE)
}

/// Sine on [0, π] nano-radians, by reflection around π/2.
pub open spec fn sin_half_turn_spec(x: int) -> int {
    if x > HALF_PI_NANO as int {
        sin_poly_spec(PI_NANO as int - x)
    } else {
        sin_poly_spec(x)
    }
}

fn sin_half_turn(x: i128) -> (r: i128)
    requires
        0 <= x <= PI_NANO,
    ensures
        r == sin_half_turn_spec(x as int),
        0 <= r <= SCALE,
{
    if x > HALF_PI_NANO {
        sin_poly(PI_NANO - x)
    } else {
        sin_poly(x)
    }
}

/// The integer square root: the unique `r ≥ 0` with `r² ≤ n < (r+1)²`.
pub open spec fn isqrt_spec(n: int) -> int
    decreases n,
{
    if n <= 0 {
        0
    } else if (isqrt_spec(n - 1) + 1) * (isqrt_spec(n - 1) + 1) <= n {
        isqrt_spec(n - 1) + 1
    } else {
        isqrt_spec(n - 1)
    }
}

proof fn lemma_isqrt_spec_bounds(n: int)
    requires
        0 <= n,
    ensures
        0 <= isqrt_spec(n),
        isqrt_spec(n) * isqrt_spec(n) <= n,
        n < (isqrt_spec(n) + 1) * (isqrt_spec(n) + 1),
    decreases n,
{
    if n == 0 {
        assert(isqrt_spec(0) == 0);
    } else {
        lemma_isqrt_spec_bounds(n - 1);
        let p = isqrt_spec(n - 1);
        if (p + 1) * (p + 1) <= n {
            assert(n - 1 < (p + 1) * (p + 1));
            assert(n < (p + 2) * (p + 2)) by (nonlinear_arith)
                requires
                    0 <= p,
                    n <= (p + 1) * (p + 1),
            ;
        }
    }
}

proof fn lemma_isqrt_unique(n: int, r: int)
    requires
        0 <= n,
        0 <= r,
        r * r <= n,
        n < (r + 1) * (r + 1),
    ensures
        r == isqrt_spec(n),
{
    lemma_isqrt_spec_bounds(n);
    let s = isqrt_spec(n);
    if r < s {
        assert((r + 1) * (r + 1) <= s * s) by (nonlinear_arith)
            requires
                0 <= r,
                r + 1 <= s,
        ;
    }
    if s < r {
        assert((s + 1) * (s + 1) <= r * r) by (nonlinear_arith)
            requires
                0 <= s,
                s + 1 <= r,
        ;
    }
}

fn isqrt(a: i128) -> (r: i128)
    requires
        0 <= a <= 4_000_000_000_000_000_000,
    ensures
        r == isqrt_spec(a as int),
        0 <= r <= 2_000_000_000,
        r * r <= a,
        a < (r + 1) * (r + 1),
{
    let mut lo: i128 = 0;
    let mut hi: i128 = 2_000_000_001;
    proof {
        assert(2_000_000_001int * 2_000_000_001int > a as int) by (nonlinear_arith)
            requires
                a as int <= 4_000_000_000_000_000_000int,
        ;
    }
    while lo + 1 < hi
        invariant
            0 <= lo < hi <= 2_000_000_001,
            lo * lo <= a,
            (a as int) < (hi as int) * (hi as int),
        decreases hi - lo,
    {
        let mid: i128 = lo + (hi - lo) / 2;
        proof {
            lemma_mul_bound(mid as int, mid as int, 2_000_000_001int, 2_000_000_001int);
        }
        let m2: i128 = mid * mid;
        if m2 <= a {
            lo = mid;
        } else {
            hi = mid;
        }
    }
    proof {
        lemma_isqrt_unique(a as int, lo as int);
    }
    lo
}

/// Arcsine by its Taylor polynomial to the ninth power, for sine values in
/// [0, 0.5] at the 1e9 scale.
pub open spec fn asin_poly_spec(y: int) -> int {
    let s = SCALE as int;
    let u = y * y / s;
    let p1 = y;
    let p2 = p1 * u / (s * 6);
    let p3 = p2 * u * 9 / (s * 20);
    let p4 = p3 * u * 25 / (s * 42);
    let p5 = p4 * u * 49 / (s * 72);
    p1 + p2 + p3 + p4 + p5
}

fn asin_poly(y: i128) -> (r: i128)
    requires
        0 <= y <= 500_000_000,
    ensures
        r == asin_poly_spec(y as int),
        0 <= r <= 530_000_000,
{
    proof {
        lemma_mul_bound(y as int, y as int, 500_000_000int, 500_000_000int);
        lemma_div_bound(y as int * y as int, 500_000_000int * 500_000_000int, SCALE as int);
    }
    let u: i128 = y * y / SCALE;
    let p1: i128 = y;
    proof {
        lemma_mul_bound(p1 as int, u as int, 500_000_000int, 250_000_000int);
        lemma_div_bound(p1 as int * u as int, 500_000_000int * 250_000_000int,
            SCALE as int * 6);
    }
    let p2: i128 = p1 * u / (SCALE * 6);
    proof {
        lemma_mul_bound(p2 as int, u as int, 20_833_333int, 250_000_000int);
        lemma_mul_bound(p2 as int * u as int, 9int, 20_833_333int * 250_000_000int, 9int);
        lemma_div_bound(p2 as int * u as int * 9, 20_833_333int * 250_000_000int * 9,
            SCALE as int * 20);
    }
    let p3: i128 = p2 * u * 9 / (SCALE * 20);
    proof {
        lemma_mul_bound(p3 as int, u as int, 2_343_749int, 250_000_000int);
        lemma_mul_bound(p3 as int * u as int, 25int, 2_343_749int * 250_000_000int, 25int);
        lemma_div_bound(p3 as int * u as int * 25, 2_343_749int * 250_000_000int * 25,
            SCALE as int * 42);
    }
    let p4: i128 = p3 * u * 25 / (SCALE * 42);
    proof {
        lemma_mul_bound(p4 as int, u as int, 348_772int, 250_000_000int);
        lemma_mul_bound(p4 as int * u as int, 49int, 348_772int * 250_000_000int, 49int);
        lemma_div_bound(p4 as int * u as int * 49, 348_772int * 250_000_000int * 49,
            SCALE as int * 72);
    }
    let p5: i128 = p4 * u * 49 / (SCALE * 72);
    p1 + p2 + p3 + p4 + p5
}

/// Arcsine on the whole unit interval, at the 1e9 scale: the polynomial
/// directly below 0.5, and through the half-angle identity
/// asin(y) = π/2 − 2·asin(√((1−y)/2)) above it.
pub open spec fn asin_q_spec(y: int) -> int {
    if y <= 500_000_000 {
        clamp_spec(asin_poly_spec(y), 0, HALF_PI_NANO as int)
    } else {
        let w = (SCALE as int - y) * (SCALE as int) / 2;
        clamp_spec(
            HALF_PI_NANO as int - 2 * asin_poly_spec(isqrt_spec(w)),
            0,
            HALF_PI_NANO as int,
        )
    }
}

fn asin_q(y: i128) -> (r: i128)
    requires
        0 <= y <= SCALE,
    ensures
        r == asin_q_spec(y as int),
        0 <= r <= HALF_PI_NANO,
{
    if y <= 500_000_000 {
        clamp_i128(asin_poly(y), 0, HALF_PI_NANO)
    } else {
        proof {
            lemma_mul_bound(SCALE as int - y as int, SCALE as int, 500_000_000int, SCALE as int);
        }
        let w: i128 = (SCALE - y) * SCALE / 2;
        let z: i128 = isqrt(w);
        proof {
            assert(z as int <= 500_000_000int) by (nonlinear_arith)
                requires
                    0 <= z as int,
                    z as int * z as int <= w as int,
                    w as int <= 250_000_000_000_000_000int,
            ;
        }
        let p: i128 = asin_poly(z);
        clamp_i128(HALF_PI_NANO - 2 * p, 0, HALF_PI_NANO)
    }
}

/// Converts micro-degrees to nano-radians, clamped to [−limit, limit].
/// The magnitude is converted first so that negative angles divide the same
/// way positive ones do.
pub open spec fn to_rad_spec(deg_micro: int, limit: int) -> int {
    let m = abs_spec(deg_micro) * NANO_RAD_PER_MICRO_DEG_E6 as int / 1_000_000;
    if deg_micro < 0 {
        clamp_spec(-m, -limit, limit)
    } else {
        clamp_spec(m, -limit, limit)
    }
}

fn to_rad(deg_micro: i64, limit: i128) -> (r: i128)
    requires
        0 < limit,
    ensures
        r == to_rad_spec(deg_micro as int, limit as int),
        -limit <= r <= limit,
{
    let mag: i128 = if deg_micro < 0 {
        -(deg_micro as i128)
    } else {
        deg_micro as i128
    };
    proof {
        lemma_mul_bound(mag as int, NANO_RAD_PER_MICRO_DEG_E6 as int,
            10_000_000_000_000_000_000int, 17_453_293int);
        lemma_div_bound(mag as int * (NANO_RAD_PER_MICRO_DEG_E6 as int),
            10_000_000_000_000_000_000int * 17_453_293int, 1_000_000int);
    }
    let m: i128 = mag * NANO_RAD_PER_MICRO_DEG_E6 / 1_000_000;
    if deg_micro < 0 {
        clamp_i128(-m, -limit, limit)
    } else {
        clamp_i128(m, -limit, limit)
    }
}

/// The haversine distance in micro-miles between two points given in
/// micro-degrees, as computed in fixed point: coordinates are clamped to the
/// valid ranges, converted to nano-radians, and fed through
/// a = sin²(Δφ/2) + cos φ₁ · cos φ₂ · sin²(Δλ/2), c = 2·asin(√a),
/// distance = R · c.
pub open spec fn haversine_micro_spec(lat1: int, lon1: int, lat2: int, lon2: int) -> int {
    let s = SCALE as int;
    let phi1 = to_rad_spec(lat1, HALF_PI_NANO as int);
    let phi2 = to_rad_spec(lat2, HALF_PI_NANO as int);
    let lam1 = to_rad_spec(lon1, PI_NANO as int);
    let lam2 = to_rad_spec(lon2, PI_NANO as int);
    let sin_dphi = sin_poly_spec(abs_spec(phi2 - phi1) / 2);
    let sin_dlam = sin_half_turn_spec(abs_spec(lam2 - lam1) / 2);
    let cos1 = sin_poly_spec(HALF_PI_NANO as int - abs_spec(phi1));
    let cos2 = sin_poly_spec(HALF_PI_NANO as int - abs_spec(phi2));
    let a = clamp_spec(
        sin_dphi * sin_dphi + (cos1 * cos2 / s) * (sin_dlam * sin_dlam / s),
        0,
        ONE_Q as int,
    );
    let c = 2 * asin_q_spec(isqrt_spec(a));
    clamp_spec(c * (EARTH_RADIUS_MILES as int) / 1000, 0, MAX_SEGMENT_MICRO_MILES as int)
}

/// The haversine distance is a distance: never negative and never more than
/// half Earth's circumference.
pub proof fn lemma_haversine_range(lat1: int, lon1: int, lat2: int, lon2: int)
    ensures
        0 <= haversine_micro_spec(lat1, lon1, lat2, lon2) <= MAX_SEGMENT_MICRO_MILES as int,
{
}

/// Great-circle distance between two coordinates in micro-degrees, in
/// micro-miles. Coordinates outside ±90° latitude or ±180° longitude are
/// clamped to the valid range first.
pub fn calculate_distance(lat1: i64, lon1: i64, lat2: i64, lon2: i64) -> (d: u64)
    ensures
        d == haversine_micro_spec(lat1 as int, lon1 as int, lat2 as int, lon2 as int),
        d <= MAX_SEGMENT_MICRO_MILES,
{
    let phi1: i128 = to_rad(lat1, HALF_PI_NANO);
    let phi2: i128 = to_rad(lat2, HALF_PI_NANO);
    let lam1: i128 = to_rad(lon1, PI_NANO);
    let lam2: i128 = to_rad(lon2, PI_NANO);
    let dphi: i128 = phi2 - phi1;
    let adphi: i128 = if dphi < 0 {
        -dphi
    } else {
        dphi
    };
    let dlam: i128 = lam2 - lam1;
    let adlam: i128 = if dlam < 0 {
        -dlam
    } else {
        dlam
    };
    let aphi1: i128 = if phi1 < 0 {
        -phi1
    } else {
        phi1
    };
    let aphi2: i128 = if phi2 < 0 {
        -phi2
    } else {
        phi2
    };
    let sin_dphi: i128 = sin_poly(adphi / 2);
    let sin_dlam: i128 = sin_half_turn(adlam / 2);
    let cos1: i128 = sin_poly(HALF_PI_NANO - aphi1);
    let cos2: i128 = sin_poly(HALF_PI_NANO - aphi2);
    proof {
        lemma_mul_bound(sin_dphi as int, sin_dphi as int, SCALE as int, SCALE as int);
        lemma_mul_bound(cos1 as int, cos2 as int, SCALE as int, SCALE as int);
        lemma_div_bound(cos1 as int * cos2 as int, SCALE as int * SCALE as int, SCALE as int);
        lemma_mul_bound(sin_dlam as int, sin_dlam as int, SCALE as int, SCALE as int);
        lemma_div_bound(sin_dlam as int * sin_dlam as int, SCALE as int * SCALE as int,
            SCALE as int);
        lemma_mul_bound(
            cos1 as int * cos2 as int / (SCALE as int),
            sin_dlam as int * sin_dlam as int / (SCALE as int),
            SCALE as int,
            SCALE as int,
        );
    }
    let cross: i128 = (cos1 * cos2 / SCALE) * (sin_dlam * sin_dlam / SCALE);
    let a: i128 = clamp_i128(sin_dphi * sin_dphi + cross, 0, ONE_Q);
    let root: i128 = isqrt(a);
    proof {
        assert(root as int <= SCALE as int) by (nonlinear_arith)
            requires
                0 <= root as int,
                root as int * root as int <= a as int,
                a as int <= 1_000_000_000_000_000_000int,
    ;
    }
    let c: i128 = 2 * asin_q(root);
    proof {
        lemma_mul_bound(c as int, EARTH_RADIUS_MILES as int, 3_141_592_654int, 3959int);
        lemma_div_bound(c as int * (EARTH_RADIUS_MILES as int), 3_141_592_654int * 3959int,
            1000int);
    }
    let d: i128 = clamp_i128(c * EARTH_RADIUS_MILES / 1000, 0, MAX_SEGMENT_MICRO_MILES as i128);
    d as u64
}

} // verus!
