//! Lights and the point-light influence radius.
//!
//! Values are held in fixed point: one world or color unit is `MICRO`
//! steps.  For the attenuation model `intensity(d) = peak / (a0 + a1*d +
//! a2*d*d)`, a point light's influence radius is the distance at which the
//! intensity falls to the configured minimum visible threshold:
//! `r = (-a1 + sqrt(a1*a1 - 4*a2*(a0 - peak/threshold))) / (2*a2)`.
//!
//! Degenerate attenuation (a zero quadratic coefficient, or a negative
//! discriminant) leaves that equation without a usable root; the chosen
//! policy is a radius of zero, so the light's volume collapses and the
//! light contributes nothing.  A radius beyond the representable range is
//! clamped to the largest representable value.

use vstd::prelude::*;

verus! {

/// Fixed-point steps per world/color unit: values are held in millionths.
pub const MICRO: i64 = 1_000_000;

/// Largest magnitude, in fixed-point steps, a light channel may carry.
/// The bound keeps every intermediate of the radius computation inside the
/// machine's 128-bit range.
pub const LIGHT_UNIT_MAX: i64 = 1_000_000_000_000;

/// A three-channel fixed-point value: a position, a color, or the three
/// attenuation coefficients (constant, linear, quadratic).
#[derive(Copy, Clone, PartialEq, Eq, Structural, Debug)]
pub struct Vec3 {
    pub x: i64,
    pub y: i64,
    pub z: i64,
}

impl Vec3 {
    /// Every channel within the representable magnitude bound.
    pub open spec fn in_range(self) -> bool {
        &&& -LIGHT_UNIT_MAX <= self.x <= LIGHT_UNIT_MAX
        &&& -LIGHT_UNIT_MAX <= self.y <= LIGHT_UNIT_MAX
        &&& -LIGHT_UNIT_MAX <= self.z <= LIGHT_UNIT_MAX
    }

    /// Every channel nonnegative.
    pub open spec fn nonneg(self) -> bool {
        0 <= self.x && 0 <= self.y && 0 <= self.z
    }
}

/// The largest of a color's three channels: the peak intensity the light
/// reaches at distance zero over a unit denominator.
pub open spec fn peak_channel(c: Vec3) -> int {
    if c.x >= c.y && c.x >= c.z {
        c.x as int
    } else if c.y >= c.z {
        c.y as int
    } else {
        c.z as int
    }
}

/// Computes `peak_channel`.
pub fn max_channel(c: Vec3) -> (m: i64)
    ensures
        m == peak_channel(c),
{
    if c.x >= c.y && c.x >= c.z {
        c.x
    } else if c.y >= c.z {
        c.y
    } else {
        c.z
    }
}

/// A light source.  `is_main` marks a directional or ambient light, drawn
/// as an unbounded full-screen pass; every other light is a point light
/// whose `radius` is derived each frame and never persisted.
#[derive(Copy, Clone, PartialEq, Eq, Structural, Debug)]
pub struct Light {
    pub position: Vec3,
    pub color: Vec3,
    pub attenuation: Vec3,
    pub is_main: bool,
    pub radius: i64,
}

impl Light {
    /// Channel bounds a frame's light must satisfy; machine limits force
    /// them, so that the radius computation stays inside 128-bit
    /// intermediates.  Color and attenuation are nonnegative by nature.
    pub open spec fn wf(self) -> bool {
        &&& self.position.in_range()
        &&& self.color.in_range()
        &&& self.color.nonneg()
        &&& self.attenuation.in_range()
        &&& self.attenuation.nonneg()
    }

    /// The radius this light gets under a threshold, in fixed-point steps.
    pub open spec fn radius_for(self, threshold: int) -> int {
        radius_spec(self.attenuation, peak_channel(self.color), threshold)
    }

    /// The instance record the light pass uploads for this light: the same
    /// light, now carrying its derived radius.
    pub open spec fn instance_for(self, threshold: int) -> Light {
        Light { radius: self.radius_for(threshold) as i64, ..self }
    }

    /// Checks `wf` at run time, so that an executor can reject a frame's
    /// lights before the light pass demands them well formed.
    pub fn check_wf(&self) -> (ok: bool)
        ensures
            ok == self.wf(),
    {
        in_range_checked(self.position) && in_range_checked(self.color)
            && nonneg_checked(self.color) && in_range_checked(self.attenuation)
            && nonneg_checked(self.attenuation)
    }

    /// Computes `instance_for`.
    pub fn with_computed_radius(&self, threshold: i64) -> (l: Light)
        requires
            self.wf(),
            0 < threshold <= LIGHT_UNIT_MAX,
        ensures
            l == self.instance_for(threshold as int),
    {
        let peak = max_channel(self.color);
        let radius = point_light_radius(self.attenuation, peak, threshold);
        Light { radius, ..*self }
    }
}

/// Computes `Vec3::in_range`.
fn in_range_checked(v: Vec3) -> (ok: bool)
    ensures
        ok == v.in_range(),
{
    -LIGHT_UNIT_MAX <= v.x && v.x <= LIGHT_UNIT_MAX && -LIGHT_UNIT_MAX <= v.y
        && v.y <= LIGHT_UNIT_MAX && -LIGHT_UNIT_MAX <= v.z && v.z <= LIGHT_UNIT_MAX
}

/// Computes `Vec3::nonneg`.
fn nonneg_checked(v: Vec3) -> (ok: bool)
    ensures
        ok == v.nonneg(),
{
    0 <= v.x && 0 <= v.y && 0 <= v.z
}

/// `s` is the integer square root of `n`: the largest integer whose square
/// does not exceed `n`.
pub open spec fn is_sqrt_floor(s: int, n: int) -> bool {
    &&& 0 <= s
    &&& s * s <= n
    &&& n < (s + 1) * (s + 1)
}

/// The integer square root of `n`; meaningful for `n >= 0`, where
/// `lemma_sqrt_floor_exists` shows it satisfies `is_sqrt_floor`.
pub open spec fn sqrt_floor(n: int) -> int {
    choose|s: int| is_sqrt_floor(s, n)
}

/// Law: every nonnegative integer has an integer square root.
pub proof fn lemma_sqrt_floor_exists(n: int)
    requires
        0 <= n,
    ensures
        is_sqrt_floor(sqrt_floor(n), n),
    decreases n,
{
    if n == 0 {
        assert(is_sqrt_floor(0, 0));
    } else {
        lemma_sqrt_floor_exists(n - 1);
        let s = sqrt_floor(n - 1);
        if (s + 1) * (s + 1) <= n {
            assert((s + 1) * (s + 1) == n);
            assert(n < (s + 2) * (s + 2)) by (nonlinear_arith)
                requires
                    0 <= s,
                    (s + 1) * (s + 1) == n,
            ;
            assert(is_sqrt_floor(s + 1, n));
        } else {
            assert(is_sqrt_floor(s, n));
        }
    }
}

/// Law: the integer square root is unique.
pub proof fn lemma_sqrt_floor_unique(a: int, b: int, n: int)
    requires
        is_sqrt_floor(a, n),
        is_sqrt_floor(b, n),
    ensures
        a == b,
{
    if a < b {
        assert((a + 1) * (a + 1) <= b * b) by (nonlinear_arith)
            requires
                0 <= a,
                a < b,
        ;
    }
    if b < a {
        assert((b + 1) * (b + 1) <= a * a) by (nonlinear_arith)
            requires
                0 <= b,
                b < a,
        ;
    }
}

/// Integer square root by bisection.
pub fn isqrt_u128(n: u128) -> (r: u128)
    requires
        n < 0x40000000000000000000000000000000,
    ensures
        is_sqrt_floor(r as int, n as int),
        r == sqrt_floor(n as int),
{
    let mut lo: u128 = 0;
    let mut hi: u128 = 0x8000000000000000;
    assert((hi as int) * (hi as int) == 0x40000000000000000000000000000000);
    while lo + 1 < hi
        invariant
            lo < hi,
            hi <= 0x8000000000000000,
            (lo as int) * (lo as int) <= n as int,
            (n as int) < (hi as int) * (hi as int),
        decreases hi - lo,
    {
        let mid = lo + (hi - lo) / 2;
        assert((mid as int) * (mid as int) < 0x40000000000000000000000000000000)
            by (nonlinear_arith)
            requires
                mid < 0x8000000000000000,
        ;
        if mid * mid <= n {
            lo = mid;
        } else {
            hi = mid;
        }
    }
    proof {
        assert(is_sqrt_floor(lo as int, n as int));
        lemma_sqrt_floor_exists(n as int);
        lemma_sqrt_floor_unique(lo as int, sqrt_floor(n as int), n as int);
    }
    lo
}

/// The discriminant of the radius equation, in squared fixed-point steps:
/// `a1*a1 - 4*a2*(a0 - peak*MICRO/threshold)`.
pub open spec fn radius_disc(att: Vec3, peak: int, threshold: int) -> int {
    att.y * att.y - 4 * att.z * (att.x - (peak * MICRO) / threshold)
}

/// The influence radius of a point light, in fixed-point steps: the
/// positive root of the radius equation, zero for degenerate attenuation
/// (zero quadratic coefficient or negative discriminant) or when the peak
/// never reaches the threshold, and clamped to the representable maximum.
pub open spec fn radius_spec(att: Vec3, peak: int, threshold: int) -> int {
    let d = radius_disc(att, peak, threshold);
    if att.z == 0 || d < 0 {
        0
    } else if sqrt_floor(d) <= att.y {
        0
    } else {
        let q = ((sqrt_floor(d) - att.y) * MICRO) / (2 * att.z);
        if q > i64::MAX {
            i64::MAX as int
        } else {
            q
        }
    }
}

/// Computes `radius_spec` over 128-bit intermediates.
pub fn point_light_radius(att: Vec3, peak: i64, threshold: i64) -> (r: i64)
    requires
        att.in_range(),
        att.nonneg(),
        0 <= peak <= LIGHT_UNIT_MAX,
        0 < threshold <= LIGHT_UNIT_MAX,
    ensures
        r == radius_spec(att, peak as int, threshold as int),
        0 <= r,
{
    let a0 = att.x as u128;
    let a1 = att.y as u128;
    let a2 = att.z as u128;
    let ipk: u128 = (peak as u128 * 1_000_000) / (threshold as u128);
    proof {
        assert(ipk <= peak as int * 1_000_000) by (nonlinear_arith)
            requires
                ipk == (peak as int * 1_000_000) / (threshold as int),
                threshold as int >= 1,
                peak as int >= 0,
        ;
    }
    proof {
        assert(a1 as int * a1 as int <= 1_000_000_000_000_000_000_000_000) by (nonlinear_arith)
            requires
                0 <= a1 as int <= 1_000_000_000_000,
        ;
    }
    let sq1: u128 = a1 * a1;
    let ghost disc: int = radius_disc(att, peak as int, threshold as int);
    let d: u128;
    if ipk >= a0 {
        let diff: u128 = ipk - a0;
        proof {
            assert(4 * a2 as int * diff as int <= 4_000_000_000_000_000_000_000_000_000_000)
                by (nonlinear_arith)
                requires
                    0 <= a2 as int <= 1_000_000_000_000,
                    0 <= diff as int <= 1_000_000_000_000_000_000,
            ;
            assert(4 * att.z * (att.x - ipk as int) == -(4 * a2 as int * diff as int))
                by (nonlinear_arith)
                requires
                    diff as int == ipk as int - att.x,
                    a2 as int == att.z,
            ;
        }
        d = sq1 + 4 * a2 * diff;
        assert(d == disc);
    } else {
        proof {
            assert(4 * (a2 as int) * (a0 as int - ipk as int)
                <= 4_000_000_000_000_000_000_000_000_000_000) by (nonlinear_arith)
                requires
                    0 <= a2 as int <= 1_000_000_000_000,
                    0 <= a0 as int - ipk as int <= 1_000_000_000_000,
            ;
        }
        let fall: u128 = 4 * a2 * (a0 - ipk);
        proof {
            assert(4 * att.z * (att.x - ipk as int) == fall as int) by (nonlinear_arith)
                requires
                    fall == 4 * (a2 as int) * (a0 as int - ipk as int),
                    a2 as int == att.z,
                    a0 as int == att.x,
            ;
        }
        if sq1 < fall {
            // negative discriminant: degenerate attenuation, radius zero
            assert(disc < 0);
            return 0;
        }
        d = sq1 - fall;
        assert(d == disc);
    }
    if att.z == 0 {
        return 0;
    }
    let s: u128 = isqrt_u128(d);
    proof {
        assert(s <= 3_000_000_000_000_000) by (nonlinear_arith)
            requires
                0 <= s as int,
                s as int * s as int <= d as int,
                d as int <= 4_100_000_000_000_000_000_000_000_000_000,
        ;
    }
    if s <= a1 {
        return 0;
    }
    let q: u128 = ((s - a1) * 1_000_000) / (2 * a2);
    proof {
        assert(q <= (s as int - a1 as int) * 1_000_000) by (nonlinear_arith)
            requires
                q == ((s as int - a1 as int) * 1_000_000) / (2 * a2 as int),
                2 * a2 as int >= 2,
                (s as int - a1 as int) * 1_000_000 >= 0,
        ;
    }
    if q > 0x7fffffffffffffff {
        i64::MAX
    } else {
        q as i64
    }
}

} // verus!
