//! Fixed-point scalar and vector arithmetic for the simulation core.
//!
//! Positions are held in milli-units (1/1000 of a world unit) and unit
//! directions at scale 1000, so every quantity is an integer and every
//! operation is deterministic.

use vstd::prelude::*;

verus! {

/// Largest coordinate magnitude the geometric helpers accept; squares of
/// differences of such coordinates still fit in `i64`.
pub const COORD_BOUND: i64 = 500_000_000;

/// The scale at which unit directions are stored: a unit vector has
/// integer coordinates of magnitude at most 1000.
pub const DIR_SCALE: u64 = 1000;

/// Mathematical integer square root, rounded down.
pub open spec fn sqrt_floor(n: nat) -> nat
    decreases n,
{
    if n == 0 {
        0
    } else {
        let r = sqrt_floor((n - 1) as nat);
        if (r + 1) * (r + 1) <= n {
            r + 1
        } else {
            r
        }
    }
}

pub proof fn lemma_sqrt_floor_bounds(n: nat)
    ensures
        sqrt_floor(n) * sqrt_floor(n) <= n,
        n < (sqrt_floor(n) + 1) * (sqrt_floor(n) + 1),
    decreases n,
{
    if n == 0 {
        assert(sqrt_floor(n) == 0);
        assert(n < (sqrt_floor(n) + 1) * (sqrt_floor(n) + 1)) by (nonlinear_arith)
            requires
                n == 0 && sqrt_floor(n) == 0,
        ;
    } else {
        lemma_sqrt_floor_bounds((n - 1) as nat);
        let r = sqrt_floor((n - 1) as nat);
        assert(sqrt_floor(n) == (if (r + 1) * (r + 1) <= n {
            r + 1
        } else {
            r
        }));
        if (r + 1) * (r + 1) <= n {
            assert((r + 2) * (r + 2) > n) by (nonlinear_arith)
                requires
                    (n - 1) < (r + 1) * (r + 1),
            ;
            assert(sqrt_floor(n) * sqrt_floor(n) <= n);
            assert(n < (sqrt_floor(n) + 1) * (sqrt_floor(n) + 1));
        } else {
            assert(sqrt_floor(n) * sqrt_floor(n) <= n);
            assert(n < (sqrt_floor(n) + 1) * (sqrt_floor(n) + 1));
        }
    }
}

pub proof fn lemma_sqrt_floor_unique(n: nat, r: nat)
    requires
        r * r <= n,
        n < (r + 1) * (r + 1),
    ensures
        r == sqrt_floor(n),
{
    lemma_sqrt_floor_bounds(n);
    let s = sqrt_floor(n);
    if r < s {
        assert((r + 1) * (r + 1) <= s * s) by (nonlinear_arith)
            requires
                r + 1 <= s,
        ;
    }
    if s < r {
        assert((s + 1) * (s + 1) <= r * r) by (nonlinear_arith)
            requires
                s + 1 <= r,
        ;
    }
}

/// Integer square root of a value no larger than `i64::MAX`.
pub fn isqrt(n: u64) -> (r: u64)
    requires
        n <= 0x7fff_ffff_ffff_ffff,
    ensures
        r == sqrt_floor(n as nat),
{
    let mut lo: u64 = 0;
    let mut hi: u64 = 3_037_000_499;
    assert((hi + 1) * (hi + 1) > n) by (nonlinear_arith)
        requires
            n <= 0x7fff_ffff_ffff_ffff as int && hi == 3_037_000_499,
    ;
    while lo < hi
        invariant
            lo <= hi,
            hi <= 3_037_000_499,
            lo * lo <= n,
            n < (hi + 1) * (hi + 1),
        decreases hi - lo,
    {
        let mid = lo + (hi - lo + 1) / 2;
        assert(mid * mid <= 3_037_000_499 * 3_037_000_499) by (nonlinear_arith)
            requires
                0 <= mid <= 3_037_000_499,
        ;
        if mid * mid <= n {
            lo = mid;
        } else {
            hi = mid - 1;
        }
    }
    proof {
        lemma_sqrt_floor_unique(n as nat, lo as nat);
    }
    lo
}

/// `v * num / den` with the division rounded toward zero, the rounding the
/// executable code uses for every fixed-point rescaling.
pub open spec fn scale_toward_zero(v: int, num: int, den: int) -> int
    recommends
        den > 0,
        num >= 0,
{
    if v >= 0 {
        (v * num) / den
    } else {
        -(((-v) * num) / den)
    }
}

pub proof fn lemma_scale_magnitude(v: int, num: int, den: int)
    requires
        den > 0,
        0 <= num <= den,
    ensures
        v >= 0 ==> 0 <= scale_toward_zero(v, num, den) <= v,
        v < 0 ==> v <= scale_toward_zero(v, num, den) <= 0,
{
    if v >= 0 {
        assert(v * num <= v * den) by (nonlinear_arith)
            requires
                v >= 0 && num <= den,
        ;
        assert((v * den) / den == v) by (nonlinear_arith)
            requires
                den > 0,
        ;
        assert((v * num) / den <= (v * den) / den) by (nonlinear_arith)
            requires
                den > 0 && v * num <= v * den,
        ;
        assert((v * num) / den >= 0) by (nonlinear_arith)
            requires
                den > 0 && v >= 0 && num >= 0,
        ;
    } else {
        let w = -v;
        assert(w * num <= w * den) by (nonlinear_arith)
            requires
                w >= 0 && num <= den,
        ;
        assert((w * den) / den == w) by (nonlinear_arith)
            requires
                den > 0,
        ;
        assert((w * num) / den <= (w * den) / den) by (nonlinear_arith)
            requires
                den > 0 && w * num <= w * den,
        ;
        assert((w * num) / den >= 0) by (nonlinear_arith)
            requires
                den > 0 && w >= 0 && num >= 0,
        ;
    }
}

/// Rescale a signed value by `num / den`, rounding toward zero.
pub fn scale_i64(v: i64, num: u64, den: u64) -> (r: i64)
    requires
        den > 0,
        v > i64::MIN,
        -0x7fff_ffff_ffff_ffff <= v * num <= 0x7fff_ffff_ffff_ffff,
    ensures
        r == scale_toward_zero(v as int, num as int, den as int),
{
    if num == 0 {
        proof {
            assert(v * 0 == 0) by (nonlinear_arith);
            assert(scale_toward_zero(v as int, 0, den as int) == 0) by {
                assert(v as int * 0 == 0) by (nonlinear_arith);
                assert(-(v as int) * 0 == 0) by (nonlinear_arith);
            }
        }
        return 0;
    }
    if v >= 0 {
        proof {
            assert(v * num >= v) by (nonlinear_arith)
                requires
                    v >= 0 && num >= 1,
            ;
            assert((v as int * num as int) / (den as int) <= v as int * num as int)
                by (nonlinear_arith)
                requires
                    den as int > 0 && v as int * num as int >= 0,
            ;
        }
        (((v as u64) * num) / den) as i64
    } else {
        let w = (-v) as u64;
        proof {
            assert(w * num == -(v * num)) by (nonlinear_arith)
                requires
                    w == -(v as int),
            ;
            assert((w as int * num as int) / (den as int) <= w as int * num as int)
                by (nonlinear_arith)
                requires
                    den as int > 0 && w as int * num as int >= 0,
            ;
        }
        -(((w * num) / den) as i64)
    }
}

/// Scaling a unit-direction coordinate (within the direction scale) by a
/// speed yields a velocity coordinate within that speed.
pub proof fn lemma_scale_by_speed(v: int, num: int)
    requires
        -1000 <= v <= 1000,
        0 <= num,
    ensures
        -num <= scale_toward_zero(v, num, 1000) <= num,
{
    if v >= 0 {
        assert(0 <= (v * num) / 1000 <= num) by (nonlinear_arith)
            requires
                0 <= v <= 1000 && 0 <= num,
        ;
    } else {
        assert(0 <= ((-v) * num) / 1000 <= num) by (nonlinear_arith)
            requires
                0 < -v <= 1000 && 0 <= num,
        ;
    }
}

/// A world-space point or velocity, coordinates in milli-units.
#[derive(Clone, Copy, PartialEq, Eq, Structural, Debug)]
pub struct Vec3i {
    pub x: i64,
    pub y: i64,
    pub z: i64,
}

/// A horizontal direction at scale 1000: a unit vector has
/// `x * x + z * z` close to 1_000_000 and coordinates within 1000.
#[derive(Clone, Copy, PartialEq, Eq, Structural, Debug)]
pub struct Heading {
    pub x: i64,
    pub z: i64,
}

pub proof fn lemma_square_bound(d: int, b: int)
    requires
        0 <= b,
        -b <= d <= b,
    ensures
        0 <= d * d <= b * b,
{
    assert(0 <= d * d <= b * b) by (nonlinear_arith)
        requires
            0 <= b && -b <= d <= b,
    ;
}

/// Squared Euclidean distance between two points.
pub open spec fn spec_dist_sq(a: Vec3i, b: Vec3i) -> int {
    (a.x - b.x) * (a.x - b.x) + (a.y - b.y) * (a.y - b.y) + (a.z - b.z) * (a.z - b.z)
}

pub fn dist_sq(a: Vec3i, b: Vec3i) -> (r: i64)
    requires
        -COORD_BOUND <= a.x <= COORD_BOUND,
        -COORD_BOUND <= a.y <= COORD_BOUND,
        -COORD_BOUND <= a.z <= COORD_BOUND,
        -COORD_BOUND <= b.x <= COORD_BOUND,
        -COORD_BOUND <= b.y <= COORD_BOUND,
        -COORD_BOUND <= b.z <= COORD_BOUND,
    ensures
        r == spec_dist_sq(a, b),
{
    let dx = a.x - b.x;
    let dy = a.y - b.y;
    let dz = a.z - b.z;
    proof {
        lemma_square_bound(dx as int, 1_000_000_000);
        lemma_square_bound(dy as int, 1_000_000_000);
        lemma_square_bound(dz as int, 1_000_000_000);
        assert(1_000_000_000 * 1_000_000_000 == 1_000_000_000_000_000_000) by (nonlinear_arith);
    }
    dx * dx + dy * dy + dz * dz
}

/// Length of the horizontal vector `(x, z)`, in the same scale as its inputs.
pub open spec fn xz_len(x: int, z: int) -> nat {
    sqrt_floor((x * x + z * z) as nat)
}

/// The horizontal unit direction of `(x, z)` at scale 1000; the zero vector
/// normalizes to zero, so degenerate input never divides by zero.
pub open spec fn spec_normalize_xz(x: int, z: int) -> Heading {
    if x == 0 && z == 0 {
        Heading { x: 0, z: 0 }
    } else {
        Heading {
            x: scale_toward_zero(x, 1000, xz_len(x, z) as int) as i64,
            z: scale_toward_zero(z, 1000, xz_len(x, z) as int) as i64,
        }
    }
}

pub proof fn lemma_scale_unit(v: int, len: int)
    requires
        len >= 1,
        -len <= v <= len,
    ensures
        -1000 <= scale_toward_zero(v, 1000, len) <= 1000,
{
    if v >= 0 {
        assert(0 <= (v * 1000) / len <= 1000) by (nonlinear_arith)
            requires
                len >= 1 && 0 <= v <= len,
        ;
    } else {
        assert(0 <= ((-v) * 1000) / len <= 1000) by (nonlinear_arith)
            requires
                len >= 1 && 0 <= -v <= len,
        ;
    }
}

/// The normalized direction has coordinates within the direction scale, and
/// each input coordinate is bounded by the vector's length.
pub proof fn lemma_normalize_bounds(x: int, z: int)
    ensures
        -(xz_len(x, z) as int) <= x <= xz_len(x, z) as int,
        -(xz_len(x, z) as int) <= z <= xz_len(x, z) as int,
        -1000 <= spec_normalize_xz(x, z).x <= 1000,
        -1000 <= spec_normalize_xz(x, z).z <= 1000,
{
    let n = (x * x + z * z) as nat;
    assert(x * x >= 0 && z * z >= 0) by (nonlinear_arith);
    lemma_sqrt_floor_bounds(n);
    let len = xz_len(x, z) as int;
    assert(-len <= x <= len && -len <= z <= len) by (nonlinear_arith)
        requires
            x * x + z * z == n && 0 <= len && len * len <= n && n < (len + 1) * (len + 1),
    ;
    if x != 0 || z != 0 {
        assert(len >= 1) by (nonlinear_arith)
            requires
                x * x + z * z == n && (x != 0 || z != 0) && 0 <= len && n < (len + 1) * (len + 1),
        ;
        lemma_scale_unit(x, len);
        lemma_scale_unit(z, len);
    }
}

/// Normalize a horizontal vector to a direction at scale 1000.
pub fn normalize_xz(x: i64, z: i64) -> (r: Heading)
    requires
        -2_000_000_000 <= x <= 2_000_000_000,
        -2_000_000_000 <= z <= 2_000_000_000,
    ensures
        r == spec_normalize_xz(x as int, z as int),
        -1000 <= r.x <= 1000,
        -1000 <= r.z <= 1000,
{
    proof {
        lemma_normalize_bounds(x as int, z as int);
    }
    if x == 0 && z == 0 {
        Heading { x: 0, z: 0 }
    } else {
        proof {
            lemma_square_bound(x as int, 2_000_000_000);
            lemma_square_bound(z as int, 2_000_000_000);
        }
        let sq = (x * x + z * z) as u64;
        let len = isqrt(sq);
        proof {
            assert(x * 1000 <= 2_000_000_000 * 1000 && x * 1000 >= -2_000_000_000 * 1000)
                by (nonlinear_arith)
                requires
                    -2_000_000_000 <= x <= 2_000_000_000,
            ;
            assert(z * 1000 <= 2_000_000_000 * 1000 && z * 1000 >= -2_000_000_000 * 1000)
                by (nonlinear_arith)
                requires
                    -2_000_000_000 <= z <= 2_000_000_000,
            ;
        }
        let nx = scale_i64(x, 1000, len);
        let nz = scale_i64(z, 1000, len);
        Heading { x: nx, z: nz }
    }
}

/// Rotate a local offset by a horizontal facing direction: the offset's
/// local `x` axis is carried onto the facing, `y` is unchanged.
pub open spec fn spec_rotate_offset(facing: Heading, off: Vec3i) -> Vec3i {
    Vec3i {
        x: scale_toward_zero(off.x * facing.x - off.z * facing.z, 1, 1000) as i64,
        y: off.y,
        z: scale_toward_zero(off.x * facing.z + off.z * facing.x, 1, 1000) as i64,
    }
}

/// Divide by a positive constant, rounding toward zero.
pub fn div_i64(v: i64, den: u64) -> (r: i64)
    requires
        den > 0,
        v > i64::MIN,
    ensures
        r == scale_toward_zero(v as int, 1, den as int),
{
    proof {
        if v >= 0 {
            assert(v as int * 1 == v as int) by (nonlinear_arith);
            assert((v as int) / (den as int) <= v as int) by (nonlinear_arith)
                requires
                    den as int > 0 && v as int >= 0,
            ;
        } else {
            assert((-(v as int)) * 1 == -(v as int)) by (nonlinear_arith);
            assert((-(v as int)) / (den as int) <= -(v as int)) by (nonlinear_arith)
                requires
                    den as int > 0 && -(v as int) >= 0,
            ;
        }
    }
    if v >= 0 {
        ((v as u64) / den) as i64
    } else {
        -((((-v) as u64) / den) as i64)
    }
}

pub fn rotate_offset(facing: Heading, off: Vec3i) -> (r: Vec3i)
    requires
        -1000 <= facing.x <= 1000,
        -1000 <= facing.z <= 1000,
        -1_000_000 <= off.x <= 1_000_000,
        -1_000_000 <= off.y <= 1_000_000,
        -1_000_000 <= off.z <= 1_000_000,
    ensures
        r == spec_rotate_offset(facing, off),
        -2_000_000 <= r.x <= 2_000_000,
        r.y == off.y,
        -2_000_000 <= r.z <= 2_000_000,
{
    proof {
        assert(-1_000_000_000 <= off.x * facing.x <= 1_000_000_000) by (nonlinear_arith)
            requires
                -1000 <= facing.x <= 1000 && -1_000_000 <= off.x <= 1_000_000,
        ;
        assert(-1_000_000_000 <= off.z * facing.z <= 1_000_000_000) by (nonlinear_arith)
            requires
                -1000 <= facing.z <= 1000 && -1_000_000 <= off.z <= 1_000_000,
        ;
        assert(-1_000_000_000 <= off.x * facing.z <= 1_000_000_000) by (nonlinear_arith)
            requires
                -1000 <= facing.z <= 1000 && -1_000_000 <= off.x <= 1_000_000,
        ;
        assert(-1_000_000_000 <= off.z * facing.x <= 1_000_000_000) by (nonlinear_arith)
            requires
                -1000 <= facing.x <= 1000 && -1_000_000 <= off.z <= 1_000_000,
        ;
    }
    let wx = div_i64(off.x * facing.x - off.z * facing.z, 1000);
    let wz = div_i64(off.x * facing.z + off.z * facing.x, 1000);
    Vec3i { x: wx, y: off.y, z: wz }
}

/// Clamp a value into a closed interval.
pub open spec fn spec_clamp(v: int, lo: int, hi: int) -> int {
    if v < lo {
        lo
    } else if v > hi {
        hi
    } else {
        v
    }
}

pub fn clamp_i64(v: i64, lo: i64, hi: i64) -> (r: i64)
    requires
        lo <= hi,
    ensures
        r == spec_clamp(v as int, lo as int, hi as int),
{
    if v < lo {
        lo
    } else if v > hi {
        hi
    } else {
        v
    }
}

/// Linear interpolation of one coordinate: `a + (b - a) * t / 1000`,
/// where `t` is a fraction at scale 1000.
pub open spec fn spec_lerp(a: int, b: int, t: int) -> int {
    a + scale_toward_zero(b - a, t, 1000)
}

pub fn lerp_coord(a: i64, b: i64, t: u64) -> (r: i64)
    requires
        t <= 1000,
        -COORD_BOUND <= a <= COORD_BOUND,
        -COORD_BOUND <= b <= COORD_BOUND,
    ensures
        r == spec_lerp(a as int, b as int, t as int),
        a <= b ==> a <= r <= b,
        b < a ==> b <= r <= a,
{
    let d = b - a;
    proof {
        assert(-1_000_000_000_000 <= d * t <= 1_000_000_000_000) by (nonlinear_arith)
            requires
                0 <= t <= 1000 && -1_000_000_000 <= d <= 1_000_000_000,
        ;
        lemma_scale_magnitude(d as int, t as int, 1000);
    }
    let step = scale_i64(d, t, 1000);
    a + step
}

/// Interpolate every coordinate of two points.
pub open spec fn spec_lerp3(a: Vec3i, b: Vec3i, t: int) -> Vec3i {
    Vec3i {
        x: spec_lerp(a.x as int, b.x as int, t) as i64,
        y: spec_lerp(a.y as int, b.y as int, t) as i64,
        z: spec_lerp(a.z as int, b.z as int, t) as i64,
    }
}

pub fn lerp3(a: Vec3i, b: Vec3i, t: u64) -> (r: Vec3i)
    requires
        t <= 1000,
        -COORD_BOUND <= a.x <= COORD_BOUND,
        -COORD_BOUND <= a.y <= COORD_BOUND,
        -COORD_BOUND <= a.z <= COORD_BOUND,
        -COORD_BOUND <= b.x <= COORD_BOUND,
        -COORD_BOUND <= b.y <= COORD_BOUND,
        -COORD_BOUND <= b.z <= COORD_BOUND,
    ensures
        r == spec_lerp3(a, b, t as int),
        a.x <= b.x ==> a.x <= r.x <= b.x,
        b.x < a.x ==> b.x <= r.x <= a.x,
        a.y <= b.y ==> a.y <= r.y <= b.y,
        b.y < a.y ==> b.y <= r.y <= a.y,
        a.z <= b.z ==> a.z <= r.z <= b.z,
        b.z < a.z ==> b.z <= r.z <= a.z,
{
    Vec3i {
        x: lerp_coord(a.x, b.x, t),
        y: lerp_coord(a.y, b.y, t),
        z: lerp_coord(a.z, b.z, t),
    }
}

} // verus!
