//! The camera follow law.  The target position is the midpoint of both
//! players, offset along the horizontal axis perpendicular to the
//! inter-player axis by `500 + 15 * sqrt(separation)` world units, plus a
//! fixed height of 200; the camera position approaches the target by linear
//! interpolation at a rate of 5 per second and always looks at the
//! midpoint.  Coincident players fall back to a fixed world axis, so the
//! offset direction is never undefined.

use vstd::prelude::*;
use crate::math::{
    Vec3i, Heading, spec_normalize_xz, normalize_xz, spec_dist_sq, dist_sq, sqrt_floor, isqrt,
    scale_toward_zero, scale_i64, spec_lerp3, lerp3, lemma_sqrt_floor_bounds, lemma_scale_by_speed,
    lemma_square_bound, div_i64,
};
use crate::player::FRAME_MAX_MS;

verus! {

/// Bound on camera coordinates, in milli-units.
pub const CAM_COORD_BOUND: i64 = 200_000_000;

/// Bound the players' positions must satisfy here; the arena and altitude
/// bounds of a well-formed player lie far inside it.
pub const CAM_PLAYER_BOUND: i64 = 100_000_000;

/// Base distance of the camera from the midpoint, milli-units.
pub const CAM_BASE_DISTANCE: u64 = 500_000;

/// Grows the camera distance with the square root of player separation.
pub const CAM_ZOOM_FACTOR: u64 = 15;

/// Fixed height of the camera target above the midpoint, milli-units.
pub const CAM_HEIGHT: i64 = 200_000;

/// Approach rate of the camera toward its target, per second.
pub const CAM_LERP_RATE: u64 = 5;

#[derive(Clone, Copy, PartialEq, Eq, Structural, Debug)]
pub struct CameraState {
    pub pos: Vec3i,
    /// The point the camera looks at; its horizontal direction also defines
    /// the camera-relative movement axes of the input resolver.
    pub look: Vec3i,
}

impl CameraState {
    pub open spec fn wf(self) -> bool {
        &&& -CAM_COORD_BOUND <= self.pos.x <= CAM_COORD_BOUND
        &&& -CAM_COORD_BOUND <= self.pos.y <= CAM_COORD_BOUND
        &&& -CAM_COORD_BOUND <= self.pos.z <= CAM_COORD_BOUND
        &&& -CAM_COORD_BOUND <= self.look.x <= CAM_COORD_BOUND
        &&& -CAM_COORD_BOUND <= self.look.y <= CAM_COORD_BOUND
        &&& -CAM_COORD_BOUND <= self.look.z <= CAM_COORD_BOUND
    }
}

/// The midpoint of the two players, each coordinate halved toward zero.
pub open spec fn spec_midpoint(a: Vec3i, b: Vec3i) -> Vec3i {
    Vec3i {
        x: scale_toward_zero(a.x + b.x, 1, 2) as i64,
        y: scale_toward_zero(a.y + b.y, 1, 2) as i64,
        z: scale_toward_zero(a.z + b.z, 1, 2) as i64,
    }
}

pub fn midpoint(a: Vec3i, b: Vec3i) -> (m: Vec3i)
    requires
        -CAM_PLAYER_BOUND <= a.x <= CAM_PLAYER_BOUND,
        -CAM_PLAYER_BOUND <= a.y <= CAM_PLAYER_BOUND,
        -CAM_PLAYER_BOUND <= a.z <= CAM_PLAYER_BOUND,
        -CAM_PLAYER_BOUND <= b.x <= CAM_PLAYER_BOUND,
        -CAM_PLAYER_BOUND <= b.y <= CAM_PLAYER_BOUND,
        -CAM_PLAYER_BOUND <= b.z <= CAM_PLAYER_BOUND,
    ensures
        m == spec_midpoint(a, b),
        -CAM_PLAYER_BOUND <= m.x <= CAM_PLAYER_BOUND,
        -CAM_PLAYER_BOUND <= m.y <= CAM_PLAYER_BOUND,
        -CAM_PLAYER_BOUND <= m.z <= CAM_PLAYER_BOUND,
{
    Vec3i { x: div_i64(a.x + b.x, 2), y: div_i64(a.y + b.y, 2), z: div_i64(a.z + b.z, 2) }
}

/// The horizontal fight axis: the normalized direction from the first
/// player to the second, or the world x axis when they (all but) coincide.
pub open spec fn spec_fight_axis(p1: Vec3i, p2: Vec3i) -> Heading {
    let dx = p2.x - p1.x;
    let dz = p2.z - p1.z;
    if dx * dx + dz * dz < 1000 {
        Heading { x: 1000, z: 0 }
    } else {
        spec_normalize_xz(dx, dz)
    }
}

/// The camera-distance from the midpoint: base plus zoom factor times the
/// square root of the players' full 3D separation (in milli-units, so the
/// factor carries the unit conversion inside the square root).
pub open spec fn spec_zoom_distance(p1: Vec3i, p2: Vec3i) -> int {
    CAM_BASE_DISTANCE + CAM_ZOOM_FACTOR * sqrt_floor(
        (sqrt_floor(spec_dist_sq(p1, p2) as nat) * 1000) as nat,
    )
}

/// The camera's target: the midpoint, pushed out along the horizontal
/// perpendicular of the fight axis by the zoom distance, raised by the
/// fixed height.
pub open spec fn spec_camera_target(p1: Vec3i, p2: Vec3i) -> Vec3i {
    let mid = spec_midpoint(p1, p2);
    let axis = spec_fight_axis(p1, p2);
    let zoom = spec_zoom_distance(p1, p2);
    Vec3i {
        x: (mid.x + scale_toward_zero(-axis.z as int, zoom, 1000)) as i64,
        y: (mid.y + CAM_HEIGHT) as i64,
        z: (mid.z + scale_toward_zero(axis.x as int, zoom, 1000)) as i64,
    }
}

pub fn camera_target(p1: Vec3i, p2: Vec3i) -> (t: Vec3i)
    requires
        -CAM_PLAYER_BOUND <= p1.x <= CAM_PLAYER_BOUND,
        -CAM_PLAYER_BOUND <= p1.y <= CAM_PLAYER_BOUND,
        -CAM_PLAYER_BOUND <= p1.z <= CAM_PLAYER_BOUND,
        -CAM_PLAYER_BOUND <= p2.x <= CAM_PLAYER_BOUND,
        -CAM_PLAYER_BOUND <= p2.y <= CAM_PLAYER_BOUND,
        -CAM_PLAYER_BOUND <= p2.z <= CAM_PLAYER_BOUND,
    ensures
        t == spec_camera_target(p1, p2),
        -CAM_COORD_BOUND <= t.x <= CAM_COORD_BOUND,
        -CAM_COORD_BOUND <= t.y <= CAM_COORD_BOUND,
        -CAM_COORD_BOUND <= t.z <= CAM_COORD_BOUND,
{
    let mid = midpoint(p1, p2);
    let dx = p2.x - p1.x;
    let dz = p2.z - p1.z;
    proof {
        lemma_square_bound(dx as int, 200_000_000);
        lemma_square_bound(dz as int, 200_000_000);
    }
    let axis = if dx * dx + dz * dz < 1000 {
        Heading { x: 1000, z: 0 }
    } else {
        normalize_xz(dx, dz)
    };
    let d2 = dist_sq(p1, p2);
    proof {
        lemma_square_bound(p1.x - p2.x, 200_000_000);
        lemma_square_bound(p1.y - p2.y, 200_000_000);
        lemma_square_bound(p1.z - p2.z, 200_000_000);
        assert(200_000_000 * 200_000_000 == 40_000_000_000_000_000) by (nonlinear_arith);
    }
    let dist = isqrt(d2 as u64);
    proof {
        lemma_sqrt_floor_bounds(d2 as nat);
        assert(dist <= 400_000_000) by (nonlinear_arith)
            requires
                dist * dist <= d2 && d2 <= 120_000_000_000_000_000 && dist >= 0,
        ;
    }
    let root = isqrt(dist * 1000);
    proof {
        lemma_sqrt_floor_bounds((dist * 1000) as nat);
        assert(root <= 1_000_000) by (nonlinear_arith)
            requires
                root * root <= dist * 1000 && dist * 1000 <= 400_000_000_000 && root >= 0,
        ;
    }
    let zoom = CAM_BASE_DISTANCE + CAM_ZOOM_FACTOR * root;
    proof {
        lemma_scale_by_speed(-axis.z as int, zoom as int);
        lemma_scale_by_speed(axis.x as int, zoom as int);
        assert(-(1000 * 15_500_000) <= (-axis.z) * zoom <= 1000 * 15_500_000) by (nonlinear_arith)
            requires
                -1000 <= axis.z <= 1000 && 0 <= zoom <= 15_500_000,
        ;
        assert(-(1000 * 15_500_000) <= axis.x * zoom <= 1000 * 15_500_000) by (nonlinear_arith)
            requires
                -1000 <= axis.x <= 1000 && 0 <= zoom <= 15_500_000,
        ;
    }
    let ox = scale_i64(-axis.z, zoom, 1000);
    let oz = scale_i64(axis.x, zoom, 1000);
    Vec3i { x: mid.x + ox, y: mid.y + CAM_HEIGHT, z: mid.z + oz }
}

/// The camera after one follow step: its position interpolates toward the
/// target by `rate * dt` (a fraction at scale 1000), and it looks at the
/// players' midpoint.
pub open spec fn camera_step(cam: CameraState, p1: Vec3i, p2: Vec3i, dt: u64) -> CameraState {
    CameraState {
        pos: spec_lerp3(cam.pos, spec_camera_target(p1, p2), CAM_LERP_RATE * dt),
        look: spec_midpoint(p1, p2),
    }
}

pub fn camera_follow(cam: &mut CameraState, p1: Vec3i, p2: Vec3i, dt: u64)
    requires
        old(cam).wf(),
        dt <= FRAME_MAX_MS,
        -CAM_PLAYER_BOUND <= p1.x <= CAM_PLAYER_BOUND,
        -CAM_PLAYER_BOUND <= p1.y <= CAM_PLAYER_BOUND,
        -CAM_PLAYER_BOUND <= p1.z <= CAM_PLAYER_BOUND,
        -CAM_PLAYER_BOUND <= p2.x <= CAM_PLAYER_BOUND,
        -CAM_PLAYER_BOUND <= p2.y <= CAM_PLAYER_BOUND,
        -CAM_PLAYER_BOUND <= p2.z <= CAM_PLAYER_BOUND,
    ensures
        *final(cam) == camera_step(*old(cam), p1, p2, dt),
        final(cam).wf(),
{
    let target = camera_target(p1, p2);
    let s = CAM_LERP_RATE * dt;
    cam.pos = lerp3(cam.pos, target, s);
    cam.look = midpoint(p1, p2);
}

} // verus!
