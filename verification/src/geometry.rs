//! Integer plane geometry for the simulation: positions and directions in
//! milliunits, clamping, squared distances and approximate unit vectors.

use vstd::arithmetic::div_mod::{lemma_div_is_ordered, lemma_div_multiples_vanish};
use vstd::prelude::*;

verus! {

/// Milliunits per world unit: all coordinates are scaled by this factor.
pub const SCALE: i64 = 1000;

/// Largest coordinate magnitude the simulation ever produces: an in-arena
/// position plus the largest single movement step stays within this bound.
pub const POS_LIMIT: i64 = 2_000_000_000;

/// Largest accepted arena dimension, in milliunits (one million world units).
pub const MAX_ARENA: i64 = 1_000_000_000;

/// Smallest accepted arena dimension: the arena must be able to contain the
/// largest entity (64 world units across), so clamping ranges are nonempty.
pub const MIN_ARENA: i64 = 64_000;

/// Largest accepted frame time, in milliseconds.
pub const MAX_DELTA_MS: u64 = 1_000_000;

/// A point or direction in the plane, in milliunits.
#[derive(Clone, Copy, PartialEq, Eq, Structural, Debug)]
pub struct Vec2 {
    pub x: i64,
    pub y: i64,
}

/// The playable area: entities are kept within `[0, width] x [0, height]`,
/// shrunk by each entity's half size.
#[derive(Clone, Copy, PartialEq, Eq, Structural, Debug)]
pub struct Arena {
    pub width: i64,
    pub height: i64,
}

impl Arena {
    /// An arena the simulation accepts: both dimensions large enough to hold
    /// the largest entity and small enough that no arithmetic overflows.
    pub open spec fn wf(self) -> bool {
        &&& MIN_ARENA <= self.width <= MAX_ARENA
        &&& MIN_ARENA <= self.height <= MAX_ARENA
    }
}

/// Coordinates the distance computations accept.
pub open spec fn in_pos_range(v: Vec2) -> bool {
    &&& -POS_LIMIT <= v.x <= POS_LIMIT
    &&& -POS_LIMIT <= v.y <= POS_LIMIT
}

/// Positions the simulation keeps between ticks: inside `[0, MAX_ARENA]` on
/// both axes, whatever the current arena is.
pub open spec fn pos_in_play(v: Vec2) -> bool {
    &&& 0 <= v.x <= MAX_ARENA
    &&& 0 <= v.y <= MAX_ARENA
}

/// Direction components stay within one world unit in magnitude.
pub open spec fn dir_in_range(d: Vec2) -> bool {
    &&& -SCALE <= d.x <= SCALE
    &&& -SCALE <= d.y <= SCALE
}

/// A position inside the arena box for an entity of the given half size.
pub open spec fn in_arena(v: Vec2, arena: Arena, half: int) -> bool {
    &&& half <= v.x <= arena.width - half
    &&& half <= v.y <= arena.height - half
}

pub open spec fn clamp_spec(v: int, lo: int, hi: int) -> int {
    if v < lo {
        lo
    } else if v > hi {
        hi
    } else {
        v
    }
}

/// Clamps one coordinate into `[lo, hi]`.
pub fn clamp_coord(v: i64, lo: i64, hi: i64) -> (r: i64)
    requires
        lo <= hi,
    ensures
        r == clamp_spec(v as int, lo as int, hi as int),
        lo <= r <= hi,
{
    if v < lo {
        lo
    } else if v > hi {
        hi
    } else {
        v
    }
}

/// Squared Euclidean distance between two points, in squared milliunits.
pub open spec fn dist_sq(a: Vec2, b: Vec2) -> int {
    (a.x - b.x) * (a.x - b.x) + (a.y - b.y) * (a.y - b.y)
}

/// Distance is symmetric in its two points.
pub proof fn lemma_dist_sq_symmetric(a: Vec2, b: Vec2)
    ensures
        dist_sq(a, b) == dist_sq(b, a),
{
    assert((a.x - b.x) * (a.x - b.x) == (b.x - a.x) * (b.x - a.x)) by (nonlinear_arith);
    assert((a.y - b.y) * (a.y - b.y) == (b.y - a.y) * (b.y - a.y)) by (nonlinear_arith);
}

/// A point is at distance zero from itself, so it lies within every
/// nonnegative collision radius.
pub proof fn lemma_coincident_within_radius(p: Vec2, radius: i64)
    requires
        radius >= 0,
    ensures
        dist_sq(p, p) == 0,
        dist_sq(p, p) <= radius * radius,
{
    assert(0 <= radius * radius) by (nonlinear_arith)
        requires
            radius >= 0,
    ;
}

/// Whether `a` and `b` are within `threshold` milliunits of each other,
/// decided on squared distances so no square root is needed.
pub fn within_distance(a: Vec2, b: Vec2, threshold: i64) -> (r: bool)
    requires
        in_pos_range(a),
        in_pos_range(b),
        0 <= threshold <= MAX_ARENA,
    ensures
        r == (dist_sq(a, b) <= threshold * threshold),
{
    let dx: i128 = a.x as i128 - b.x as i128;
    let dy: i128 = a.y as i128 - b.y as i128;
    proof {
        assert(dx * dx <= 20_000_000_000_000_000_000 && dx * dx >= 0) by (nonlinear_arith)
            requires
                -4_000_000_000 <= dx <= 4_000_000_000,
        ;
        assert(dy * dy <= 20_000_000_000_000_000_000 && dy * dy >= 0) by (nonlinear_arith)
            requires
                -4_000_000_000 <= dy <= 4_000_000_000,
        ;
        assert((threshold as i128) * (threshold as i128) <= 20_000_000_000_000_000_000
            && (threshold as i128) * (threshold as i128) >= 0) by (nonlinear_arith)
            requires
                0 <= threshold <= 1_000_000_000,
        ;
    }
    let d2: i128 = dx * dx + dy * dy;
    let t2: i128 = (threshold as i128) * (threshold as i128);
    d2 <= t2
}

/// The integer square root, defined by counting up from zero.
pub open spec fn sqrt_floor(n: nat) -> nat
    decreases n,
{
    if n == 0 {
        0
    } else {
        let p = sqrt_floor((n - 1) as nat);
        if (p + 1) * (p + 1) <= n {
            p + 1
        } else {
            p
        }
    }
}

/// `sqrt_floor(n)` is the largest integer whose square does not exceed `n`.
pub proof fn lemma_sqrt_floor_bounds(n: nat)
    ensures
        sqrt_floor(n) * sqrt_floor(n) <= n,
        n < (sqrt_floor(n) + 1) * (sqrt_floor(n) + 1),
    decreases n,
{
    if n != 0 {
        lemma_sqrt_floor_bounds((n - 1) as nat);
        let p = sqrt_floor((n - 1) as nat);
        assert(p * p <= n - 1);
        assert(n - 1 < (p + 1) * (p + 1));
        if (p + 1) * (p + 1) <= n {
            assert(sqrt_floor(n) == p + 1);
            assert(n == (p + 1) * (p + 1));
            assert((p + 1) * (p + 1) < (p + 2) * (p + 2)) by (nonlinear_arith);
        } else {
            assert(sqrt_floor(n) == p);
        }
    } else {
        assert(sqrt_floor(n) == 0);
        assert(sqrt_floor(n) * sqrt_floor(n) <= n);
        assert(n < (sqrt_floor(n) + 1) * (sqrt_floor(n) + 1)) by (nonlinear_arith)
            requires
                n == 0,
                sqrt_floor(n) == 0,
        ;
    }
}

/// Any integer bracketing `n` between consecutive squares is its square root.
pub proof fn lemma_sqrt_floor_unique(n: nat, r: nat)
    requires
        r * r <= n,
        n < (r + 1) * (r + 1),
    ensures
        r == sqrt_floor(n),
{
    lemma_sqrt_floor_bounds(n);
    let s = sqrt_floor(n);
    if r < s {
        assert((r + 1) * (r + 1) <= s * s) by (nonlinear_arith)
            requires
                r + 1 <= s,
        ;
    } else if s < r {
        assert((s + 1) * (s + 1) <= r * r) by (nonlinear_arith)
            requires
                s + 1 <= r,
        ;
    }
}

/// Computes `sqrt_floor(n)` by growing the candidate root one step at a time,
/// keeping the square of the next candidate incrementally.
pub fn isqrt(n: u64) -> (r: u64)
    requires
        n <= 4_000_000,
    ensures
        r == sqrt_floor(n as nat),
        r <= 2000,
{
    let mut r: u64 = 0;
    let mut sq: u64 = 1;
    while sq <= n
        invariant
            n <= 4_000_000,
            r <= 2000,
            sq == (r + 1) * (r + 1),
            r * r <= n,
        decreases 2001 - r,
    {
        proof {
            assert(r + 1 <= 2000) by (nonlinear_arith)
                requires
                    (r + 1) * (r + 1) <= 4_000_000,
                    r >= 0,
            ;
        }
        r = r + 1;
        proof {
            assert((r + 1) * (r + 1) == r * r + 2 * r + 1) by (nonlinear_arith);
        }
        sq = sq + 2 * r + 1;
    }
    proof {
        lemma_sqrt_floor_unique(n as nat, r as nat);
    }
    r
}

/// One component of a vector rescaled to length `SCALE`, rounding the
/// magnitude toward zero.
pub open spec fn scaled_component(d: int, len: int) -> int {
    if d >= 0 {
        (d * SCALE) / len
    } else {
        -(((-d) * SCALE) / len)
    }
}

/// The length used to normalize the direction `(dx, dy)`.
pub open spec fn dir_len(dx: int, dy: int) -> nat {
    sqrt_floor((dx * dx + dy * dy) as nat)
}

pub open spec fn normalized_x(dx: int, dy: int) -> int {
    if dx == 0 && dy == 0 {
        0
    } else {
        scaled_component(dx, dir_len(dx, dy) as int)
    }
}

pub open spec fn normalized_y(dx: int, dy: int) -> int {
    if dx == 0 && dy == 0 {
        0
    } else {
        scaled_component(dy, dir_len(dx, dy) as int)
    }
}

/// Rescales `(dx, dy)` to an approximately unit direction of length `SCALE`
/// milliunits; the zero vector is kept as-is (a stationary direction).
pub fn normalize_dir(dx: i64, dy: i64) -> (r: Vec2)
    requires
        -SCALE <= dx <= SCALE,
        -SCALE <= dy <= SCALE,
    ensures
        r.x == normalized_x(dx as int, dy as int),
        r.y == normalized_y(dx as int, dy as int),
        -SCALE <= r.x <= SCALE,
        -SCALE <= r.y <= SCALE,
        (dx == 0 && dy == 0) ==> r == (Vec2 { x: 0, y: 0 }),
{
    proof {
        assert(0 <= dx * dx <= 1_000_000 && (dx != 0 ==> dx * dx >= 1)) by (nonlinear_arith)
            requires
                -1000 <= dx <= 1000,
        ;
        assert(0 <= dy * dy <= 1_000_000 && (dy != 0 ==> dy * dy >= 1)) by (nonlinear_arith)
            requires
                -1000 <= dy <= 1000,
        ;
    }
    let sq: i64 = dx * dx + dy * dy;
    if sq == 0 {
        return Vec2 { x: 0, y: 0 };
    }
    let len: u64 = isqrt(sq as u64);
    proof {
        lemma_sqrt_floor_bounds(sq as nat);
        assert((len as int) * (len as int) <= (sq as int));
        assert((sq as int) < ((len as int) + 1) * ((len as int) + 1));
        assert(len >= 1) by (nonlinear_arith)
            requires
                len >= 0,
                sq >= 1,
                (sq as int) < ((len as int) + 1) * ((len as int) + 1),
        ;
    }
    let ax: u64 = if dx < 0 {
        (-dx) as u64
    } else {
        dx as u64
    };
    let ay: u64 = if dy < 0 {
        (-dy) as u64
    } else {
        dy as u64
    };
    proof {
        assert(ax <= len && ay <= len) by (nonlinear_arith)
            requires
                len >= 0,
                (dx >= 0 && ax == dx) || (dx < 0 && ax == -dx),
                (dy >= 0 && ay == dy) || (dy < 0 && ay == -dy),
                sq == dx * dx + dy * dy,
                (sq as int) < ((len as int) + 1) * ((len as int) + 1),
        ;
        lemma_div_multiples_vanish(1000, len as int);
        lemma_div_is_ordered(ax * 1000, (len as int) * 1000, len as int);
        lemma_div_is_ordered(ay * 1000, (len as int) * 1000, len as int);
        assert((len as int) * 1000 == 1000 * (len as int)) by (nonlinear_arith);
    }
    let ux: u64 = ax * 1000 / len;
    let uy: u64 = ay * 1000 / len;
    let x: i64 = if dx < 0 {
        -(ux as i64)
    } else {
        ux as i64
    };
    let y: i64 = if dy < 0 {
        -(uy as i64)
    } else {
        uy as i64
    };
    Vec2 { x, y }
}

/// One axis of a movement step: direction times speed times elapsed time,
/// divided by `SCALE` because the direction is in milliunits; the magnitude
/// rounds toward zero.
pub open spec fn step_milli(dir: int, speed: int, dt: int) -> int {
    if dir >= 0 {
        (dir * speed * dt) / (SCALE as int)
    } else {
        -(((-dir) * speed * dt) / (SCALE as int))
    }
}

/// Computes one axis of a movement step in milliunits.
pub fn scaled_step(dir: i64, speed: i64, dt_ms: u64) -> (r: i64)
    requires
        -SCALE <= dir <= SCALE,
        0 <= speed <= 1000,
        dt_ms <= MAX_DELTA_MS,
    ensures
        r == step_milli(dir as int, speed as int, dt_ms as int),
        -1_000_000_000 <= r <= 1_000_000_000,
{
    let ad: u64 = if dir < 0 {
        (-dir) as u64
    } else {
        dir as u64
    };
    proof {
        assert(0 <= ad * (speed as int) <= 1_000_000 && 0 <= (ad * (speed as int)) * (
        dt_ms as int) <= 1_000_000_000_000) by (nonlinear_arith)
            requires
                0 <= ad <= 1000,
                0 <= speed <= 1000,
                0 <= dt_ms <= 1_000_000,
        ;
        lemma_div_is_ordered((ad * (speed as int)) * (dt_ms as int), 1_000_000_000_000, 1000);
    }
    let mag: u64 = ad * (speed as u64) * dt_ms / 1000;
    if dir < 0 {
        -(mag as i64)
    } else {
        mag as i64
    }
}

} // verus!
