//! Fixed-point planar vectors and the exact integer arithmetic the
//! fire-control pipeline is built on: truncating division and the floor
//! square root.
use vstd::prelude::*;

verus! {

/// Half-extent of the playfield: positions are clamped into
/// `[-MAX_COORD, MAX_COORD]` on both axes (about ten million kilometres in
/// hundredths of a metre, far beyond any play area).
pub const MAX_COORD: i64 = 0x100_0000_0000;

/// Bound on every velocity component carried by an entity.
pub const MAX_VELOCITY: i64 = 0x400_0000;

/// Bound on a ship's own velocity components (set at spawn, never changed).
pub const MAX_SHIP_SPEED: i64 = 0x10_0000;

/// Bound on a gun's muzzle speed.
pub const MAX_PROJECTILE_SPEED: i64 = 0x8_0000;

/// Engagement envelope of the intercept solver: relative positions and
/// relative velocities with any component beyond this are treated as
/// kinematically out of reach.
pub const ENGAGE_RANGE: i64 = 0x10_0000;

/// Bound on the components of an aim vector produced by the intercept
/// solver.
pub const MAX_AIM: i64 = 0x10_0000;

/// Largest frame delta accepted by the per-tick systems (one day).
pub const MAX_DELTA_MS: u64 = 86_400_000;

/// A planar vector in fixed-point hundredths of a metre (or hundredths of a
/// metre per second when used as a velocity).
#[derive(Clone, Copy, Debug, PartialEq, Eq, Structural)]
pub struct Vec2 {
    pub x: i64,
    pub y: i64,
}

impl Vec2 {
    /// Both components lie in `[-b, b]`.
    pub open spec fn in_box(self, b: int) -> bool {
        &&& -b <= self.x as int <= b
        &&& -b <= self.y as int <= b
    }

    pub fn new(x: i64, y: i64) -> (r: Vec2)
        ensures
            r == (Vec2 { x, y }),
    {
        Vec2 { x, y }
    }

    pub fn zero() -> (r: Vec2)
        ensures
            r == (Vec2 { x: 0, y: 0 }),
    {
        Vec2 { x: 0, y: 0 }
    }
}

impl Default for Vec2 {
    fn default() -> (r: Self)
        ensures
            r == (Vec2 { x: 0, y: 0 }),
    {
        Vec2 { x: 0, y: 0 }
    }
}

/// Magnitude of an integer.
pub open spec fn iabs(a: int) -> int {
    if a >= 0 {
        a
    } else {
        -a
    }
}

/// Dot product of two vectors.
pub open spec fn dot(p: Vec2, q: Vec2) -> int {
    p.x * q.x + p.y * q.y
}

/// Squared Euclidean length.
pub open spec fn norm2(p: Vec2) -> int {
    p.x * p.x + p.y * p.y
}

/// Squared Euclidean distance between two points.
pub open spec fn dist2(a: Vec2, b: Vec2) -> int {
    (a.x - b.x) * (a.x - b.x) + (a.y - b.y) * (a.y - b.y)
}

/// Squared distance between two points, exactly; positions may span the
/// doubled playfield (a world position plus a mount offset).
pub fn dist2_i128(a: Vec2, b: Vec2) -> (r: i128)
    requires
        a.in_box(2 * MAX_COORD as int),
        b.in_box(2 * MAX_COORD as int),
    ensures
        r as int == dist2(a, b),
        r >= 0,
{
    let dx: i128 = (a.x as i128) - (b.x as i128);
    let dy: i128 = (a.y as i128) - (b.y as i128);
    proof {
        lemma_sq_bound(dx as int, 4 * MAX_COORD as int);
        lemma_sq_bound(dy as int, 4 * MAX_COORD as int);
        assert((4 * MAX_COORD as int) * (4 * MAX_COORD as int) == 0x10_0000_0000_0000_0000_0000)
            by (nonlinear_arith);
    }
    dx * dx + dy * dy
}

/// Division rounding toward zero, as the hardware integer division does; the
/// divisor must be positive.
pub open spec fn div_trunc(a: int, b: int) -> int
    recommends
        b > 0,
{
    if a >= 0 {
        a / b
    } else {
        -((-a) / b)
    }
}

/// `r` is the floor of the square root of `n`.
pub open spec fn is_sqrt_floor(n: int, r: int) -> bool {
    &&& 0 <= r
    &&& r * r <= n
    &&& n < (r + 1) * (r + 1)
}

/// The floor of the square root of a non-negative integer.
pub open spec fn sqrt_floor(n: int) -> int {
    choose|r: int| is_sqrt_floor(n, r)
}

/// The floor square root is unique, so any witness equals `sqrt_floor`.
pub proof fn lemma_sqrt_floor_unique(n: int, r: int)
    requires
        is_sqrt_floor(n, r),
    ensures
        sqrt_floor(n) == r,
{
    let w = choose|w: int| is_sqrt_floor(n, w);
    assert(is_sqrt_floor(n, w));
    assert(w == r) by (nonlinear_arith)
        requires
            is_sqrt_floor(n, w),
            is_sqrt_floor(n, r),
    ;
}

/// Floor square root by binary search.
pub fn isqrt(n: u128) -> (r: u128)
    requires
        (n as int) < 0x4000_0000_0000_0000_0000_0000_0000_0000,
    ensures
        is_sqrt_floor(n as int, r as int),
        r as int == sqrt_floor(n as int),
{
    let mut lo: u128 = 0;
    let mut hi: u128 = 0x8000_0000_0000_0000;
    proof {
        assert((hi as int) * (hi as int) == 0x4000_0000_0000_0000_0000_0000_0000_0000)
            by (nonlinear_arith)
            requires
                hi as int == 0x8000_0000_0000_0000,
        ;
    }
    while hi - lo > 1
        invariant
            lo < hi,
            hi <= 0x8000_0000_0000_0000,
            (lo as int) * (lo as int) <= n as int,
            (n as int) < (hi as int) * (hi as int),
        decreases hi - lo,
    {
        let mid: u128 = lo + (hi - lo) / 2;
        proof {
            assert((mid as int) * (mid as int) <= 0x4000_0000_0000_0000_0000_0000_0000_0000)
                by (nonlinear_arith)
                requires
                    0 <= mid as int <= 0x8000_0000_0000_0000,
            ;
        }
        if mid * mid <= n {
            lo = mid;
        } else {
            hi = mid;
        }
    }
    proof {
        assert(hi as int == lo as int + 1);
        lemma_sqrt_floor_unique(n as int, lo as int);
    }
    lo
}

/// Truncating division of a wide intermediate by a positive divisor.
pub fn div_trunc_i128(a: i128, b: i128) -> (r: i128)
    requires
        0 < b,
        -0x4000_0000_0000_0000_0000_0000_0000_0000 < a
            < 0x4000_0000_0000_0000_0000_0000_0000_0000,
    ensures
        r as int == div_trunc(a as int, b as int),
{
    if a >= 0 {
        let q: u128 = (a as u128) / (b as u128);
        q as i128
    } else {
        let q: u128 = ((-a) as u128) / (b as u128);
        -(q as i128)
    }
}

/// Products of values within given magnitudes stay within the product of the
/// magnitudes.
pub proof fn lemma_mul_bound(a: int, b: int, ma: int, mb: int)
    by (nonlinear_arith)
    requires
        iabs(a) <= ma,
        iabs(b) <= mb,
    ensures
        iabs(a * b) <= ma * mb,
{
}

/// A square is non-negative and bounded by the square of the magnitude
/// bound.
pub proof fn lemma_sq_bound(a: int, m: int)
    by (nonlinear_arith)
    requires
        iabs(a) <= m,
    ensures
        0 <= a * a <= m * m,
{
}

/// Truncating division shrinks magnitudes: `|a / b| <= |a|`.
pub proof fn lemma_div_trunc_bound(a: int, b: int, m: int)
    by (nonlinear_arith)
    requires
        b > 0,
        iabs(a) <= m * b,
    ensures
        iabs(div_trunc(a, b)) <= m,
{
}

/// Truncating division is odd: dividing the negation negates the quotient.
pub proof fn lemma_div_trunc_neg(a: int, b: int)
    requires
        b > 0,
    ensures
        div_trunc(-a, b) == -div_trunc(a, b),
{
}

} // verus!
