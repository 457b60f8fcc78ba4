//! Integer world geometry: points and vectors in millimetres.
use vstd::prelude::*;

verus! {

/// Largest magnitude of a world coordinate, in millimetres (about 536 km).
/// Keeps squared distances and products of differences within machine integers.
pub const MAX_COORD: i64 = 536_870_912;

/// A point or a vector, in millimetres.
#[derive(Clone, Copy, Debug, PartialEq, Eq, Structural)]
pub struct Vec3 {
    pub x: i64,
    pub y: i64,
    pub z: i64,
}

/// Every component has magnitude at most `bound`.
pub open spec fn within(v: Vec3, bound: int) -> bool {
    &&& -bound <= v.x <= bound
    &&& -bound <= v.y <= bound
    &&& -bound <= v.z <= bound
}

/// A point of the world.
pub open spec fn in_world(v: Vec3) -> bool {
    within(v, MAX_COORD as int)
}

/// A difference of two world points.
pub open spec fn is_offset(v: Vec3) -> bool {
    within(v, 2 * MAX_COORD as int)
}

pub open spec fn dot(a: Vec3, b: Vec3) -> int {
    a.x * b.x + a.y * b.y + a.z * b.z
}

pub open spec fn norm_sq(a: Vec3) -> int {
    dot(a, a)
}

/// Vertical component of the cross product `a × b`.
pub open spec fn cross_y(a: Vec3, b: Vec3) -> int {
    a.z * b.x - a.x * b.z
}

pub open spec fn diff(a: Vec3, b: Vec3) -> Vec3 {
    Vec3 { x: (a.x - b.x) as i64, y: (a.y - b.y) as i64, z: (a.z - b.z) as i64 }
}

impl Vec3 {
    pub fn new(x: i64, y: i64, z: i64) -> (r: Vec3)
        ensures
            r == (Vec3 { x, y, z }),
    {
        Vec3 { x, y, z }
    }

    /// `self - other` for two world points.
    pub fn minus(&self, other: &Vec3) -> (r: Vec3)
        requires
            in_world(*self),
            in_world(*other),
        ensures
            r == diff(*self, *other),
            is_offset(r),
            r.x == self.x - other.x,
            r.y == self.y - other.y,
            r.z == self.z - other.z,
    {
        Vec3 { x: self.x - other.x, y: self.y - other.y, z: self.z - other.z }
    }

    /// The same point raised by `dy` millimetres.
    pub fn raised(&self, dy: i64) -> (r: Vec3)
        requires
            in_world(*self),
            0 <= dy <= MAX_COORD,
        ensures
            r == (Vec3 { y: (self.y + dy) as i64, ..*self }),
    {
        Vec3 { x: self.x, y: self.y + dy, z: self.z }
    }
}

/// Dot product of two offsets.
pub fn dot_product(a: &Vec3, b: &Vec3) -> (r: i128)
    requires
        is_offset(*a),
        is_offset(*b),
    ensures
        r as int == dot(*a, *b),
        -3 * (2 * MAX_COORD as int) * (2 * MAX_COORD as int) <= r <= 3 * (2 * MAX_COORD as int) * (
        2 * MAX_COORD as int),
{
    let m: i128 = 2 * MAX_COORD as i128;
    let (ax, ay, az) = (a.x as i128, a.y as i128, a.z as i128);
    let (bx, by, bz) = (b.x as i128, b.y as i128, b.z as i128);
    proof {
        lemma_product_bound(ax as int, bx as int, m as int);
        lemma_product_bound(ay as int, by as int, m as int);
        lemma_product_bound(az as int, bz as int, m as int);
    }
    ax * bx + ay * by + az * bz
}

/// Squared distance between two world points.
pub fn squared_distance(a: &Vec3, b: &Vec3) -> (r: u64)
    requires
        in_world(*a),
        in_world(*b),
    ensures
        r as int == norm_sq(diff(*a, *b)),
{
    let d = a.minus(b);
    let s = dot_product(&d, &d);
    proof {
        lemma_norm_sq_nonneg(d);
    }
    s as u64
}

/// A squared norm is never negative.
pub proof fn lemma_norm_sq_nonneg(v: Vec3)
    ensures
        norm_sq(v) >= 0,
{
    assert(v.x * v.x >= 0) by (nonlinear_arith);
    assert(v.y * v.y >= 0) by (nonlinear_arith);
    assert(v.z * v.z >= 0) by (nonlinear_arith);
}

/// `|x * y| <= m * m` when `|x|, |y| <= m`.
pub proof fn lemma_product_bound(x: int, y: int, m: int)
    requires
        -m <= x <= m,
        -m <= y <= m,
    ensures
        -(m * m) <= x * y <= m * m,
{
    assert(-(m * m) <= x * y <= m * m) by (nonlinear_arith)
        requires
            -m <= x <= m,
            -m <= y <= m,
    ;
}

} // verus!
