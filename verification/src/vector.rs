//! Three-component integer vectors and their mathematical view.

use vstd::prelude::*;
use crate::arith::{
    floor_sqrt,
    is_floor_sqrt,
    isqrt,
    lemma_product_bound,
    lemma_quot_bounds,
    magnitude,
    quot,
    quot_i128,
};

verus! {

/// The mathematical vector that a [`Vec3`] stands for.
pub struct Vector {
    pub x: int,
    pub y: int,
    pub z: int,
}

impl Vector {
    pub open spec fn zero() -> Vector {
        Vector { x: 0, y: 0, z: 0 }
    }

    pub open spec fn plus(self, other: Vector) -> Vector {
        Vector { x: self.x + other.x, y: self.y + other.y, z: self.z + other.z }
    }

    pub open spec fn minus(self, other: Vector) -> Vector {
        Vector { x: self.x - other.x, y: self.y - other.y, z: self.z - other.z }
    }

    pub open spec fn dot(self, other: Vector) -> int {
        self.x * other.x + self.y * other.y + self.z * other.z
    }

    pub open spec fn cross(self, other: Vector) -> Vector {
        Vector {
            x: self.y * other.z - self.z * other.y,
            y: self.z * other.x - self.x * other.z,
            z: self.x * other.y - self.y * other.x,
        }
    }

    /// The squared Euclidean length.
    pub open spec fn norm2(self) -> int {
        self.dot(self)
    }

    /// Two vectors are parallel when their cross product vanishes; the zero
    /// vector is parallel to every vector.
    pub open spec fn parallel(self, other: Vector) -> bool {
        self.cross(other) == Vector::zero()
    }

    /// The vector with 64-bit components that has this one as its view,
    /// provided every component fits.
    pub open spec fn to_vec3(self) -> Vec3 {
        Vec3 { x: self.x as i64, y: self.y as i64, z: self.z as i64 }
    }

    /// Every component lies within `limit` of zero.
    pub open spec fn within(self, limit: int) -> bool {
        &&& -limit <= self.x <= limit
        &&& -limit <= self.y <= limit
        &&& -limit <= self.z <= limit
    }
}

/// Only the zero vector has length zero.
pub proof fn lemma_nonzero_norm(v: Vector)
    ensures
        v.norm2() >= 0,
        v != Vector::zero() ==> v.norm2() >= 1,
{
    assert(v.x * v.x >= 0 && (v.x != 0 ==> v.x * v.x >= 1)) by (nonlinear_arith);
    assert(v.y * v.y >= 0 && (v.y != 0 ==> v.y * v.y >= 1)) by (nonlinear_arith);
    assert(v.z * v.z >= 0 && (v.z != 0 ==> v.z * v.z >= 1)) by (nonlinear_arith);
}

/// A point or displacement in whole world units.
#[derive(Clone, Copy, Debug, PartialEq, Eq, Structural)]
pub struct Vec3 {
    pub x: i64,
    pub y: i64,
    pub z: i64,
}

impl View for Vec3 {
    type V = Vector;

    open spec fn view(&self) -> Vector {
        Vector { x: self.x as int, y: self.y as int, z: self.z as int }
    }
}

impl Vec3 {
    pub fn new(x: i64, y: i64, z: i64) -> (v: Vec3)
        ensures
            v == (Vec3 { x, y, z }),
    {
        Vec3 { x, y, z }
    }

    /// The same vector with room for products and sums.
    pub fn widen(self) -> (w: Wide3)
        ensures
            w@ == self@,
    {
        Wide3 { x: self.x as i128, y: self.y as i128, z: self.z as i128 }
    }

    /// The exact difference `self - other`.
    pub fn minus(self, other: Vec3) -> (w: Wide3)
        ensures
            w@ == self@.minus(other@),
    {
        Wide3 {
            x: self.x as i128 - other.x as i128,
            y: self.y as i128 - other.y as i128,
            z: self.z as i128 - other.z as i128,
        }
    }
}

/// The largest component magnitude for which [`Wide3::cross`] and
/// [`Wide3::norm2`] cannot overflow: `2^62`.
pub const WIDE_LIMIT: i128 = 0x4000_0000_0000_0000;

/// An intermediate vector with 128-bit components.
#[derive(Clone, Copy, Debug, PartialEq, Eq, Structural)]
pub struct Wide3 {
    pub x: i128,
    pub y: i128,
    pub z: i128,
}

impl View for Wide3 {
    type V = Vector;

    open spec fn view(&self) -> Vector {
        Vector { x: self.x as int, y: self.y as int, z: self.z as int }
    }
}

/// The product of two factors that each fit in `2^63`.
pub fn mul_wide(a: i128, b: i128) -> (p: i128)
    requires
        -0x8000_0000_0000_0000 <= a <= 0x8000_0000_0000_0000,
        -0x8000_0000_0000_0000 <= b <= 0x8000_0000_0000_0000,
    ensures
        p == a * b,
{
    proof {
        lemma_product_bound(
            a as int,
            b as int,
            0x8000_0000_0000_0000,
            0x8000_0000_0000_0000,
        );
    }
    a * b
}

impl Wide3 {
    /// The cross product `self x other`.
    pub fn cross(self, other: Wide3) -> (c: Wide3)
        requires
            self@.within(WIDE_LIMIT as int),
            other@.within(WIDE_LIMIT as int),
        ensures
            c@ == self@.cross(other@),
    {
        proof {
            let l = WIDE_LIMIT as int;
            lemma_product_bound(self.y as int, other.z as int, l, l);
            lemma_product_bound(self.z as int, other.y as int, l, l);
            lemma_product_bound(self.z as int, other.x as int, l, l);
            lemma_product_bound(self.x as int, other.z as int, l, l);
            lemma_product_bound(self.x as int, other.y as int, l, l);
            lemma_product_bound(self.y as int, other.x as int, l, l);
        }
        Wide3 {
            x: self.y * other.z - self.z * other.y,
            y: self.z * other.x - self.x * other.z,
            z: self.x * other.y - self.y * other.x,
        }
    }

    /// The squared Euclidean length.
    pub fn norm2(self) -> (n: u128)
        requires
            self@.within(WIDE_LIMIT as int),
        ensures
            n == self@.norm2(),
    {
        proof {
            let l = WIDE_LIMIT as int;
            lemma_product_bound(self.x as int, self.x as int, l, l);
            lemma_product_bound(self.y as int, self.y as int, l, l);
            lemma_product_bound(self.z as int, self.z as int, l, l);
            assert(self.x * self.x >= 0 && self.y * self.y >= 0 && self.z * self.z >= 0)
                by (nonlinear_arith);
        }
        let xx: i128 = self.x * self.x;
        let yy: i128 = self.y * self.y;
        let zz: i128 = self.z * self.z;
        (xx + yy + zz) as u128
    }

    /// The Euclidean length, rounded down.
    pub fn length(self) -> (len: i128)
        requires
            self@.within(WIDE_LIMIT as int),
        ensures
            is_floor_sqrt(self@.norm2(), len as int),
            len == floor_sqrt(self@.norm2()),
            len <= 0xFFFF_FFFF_FFFF_FFFF,
            self@ != Vector::zero() ==> len >= 1,
    {
        let n: u128 = self.norm2();
        let r: u128 = isqrt(n);
        proof {
            if self@ != Vector::zero() {
                lemma_nonzero_norm(self@);
                if r == 0 {
                    assert((r + 1) * (r + 1) == 1);
                }
            }
        }
        r as i128
    }

    /// The same vector with 64-bit components, if every component lies
    /// within `limit` of zero.
    pub fn narrow(self, limit: i64) -> (r: Option<Vec3>)
        requires
            limit >= 0,
        ensures
            r is Some <==> self@.within(limit as int),
            r matches Some(v) ==> v@ == self@ && v == self@.to_vec3(),
    {
        let l: i128 = limit as i128;
        if -l <= self.x && self.x <= l && -l <= self.y && self.y <= l && -l <= self.z && self.z
            <= l {
            Some(Vec3 { x: self.x as i64, y: self.y as i64, z: self.z as i64 })
        } else {
            None
        }
    }

    pub fn is_zero(self) -> (b: bool)
        ensures
            b == (self@ == Vector::zero()),
    {
        self.x == 0 && self.y == 0 && self.z == 0
    }
}

/// The displacement of length `s` along `v`, where `len` is the length of
/// `v`: each component of `v` is scaled by `s / len` and rounded toward zero.
pub open spec fn along(v: Vector, len: int, s: int) -> Vector {
    Vector { x: quot(v.x * s, len), y: quot(v.y * s, len), z: quot(v.z * s, len) }
}

/// Each component of a cross product is bounded by twice the product of
/// the bounds of its factors.
pub proof fn lemma_cross_bound(a: Vector, b: Vector, p: int, q: int)
    requires
        a.within(p),
        b.within(q),
    ensures
        a.cross(b).within(2 * (p * q)),
{
    lemma_product_bound(a.y, b.z, p, q);
    lemma_product_bound(a.z, b.y, p, q);
    lemma_product_bound(a.z, b.x, p, q);
    lemma_product_bound(a.x, b.z, p, q);
    lemma_product_bound(a.x, b.y, p, q);
    lemma_product_bound(a.y, b.x, p, q);
}

/// Computes [`along`]. No component of the result is longer than the
/// product it was divided from.
pub fn displacement(v: Wide3, len: i128, s: i128) -> (d: Wide3)
    requires
        v@.within(0x8000_0000_0000_0000),
        -0x8000_0000_0000_0000 <= s <= 0x8000_0000_0000_0000,
        len > 0,
    ensures
        d@ == along(v@, len as int, s as int),
        magnitude(d.x as int) <= magnitude(v.x * s),
        magnitude(d.y as int) <= magnitude(v.y * s),
        magnitude(d.z as int) <= magnitude(v.z * s),
        d@.within(0x4000_0000_0000_0000_0000_0000_0000_0000),
{
    proof {
        let l: int = 0x8000_0000_0000_0000;
        lemma_product_bound(v.x as int, s as int, l, l);
        lemma_product_bound(v.y as int, s as int, l, l);
        lemma_product_bound(v.z as int, s as int, l, l);
        lemma_quot_bounds(v.x * s, len as int);
        lemma_quot_bounds(v.y * s, len as int);
        lemma_quot_bounds(v.z * s, len as int);
    }
    Wide3 {
        x: quot_i128(mul_wide(v.x, s), len),
        y: quot_i128(mul_wide(v.y, s), len),
        z: quot_i128(mul_wide(v.z, s), len),
    }
}

} // verus!
