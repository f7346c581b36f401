//! Three-component vectors.
use vstd::prelude::*;

verus! {

/// An ordered triple `(x, y, z)`.
#[derive(Clone, Copy, Debug, PartialEq, Eq, Structural)]
pub struct Vector3<S> {
    pub x: S,
    pub y: S,
    pub z: S,
}

/// A vector with integer components, as a mathematical value.
pub struct Vec3Int {
    pub x: int,
    pub y: int,
    pub z: int,
}

impl<S> Vector3<S> {
    /// Builds a vector from its three components.
    pub fn new(x: S, y: S, z: S) -> (r: Vector3<S>)
        ensures
            r.x == x,
            r.y == y,
            r.z == z,
    {
        Vector3 { x, y, z }
    }
}

impl View for Vector3<i32> {
    type V = Vec3Int;

    open spec fn view(&self) -> Vec3Int {
        Vec3Int { x: self.x as int, y: self.y as int, z: self.z as int }
    }
}

/// An ordered quadruple `(x, y, z, w)`.
#[derive(Clone, Copy, Debug, PartialEq, Eq, Structural)]
pub struct Vector4<S> {
    pub x: S,
    pub y: S,
    pub z: S,
    pub w: S,
}

impl<S> Vector4<S> {
    /// Builds a vector from its four components.
    pub fn new(x: S, y: S, z: S, w: S) -> (r: Vector4<S>)
        ensures
            r.x == x,
            r.y == y,
            r.z == z,
            r.w == w,
    {
        Vector4 { x, y, z, w }
    }
}

/// A four-component integer vector, as a mathematical value.
pub struct Vec4Int {
    pub x: int,
    pub y: int,
    pub z: int,
    pub w: int,
}

impl View for Vector4<i32> {
    type V = Vec4Int;

    open spec fn view(&self) -> Vec4Int {
        Vec4Int { x: self.x as int, y: self.y as int, z: self.z as int, w: self.w as int }
    }
}

/// Whether an integer is representable as an `i32`.
pub open spec fn fits_i32(v: int) -> bool {
    i32::MIN <= v <= i32::MAX
}

/// Whether every component of an integer vector is representable as an `i32`.
pub open spec fn fits_vec3(v: Vec3Int) -> bool {
    fits_i32(v.x) && fits_i32(v.y) && fits_i32(v.z)
}

/// Bound on the magnitude of the first factor of [`wide_mul`]: `2^40`.
pub const NARROW: i128 = 0x100_0000_0000;

/// Bound on the magnitude of the second factor of [`wide_mul`]: `2^82`.
pub const WIDE: i128 = 0x4_0000_0000_0000_0000_0000;

/// Bound on the magnitude of the product of two factors of at most 40 bits:
/// `2^80`.
pub const SMALL_PRODUCT: i128 = 0x1_0000_0000_0000_0000_0000;

/// Bound on the magnitude of a product formed by [`wide_mul`]: `2^122`.
pub const PRODUCT: i128 = 0x400_0000_0000_0000_0000_0000_0000_0000;

/// The exact product of an integer of at most 40 bits and one of at most
/// 82 bits.
pub fn wide_mul(a: i128, b: i128) -> (r: i128)
    requires
        -NARROW <= a <= NARROW,
        -WIDE <= b <= WIDE,
    ensures
        r == a * b,
        -PRODUCT <= r <= PRODUCT,
        -NARROW <= b <= NARROW ==> -SMALL_PRODUCT <= r <= SMALL_PRODUCT,
{
    proof {
        let (na, wb) = (NARROW as int, WIDE as int);
        assert(-(na * wb) <= (a as int) * (b as int) <= na * wb) by (nonlinear_arith)
            requires
                -na <= a <= na,
                -wb <= b <= wb,
        ;
        if -na <= b <= na {
            assert(-(na * na) <= (a as int) * (b as int) <= na * na) by (nonlinear_arith)
                requires
                    -na <= a <= na,
                    -na <= b <= na,
            ;
        }
    }
    a * b
}

/// The cross product of two integer vectors.
pub open spec fn cross(a: Vec3Int, b: Vec3Int) -> Vec3Int {
    Vec3Int { x: a.y * b.z - a.z * b.y, y: a.z * b.x - a.x * b.z, z: a.x * b.y - a.y * b.x }
}

/// The component-wise sum of two integer vectors.
pub open spec fn vadd(a: Vec3Int, b: Vec3Int) -> Vec3Int {
    Vec3Int { x: a.x + b.x, y: a.y + b.y, z: a.z + b.z }
}

/// The integer vector `a` scaled by `k`.
pub open spec fn vscale(a: Vec3Int, k: int) -> Vec3Int {
    Vec3Int { x: k * a.x, y: k * a.y, z: k * a.z }
}

} // verus!
