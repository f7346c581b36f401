//! Quaternions in scalar/vector form.
use vstd::prelude::*;

use crate::vector::{
    cross, fits_i32, fits_vec3, vadd, vscale, wide_mul, Vec3Int, Vector3,
};

verus! {

/// A quaternion `s + v.x i + v.y j + v.z k` in scalar/vector form.
#[derive(Clone, Copy, Debug, PartialEq, Eq, Structural)]
pub struct Quaternion<S> {
    /// The vector (imaginary) part.
    pub v: Vector3<S>,
    /// The scalar (real) part.
    pub s: S,
}

/// An integer quaternion as a mathematical value: `s + x i + y j + z k`.
pub struct QuatInt {
    pub s: int,
    pub x: int,
    pub y: int,
    pub z: int,
}

impl View for Quaternion<i32> {
    type V = QuatInt;

    open spec fn view(&self) -> QuatInt {
        QuatInt { s: self.s as int, x: self.v.x as int, y: self.v.y as int, z: self.v.z as int }
    }
}

impl<S> Quaternion<S> {
    /// Builds a quaternion from the scalar part `w` and the three imaginary
    /// components.
    pub fn new(w: S, xi: S, yj: S, zk: S) -> (r: Quaternion<S>)
        ensures
            r.s == w,
            r.v.x == xi,
            r.v.y == yj,
            r.v.z == zk,
    {
        Quaternion::from_sv(w, Vector3::new(xi, yj, zk))
    }

    /// Builds a quaternion from a scalar part and a vector part.
    pub fn from_sv(s: S, v: Vector3<S>) -> (r: Quaternion<S>)
        ensures
            r.s == s,
            r.v == v,
    {
        Quaternion { v, s }
    }
}

/// The quaternion `0`.
pub open spec fn quat_zero() -> QuatInt {
    QuatInt { s: 0, x: 0, y: 0, z: 0 }
}

/// The quaternion `1`, the identity rotation.
pub open spec fn quat_one() -> QuatInt {
    QuatInt { s: 1, x: 0, y: 0, z: 0 }
}

/// The imaginary part of a quaternion.
pub open spec fn vec_part(q: QuatInt) -> Vec3Int {
    Vec3Int { x: q.x, y: q.y, z: q.z }
}

/// The quaternion with scalar part `s` and vector part `v`.
pub open spec fn quat_sv(s: int, v: Vec3Int) -> QuatInt {
    QuatInt { s, x: v.x, y: v.y, z: v.z }
}

/// Whether every component of an integer quaternion is representable as an `i32`.
pub open spec fn fits_quat(q: QuatInt) -> bool {
    fits_i32(q.s) && fits_i32(q.x) && fits_i32(q.y) && fits_i32(q.z)
}

/// The conjugate: the vector part negated.
pub open spec fn quat_conj(q: QuatInt) -> QuatInt {
    QuatInt { s: q.s, x: -q.x, y: -q.y, z: -q.z }
}

/// The additive inverse.
pub open spec fn quat_neg(q: QuatInt) -> QuatInt {
    QuatInt { s: -q.s, x: -q.x, y: -q.y, z: -q.z }
}

/// The component-wise sum.
pub open spec fn quat_add(a: QuatInt, b: QuatInt) -> QuatInt {
    QuatInt { s: a.s + b.s, x: a.x + b.x, y: a.y + b.y, z: a.z + b.z }
}

/// The component-wise difference.
pub open spec fn quat_sub(a: QuatInt, b: QuatInt) -> QuatInt {
    QuatInt { s: a.s - b.s, x: a.x - b.x, y: a.y - b.y, z: a.z - b.z }
}

/// Every component multiplied by `k`.
pub open spec fn quat_scale(a: QuatInt, k: int) -> QuatInt {
    QuatInt { s: a.s * k, x: a.x * k, y: a.y * k, z: a.z * k }
}

/// The Hamilton product `a b`.
pub open spec fn quat_mul(a: QuatInt, b: QuatInt) -> QuatInt {
    QuatInt {
        s: a.s * b.s - a.x * b.x - a.y * b.y - a.z * b.z,
        x: a.s * b.x + a.x * b.s + a.y * b.z - a.z * b.y,
        y: a.s * b.y + a.y * b.s + a.z * b.x - a.x * b.z,
        z: a.s * b.z + a.z * b.s + a.x * b.y - a.y * b.x,
    }
}

/// The four-dimensional dot product.
pub open spec fn quat_dot(a: QuatInt, b: QuatInt) -> int {
    a.s * b.s + a.x * b.x + a.y * b.y + a.z * b.z
}

/// The squared magnitude.
pub open spec fn quat_norm2(q: QuatInt) -> int {
    quat_dot(q, q)
}

/// The image of `v` under the rotation of `q`, in the double cross product
/// form `v + 2 u x (u x v + s v)`, where `s` and `u` are the scalar and the
/// vector part of `q`.
pub open spec fn rotate(q: QuatInt, v: Vec3Int) -> Vec3Int {
    let u = vec_part(q);
    vadd(v, vscale(cross(u, vadd(cross(u, v), vscale(v, q.s))), 2))
}

/// The sum of a sequence of quaternions, `0` when it is empty.
pub open spec fn sum_of(qs: Seq<Quaternion<i32>>) -> QuatInt
    decreases qs.len(),
{
    if qs.len() == 0 {
        quat_zero()
    } else {
        quat_add(sum_of(qs.drop_last()), qs.last()@)
    }
}

/// The Hamilton product of a sequence of quaternions, multiplied from left
/// to right starting from `1`.
pub open spec fn product_of(qs: Seq<Quaternion<i32>>) -> QuatInt
    decreases qs.len(),
{
    if qs.len() == 0 {
        quat_one()
    } else {
        quat_mul(product_of(qs.drop_last()), qs.last()@)
    }
}

/// The conjugate of a product is the product of the conjugates in reverse
/// order: `conj(a b) == conj(b) conj(a)`.
pub proof fn lemma_conjugate_of_product(a: QuatInt, b: QuatInt)
    ensures
        quat_conj(quat_mul(a, b)) == quat_mul(quat_conj(b), quat_conj(a)),
{
    assert((quat_conj(quat_mul(a, b))).s == (quat_mul(quat_conj(b), quat_conj(a))).s) by (nonlinear_arith);
    assert((quat_conj(quat_mul(a, b))).x == (quat_mul(quat_conj(b), quat_conj(a))).x) by (nonlinear_arith);
    assert((quat_conj(quat_mul(a, b))).y == (quat_mul(quat_conj(b), quat_conj(a))).y) by (nonlinear_arith);
    assert((quat_conj(quat_mul(a, b))).z == (quat_mul(quat_conj(b), quat_conj(a))).z) by (nonlinear_arith);
}

/// A quaternion times its conjugate is its squared magnitude, a quaternion
/// with zero vector part; so for a unit quaternion the conjugate is the
/// inverse.
pub proof fn lemma_product_with_conjugate(q: QuatInt)
    ensures
        quat_mul(q, quat_conj(q)) == quat_sv(quat_norm2(q), Vec3Int { x: 0, y: 0, z: 0 }),
        quat_mul(quat_conj(q), q) == quat_sv(quat_norm2(q), Vec3Int { x: 0, y: 0, z: 0 }),
{
    assert(quat_mul(q, quat_conj(q)).s == quat_norm2(q)) by (nonlinear_arith);
    assert(quat_mul(quat_conj(q), q).s == quat_norm2(q)) by (nonlinear_arith);
    assert(vec_part(quat_mul(q, quat_conj(q))) == Vec3Int { x: 0, y: 0, z: 0 }) by (nonlinear_arith);
    assert(vec_part(quat_mul(quat_conj(q), q)) == Vec3Int { x: 0, y: 0, z: 0 }) by (nonlinear_arith);
}

impl Quaternion<i32> {
    /// The sum of all quaternions of `qs`, `0` for none.
    pub fn sum(qs: &[Quaternion<i32>]) -> (r: Quaternion<i32>)
        requires
            fits_quat(sum_of(qs@)),
        ensures
            r@ == sum_of(qs@),
    {
        let bound: i128 = 0x8000_0000;
        let mut s: i128 = 0;
        let mut x: i128 = 0;
        let mut y: i128 = 0;
        let mut z: i128 = 0;
        let mut i: usize = 0;
        while i < qs.len()
            invariant
                i <= qs.len(),
                bound == 0x8000_0000,
                (QuatInt { s: s as int, x: x as int, y: y as int, z: z as int }) == sum_of(qs@.take(i as int)),
                -(i * bound) <= s <= i * bound,
                -(i * bound) <= x <= i * bound,
                -(i * bound) <= y <= i * bound,
                -(i * bound) <= z <= i * bound,
            decreases qs.len() - i,
        {
            proof {
                assert(qs@.take(i + 1).drop_last() =~= qs@.take(i as int));
            }
            let q = qs[i];
            s = s + q.s as i128;
            x = x + q.v.x as i128;
            y = y + q.v.y as i128;
            z = z + q.v.z as i128;
            i = i + 1;
        }
        proof {
            assert(qs@.take(i as int) =~= qs@);
        }
        Quaternion::new(s as i32, x as i32, y as i32, z as i32)
    }

    /// The Hamilton product of all quaternions of `qs`, from left to right,
    /// `1` for none. Each partial product has to fit the component type.
    pub fn product(qs: &[Quaternion<i32>]) -> (r: Quaternion<i32>)
        requires
            forall|k: int| 0 < k <= qs@.len() ==> fits_quat(#[trigger] product_of(qs@.take(k))),
        ensures
            r@ == product_of(qs@),
    {
        let mut acc = Quaternion::one();
        let mut i: usize = 0;
        proof {
            assert(qs@.take(0) =~= Seq::<Quaternion<i32>>::empty());
        }
        while i < qs.len()
            invariant
                i <= qs.len(),
                acc@ == product_of(qs@.take(i as int)),
                forall|k: int| 0 < k <= qs@.len() ==> fits_quat(#[trigger] product_of(qs@.take(k))),
            decreases qs.len() - i,
        {
            proof {
                assert(qs@.take(i + 1).drop_last() =~= qs@.take(i as int));
                assert(fits_quat(product_of(qs@.take(i + 1))));
            }
            acc = acc.hamilton_product(qs[i]);
            i = i + 1;
        }
        proof {
            assert(qs@.take(i as int) =~= qs@);
        }
        acc
    }

    /// The quaternion `0`.
    pub fn zero() -> (r: Quaternion<i32>)
        ensures
            r@ == quat_zero(),
    {
        Quaternion::new(0, 0, 0, 0)
    }

    /// Whether every component is `0`.
    pub fn is_zero(&self) -> (r: bool)
        ensures
            r == (self@ == quat_zero()),
    {
        self.s == 0 && self.v.x == 0 && self.v.y == 0 && self.v.z == 0
    }

    /// The quaternion `1`, the identity rotation.
    pub fn one() -> (r: Quaternion<i32>)
        ensures
            r@ == quat_one(),
    {
        Quaternion::new(1, 0, 0, 0)
    }

    /// The conjugate: the vector part negated. For a unit quaternion this
    /// is the inverse rotation.
    pub fn conjugate(self) -> (r: Quaternion<i32>)
        requires
            fits_quat(quat_conj(self@)),
        ensures
            r@ == quat_conj(self@),
    {
        Quaternion::new(self.s, -self.v.x, -self.v.y, -self.v.z)
    }

    /// The additive inverse. It stands for the same rotation as `self`.
    pub fn neg(self) -> (r: Quaternion<i32>)
        requires
            fits_quat(quat_neg(self@)),
        ensures
            r@ == quat_neg(self@),
    {
        Quaternion::new(-self.s, -self.v.x, -self.v.y, -self.v.z)
    }

    /// The component-wise sum.
    pub fn add(self, other: Quaternion<i32>) -> (r: Quaternion<i32>)
        requires
            fits_quat(quat_add(self@, other@)),
        ensures
            r@ == quat_add(self@, other@),
    {
        Quaternion::new(
            self.s + other.s,
            self.v.x + other.v.x,
            self.v.y + other.v.y,
            self.v.z + other.v.z,
        )
    }

    /// The component-wise difference.
    pub fn sub(self, other: Quaternion<i32>) -> (r: Quaternion<i32>)
        requires
            fits_quat(quat_sub(self@, other@)),
        ensures
            r@ == quat_sub(self@, other@),
    {
        Quaternion::new(
            self.s - other.s,
            self.v.x - other.v.x,
            self.v.y - other.v.y,
            self.v.z - other.v.z,
        )
    }

    /// Every component multiplied by `k`.
    pub fn multiply_scalar(self, k: i32) -> (r: Quaternion<i32>)
        requires
            fits_quat(quat_scale(self@, k as int)),
        ensures
            r@ == quat_scale(self@, k as int),
    {
        let k = k as i128;
        let s = wide_mul(self.s as i128, k);
        let x = wide_mul(self.v.x as i128, k);
        let y = wide_mul(self.v.y as i128, k);
        let z = wide_mul(self.v.z as i128, k);
        Quaternion::new(s as i32, x as i32, y as i32, z as i32)
    }

    /// The Hamilton product `self other`. As rotations, `other` is applied
    /// first and `self` second.
    pub fn hamilton_product(self, other: Quaternion<i32>) -> (r: Quaternion<i32>)
        requires
            fits_quat(quat_mul(self@, other@)),
        ensures
            r@ == quat_mul(self@, other@),
    {
        let (a, ax, ay, az) = (self.s as i128, self.v.x as i128, self.v.y as i128, self.v.z as i128);
        let (b, bx, by, bz) = (other.s as i128, other.v.x as i128, other.v.y as i128, other.v.z as i128);
        let s = wide_mul(a, b) - wide_mul(ax, bx) - wide_mul(ay, by) - wide_mul(az, bz);
        let x = wide_mul(a, bx) + wide_mul(ax, b) + wide_mul(ay, bz) - wide_mul(az, by);
        let y = wide_mul(a, by) + wide_mul(ay, b) + wide_mul(az, bx) - wide_mul(ax, bz);
        let z = wide_mul(a, bz) + wide_mul(az, b) + wide_mul(ax, by) - wide_mul(ay, bx);
        Quaternion::new(s as i32, x as i32, y as i32, z as i32)
    }

    /// The four-dimensional dot product, exact.
    pub fn dot(self, other: Quaternion<i32>) -> (r: i128)
        ensures
            r == quat_dot(self@, other@),
    {
        wide_mul(self.s as i128, other.s as i128) + wide_mul(self.v.x as i128, other.v.x as i128)
            + wide_mul(self.v.y as i128, other.v.y as i128) + wide_mul(self.v.z as i128, other.v.z as i128)
    }

    /// The squared magnitude, exact.
    pub fn magnitude2(self) -> (r: i128)
        ensures
            r == quat_norm2(self@),
    {
        self.dot(self)
    }

    /// The squared Euclidean distance to `other`, exact.
    pub fn distance2(self, other: Quaternion<i32>) -> (r: i128)
        ensures
            r == quat_norm2(quat_sub(other@, self@)),
    {
        let s = other.s as i128 - self.s as i128;
        let x = other.v.x as i128 - self.v.x as i128;
        let y = other.v.y as i128 - self.v.y as i128;
        let z = other.v.z as i128 - self.v.z as i128;
        wide_mul(s, s) + wide_mul(x, x) + wide_mul(y, y) + wide_mul(z, z)
    }

    /// The image of `vec` under the rotation of `self`, evaluated as
    /// `vec + 2 u x (u x vec + s vec)`. This is a rotation when `self` has
    /// magnitude `1`.
    pub fn rotate_vector(&self, vec: Vector3<i32>) -> (r: Vector3<i32>)
        requires
            fits_vec3(rotate(self@, vec@)),
        ensures
            r@ == rotate(self@, vec@),
    {
        let (s, ux, uy, uz) = (self.s as i128, self.v.x as i128, self.v.y as i128, self.v.z as i128);
        let (vx, vy, vz) = (vec.x as i128, vec.y as i128, vec.z as i128);
        let tx = wide_mul(uy, vz) - wide_mul(uz, vy) + wide_mul(s, vx);
        let ty = wide_mul(uz, vx) - wide_mul(ux, vz) + wide_mul(s, vy);
        let tz = wide_mul(ux, vy) - wide_mul(uy, vx) + wide_mul(s, vz);
        let x = vx + 2 * (wide_mul(uy, tz) - wide_mul(uz, ty));
        let y = vy + 2 * (wide_mul(uz, tx) - wide_mul(ux, tz));
        let z = vz + 2 * (wide_mul(ux, ty) - wide_mul(uy, tx));
        proof {
            let (si, uxi, uyi, uzi) = (s as int, ux as int, uy as int, uz as int);
            assert(tx == uyi * vz - uzi * vy + vx * si) by (nonlinear_arith)
                requires tx == uyi * vz - uzi * vy + si * vx;
            assert(ty == uzi * vx - uxi * vz + vy * si) by (nonlinear_arith)
                requires ty == uzi * vx - uxi * vz + si * vy;
            assert(tz == uxi * vy - uyi * vx + vz * si) by (nonlinear_arith)
                requires tz == uxi * vy - uyi * vx + si * vz;
        }
        Vector3::new(x as i32, y as i32, z as i32)
    }
}

} // verus!
