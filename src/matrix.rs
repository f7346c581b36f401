//! Column-major 3x3 and 4x4 matrices, and the rotation matrix of a quaternion.
use vstd::prelude::*;

use crate::quaternion::{quat_neg, QuatInt, Quaternion};
use crate::vector::{fits_vec3, wide_mul, Vec3Int, Vec4Int, Vector3, Vector4};

verus! {

/// A 3x3 matrix stored as its three columns.
#[derive(Clone, Copy, Debug, PartialEq, Eq, Structural)]
pub struct Matrix3<S> {
    /// The first column.
    pub x: Vector3<S>,
    /// The second column.
    pub y: Vector3<S>,
    /// The third column.
    pub z: Vector3<S>,
}

/// A 4x4 matrix stored as its four columns.
#[derive(Clone, Copy, Debug, PartialEq, Eq, Structural)]
pub struct Matrix4<S> {
    /// The first column.
    pub x: Vector4<S>,
    /// The second column.
    pub y: Vector4<S>,
    /// The third column.
    pub z: Vector4<S>,
    /// The fourth column.
    pub w: Vector4<S>,
}

/// A 3x3 integer matrix as a mathematical value, by columns.
pub struct Mat3Int {
    pub x: Vec3Int,
    pub y: Vec3Int,
    pub z: Vec3Int,
}

impl View for Matrix3<i32> {
    type V = Mat3Int;

    open spec fn view(&self) -> Mat3Int {
        Mat3Int { x: self.x@, y: self.y@, z: self.z@ }
    }
}

/// A 4x4 integer matrix as a mathematical value, by columns.
pub struct Mat4Int {
    pub x: Vec4Int,
    pub y: Vec4Int,
    pub z: Vec4Int,
    pub w: Vec4Int,
}

impl View for Matrix4<i32> {
    type V = Mat4Int;

    open spec fn view(&self) -> Mat4Int {
        Mat4Int { x: self.x@, y: self.y@, z: self.z@, w: self.w@ }
    }
}

/// The column `(c, w)`: a three-component column extended by a fourth entry.
pub open spec fn extend(c: Vec3Int, w: int) -> Vec4Int {
    Vec4Int { x: c.x, y: c.y, z: c.z, w }
}

/// The 4x4 matrix that applies `m` and leaves the homogeneous coordinate
/// alone: `m` in the upper left block, zero translation, `1` in the corner.
pub open spec fn homogeneous(m: Mat3Int) -> Mat4Int {
    Mat4Int {
        x: extend(m.x, 0),
        y: extend(m.y, 0),
        z: extend(m.z, 0),
        w: Vec4Int { x: 0, y: 0, z: 0, w: 1 },
    }
}

/// Whether every entry of an integer matrix is representable as an `i32`.
pub open spec fn fits_mat3(m: Mat3Int) -> bool {
    fits_vec3(m.x) && fits_vec3(m.y) && fits_vec3(m.z)
}

/// The rotation matrix of `q`: the images of the three basis vectors under
/// `u |-> q u q*`, written with the doubled products of the components.
/// For a unit quaternion this is the orthonormal rotation basis.
pub open spec fn rotation_matrix(q: QuatInt) -> Mat3Int {
    let (s, x, y, z) = (q.s, q.x, q.y, q.z);
    Mat3Int {
        x: Vec3Int { x: 1 - 2 * y * y - 2 * z * z, y: 2 * x * y + 2 * s * z, z: 2 * x * z - 2 * s * y },
        y: Vec3Int { x: 2 * x * y - 2 * s * z, y: 1 - 2 * x * x - 2 * z * z, z: 2 * y * z + 2 * s * x },
        z: Vec3Int { x: 2 * x * z + 2 * s * y, y: 2 * y * z - 2 * s * x, z: 1 - 2 * x * x - 2 * y * y },
    }
}

/// A quaternion and its negation have the same rotation matrix: the matrix
/// determines the quaternion at most up to sign.
pub proof fn lemma_rotation_matrix_ignores_sign(q: QuatInt)
    ensures
        rotation_matrix(quat_neg(q)) == rotation_matrix(q),
{
    assert((rotation_matrix(quat_neg(q))).x == (rotation_matrix(q)).x) by (nonlinear_arith);
    assert((rotation_matrix(quat_neg(q))).y == (rotation_matrix(q)).y) by (nonlinear_arith);
    assert((rotation_matrix(quat_neg(q))).z == (rotation_matrix(q)).z) by (nonlinear_arith);
}

impl<S> Matrix3<S> {
    /// Builds a matrix from its nine entries, column after column.
    #[allow(clippy::too_many_arguments)]
    pub fn new(
        c0r0: S,
        c0r1: S,
        c0r2: S,
        c1r0: S,
        c1r1: S,
        c1r2: S,
        c2r0: S,
        c2r1: S,
        c2r2: S,
    ) -> (r: Matrix3<S>)
        ensures
            r.x.x == c0r0 && r.x.y == c0r1 && r.x.z == c0r2,
            r.y.x == c1r0 && r.y.y == c1r1 && r.y.z == c1r2,
            r.z.x == c2r0 && r.z.y == c2r1 && r.z.z == c2r2,
    {
        Matrix3 {
            x: Vector3::new(c0r0, c0r1, c0r2),
            y: Vector3::new(c1r0, c1r1, c1r2),
            z: Vector3::new(c2r0, c2r1, c2r2),
        }
    }
}

impl Matrix3<i32> {
    /// The rotation matrix of a quaternion, entry by entry.
    pub fn from_quaternion(quat: Quaternion<i32>) -> (r: Matrix3<i32>)
        requires
            fits_mat3(rotation_matrix(quat@)),
        ensures
            r@ == rotation_matrix(quat@),
    {
        let x = quat.v.x as i128;
        let y = quat.v.y as i128;
        let z = quat.v.z as i128;
        let s = quat.s as i128;
        let x2 = x + x;
        let y2 = y + y;
        let z2 = z + z;

        let xx2 = wide_mul(x2, x);
        let xy2 = wide_mul(x2, y);
        let xz2 = wide_mul(x2, z);

        let yy2 = wide_mul(y2, y);
        let yz2 = wide_mul(y2, z);
        let zz2 = wide_mul(z2, z);

        let sy2 = wide_mul(y2, s);
        let sz2 = wide_mul(z2, s);
        let sx2 = wide_mul(x2, s);

        proof {
            let (si, xi, yi, zi) = (s as int, x as int, y as int, z as int);
            assert(xx2 == 2 * xi * xi && xy2 == 2 * xi * yi && xz2 == 2 * xi * zi) by (nonlinear_arith)
                requires xx2 == (xi + xi) * xi, xy2 == (xi + xi) * yi, xz2 == (xi + xi) * zi;
            assert(yy2 == 2 * yi * yi && yz2 == 2 * yi * zi && zz2 == 2 * zi * zi) by (nonlinear_arith)
                requires yy2 == (yi + yi) * yi, yz2 == (yi + yi) * zi, zz2 == (zi + zi) * zi;
            assert(sy2 == 2 * si * yi && sz2 == 2 * si * zi && sx2 == 2 * si * xi) by (nonlinear_arith)
                requires sy2 == (yi + yi) * si, sz2 == (zi + zi) * si, sx2 == (xi + xi) * si;
        }

        Matrix3::new(
            (1 - yy2 - zz2) as i32, (xy2 + sz2) as i32, (xz2 - sy2) as i32,
            (xy2 - sz2) as i32, (1 - xx2 - zz2) as i32, (yz2 + sx2) as i32,
            (xz2 + sy2) as i32, (yz2 - sx2) as i32, (1 - xx2 - yy2) as i32,
        )
    }
}

impl<S> Matrix4<S> {
    /// Builds a matrix from its four columns.
    pub fn from_cols(x: Vector4<S>, y: Vector4<S>, z: Vector4<S>, w: Vector4<S>) -> (r: Matrix4<S>)
        ensures
            r.x == x,
            r.y == y,
            r.z == z,
            r.w == w,
    {
        Matrix4 { x, y, z, w }
    }
}

impl Matrix4<i32> {
    /// The rotation matrix of a quaternion as a homogeneous 4x4 matrix.
    pub fn from_quaternion(quat: Quaternion<i32>) -> (r: Matrix4<i32>)
        requires
            fits_mat3(rotation_matrix(quat@)),
        ensures
            r@ == homogeneous(rotation_matrix(quat@)),
    {
        let m = Matrix3::from_quaternion(quat);
        Matrix4::from_cols(
            Vector4::new(m.x.x, m.x.y, m.x.z, 0),
            Vector4::new(m.y.x, m.y.y, m.y.z, 0),
            Vector4::new(m.z.x, m.z.y, m.z.z, 0),
            Vector4::new(0, 0, 0, 1),
        )
    }
}

} // verus!
