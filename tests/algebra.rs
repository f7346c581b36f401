use cgmath::{Matrix3, Matrix4, Quaternion, Vector3, Vector4};

fn q(w: i32, x: i32, y: i32, z: i32) -> Quaternion<i32> {
    Quaternion::new(w, x, y, z)
}

#[test]
fn unit_imaginaries_multiply_like_hamilton() {
    let (i, j, k) = (q(0, 1, 0, 0), q(0, 0, 1, 0), q(0, 0, 0, 1));
    assert_eq!(i.hamilton_product(j), k);
    assert_eq!(j.hamilton_product(i), q(0, 0, 0, -1));
    assert_eq!(j.hamilton_product(k), i);
    assert_eq!(k.hamilton_product(i), j);
    assert_eq!(i.hamilton_product(i), q(-1, 0, 0, 0));
}

#[test]
fn hamilton_product_of_general_quaternions() {
    let a = q(1, 2, 3, 4);
    let b = q(5, 6, 7, 8);
    assert_eq!(a.hamilton_product(b), q(-60, 12, 30, 24));
    assert_eq!(b.hamilton_product(a), q(-60, 20, 14, 32));
}

#[test]
fn conjugate_negates_vector_part() {
    let a = q(1, 2, 3, 4);
    assert_eq!(a.conjugate(), q(1, -2, -3, -4));
    assert_eq!(a.hamilton_product(a.conjugate()), q(30, 0, 0, 0));
    assert_eq!(a.neg(), q(-1, -2, -3, -4));
}

#[test]
fn conjugate_of_product_reverses_order() {
    let a = q(1, 2, 3, 4);
    let b = q(5, 6, 7, 8);
    assert_eq!(
        a.hamilton_product(b).conjugate(),
        b.conjugate().hamilton_product(a.conjugate())
    );
}

#[test]
fn componentwise_operations() {
    let a = q(1, 2, 3, 4);
    let b = q(5, 6, 7, 8);
    assert_eq!(a.add(b), q(6, 8, 10, 12));
    assert_eq!(a.sub(b), q(-4, -4, -4, -4));
    assert_eq!(a.multiply_scalar(-3), q(-3, -6, -9, -12));
}

#[test]
fn dot_magnitude_and_distance() {
    let a = q(1, 2, 3, 4);
    let b = q(5, 6, 7, 8);
    assert_eq!(a.dot(b), 70);
    assert_eq!(a.magnitude2(), 30);
    assert_eq!(a.distance2(b), 64);
    let big = q(i32::MIN, i32::MIN, i32::MIN, i32::MIN);
    assert_eq!(big.magnitude2(), 4 * (1i128 << 62));
}

#[test]
fn zero_and_one() {
    assert!(Quaternion::<i32>::zero().is_zero());
    assert!(!Quaternion::<i32>::one().is_zero());
    assert!(!q(0, 0, 0, 1).is_zero());
    assert_eq!(Quaternion::<i32>::one(), q(1, 0, 0, 0));
    let a = q(1, 2, 3, 4);
    assert_eq!(Quaternion::one().hamilton_product(a), a);
}

#[test]
fn sum_of_slices() {
    assert_eq!(Quaternion::sum(&[]), Quaternion::zero());
    assert_eq!(Quaternion::sum(&[q(1, 2, 3, 4), q(5, 6, 7, 8), q(-1, 0, 0, 1)]), q(5, 8, 10, 13));
}

#[test]
fn product_of_slices() {
    let (i, j, k) = (q(0, 1, 0, 0), q(0, 0, 1, 0), q(0, 0, 0, 1));
    assert_eq!(Quaternion::product(&[]), Quaternion::one());
    assert_eq!(Quaternion::product(&[i, j]), k);
    assert_eq!(Quaternion::product(&[i, j, k]), q(-1, 0, 0, 0));
    assert_eq!(Quaternion::product(&[q(1, 2, 3, 4), q(5, 6, 7, 8)]), q(-60, 12, 30, 24));
}

#[test]
fn rotation_matrix_of_half_turn() {
    let m = Matrix3::from_quaternion(q(0, 1, 0, 0));
    assert_eq!(m, Matrix3::new(1, 0, 0, 0, -1, 0, 0, 0, -1));
    assert_eq!(Matrix3::from_quaternion(Quaternion::one()), Matrix3::new(1, 0, 0, 0, 1, 0, 0, 0, 1));
}

#[test]
fn rotation_matrix_entries() {
    let m = Matrix3::from_quaternion(q(1, 2, 3, 4));
    assert_eq!(m.x, Vector3::new(-49, 20, 10));
    assert_eq!(m.y, Vector3::new(4, -39, 28));
    assert_eq!(m.z, Vector3::new(22, 20, -25));
}

#[test]
fn homogeneous_rotation_matrix() {
    let m = Matrix4::from_quaternion(q(1, 2, 3, 4));
    assert_eq!(m.x, Vector4::new(-49, 20, 10, 0));
    assert_eq!(m.y, Vector4::new(4, -39, 28, 0));
    assert_eq!(m.z, Vector4::new(22, 20, -25, 0));
    assert_eq!(m.w, Vector4::new(0, 0, 0, 1));
}

#[test]
fn rotation_matrix_ignores_sign() {
    let a = q(1, 2, 3, 4);
    assert_eq!(Matrix3::from_quaternion(a), Matrix3::from_quaternion(a.neg()));
    let b = q(0, 0, -1, 0);
    assert_eq!(Matrix4::from_quaternion(b), Matrix4::from_quaternion(b.neg()));
}

#[test]
fn rotate_vector_half_turn() {
    let k = q(0, 0, 0, 1);
    assert_eq!(k.rotate_vector(Vector3::new(1, 0, 0)), Vector3::new(-1, 0, 0));
    assert_eq!(k.rotate_vector(Vector3::new(0, 0, 5)), Vector3::new(0, 0, 5));
    assert_eq!(Quaternion::one().rotate_vector(Vector3::new(3, -4, 5)), Vector3::new(3, -4, 5));
}

#[test]
fn rotate_vector_matches_matrix_columns() {
    let a = q(1, 2, 3, 4);
    let m = Matrix3::from_quaternion(a);
    assert_eq!(a.rotate_vector(Vector3::new(1, 0, 0)), m.x);
    assert_eq!(a.rotate_vector(Vector3::new(0, 1, 0)), m.y);
    assert_eq!(a.rotate_vector(Vector3::new(0, 0, 1)), m.z);
}
