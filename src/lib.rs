//! Quaternions, three-component vectors and rotation matrices.
//!
//! The storage types are generic over their scalar. The algebra is exact
//! integer arithmetic over `i32` components: every intermediate product is
//! formed in `i128`, so each operation is specified over mathematical
//! integers and only its final result has to fit the scalar type.
pub mod vector;
pub mod quaternion;
pub mod matrix;
pub mod convert;

pub use quaternion::Quaternion;
pub use matrix::{Matrix3, Matrix4};
pub use vector::{Vector3, Vector4};
