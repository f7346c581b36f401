//! Conversions of quaternions to and from ordered sequences of components,
//! access by component index, and narrowing of the scalar type.
//!
//! The component order is `x, y, z, s`: the vector part first, the scalar
//! part last.
use vstd::prelude::*;

use crate::quaternion::{fits_quat, QuatInt, Quaternion};
use crate::vector::{fits_i32, Vector3};

verus! {

/// The components of `q` in the order `x, y, z, s`.
pub open spec fn components<S>(q: Quaternion<S>) -> Seq<S> {
    seq![q.v.x, q.v.y, q.v.z, q.s]
}

/// The quaternion whose components, in the order `x, y, z, s`, are the
/// first four elements of `c`.
pub open spec fn from_components<S>(c: Seq<S>) -> Quaternion<S> {
    Quaternion { v: Vector3 { x: c[0], y: c[1], z: c[2] }, s: c[3] }
}

impl<S: Copy> Quaternion<S> {
    /// The components as an array `[x, y, z, s]`.
    pub fn to_array(&self) -> (r: [S; 4])
        ensures
            r@ == components(*self),
    {
        let r = [self.v.x, self.v.y, self.v.z, self.s];
        proof {
            assert(r@ =~= components(*self));
        }
        r
    }

    /// The quaternion with vector part `(a[0], a[1], a[2])` and scalar part `a[3]`.
    pub fn from_array(a: [S; 4]) -> (r: Quaternion<S>)
        ensures
            r == from_components(a@),
    {
        Quaternion::new(a[3], a[0], a[1], a[2])
    }

    /// The components as a tuple `(x, y, z, s)`.
    pub fn to_tuple(&self) -> (r: (S, S, S, S))
        ensures
            r == (self.v.x, self.v.y, self.v.z, self.s),
    {
        (self.v.x, self.v.y, self.v.z, self.s)
    }

    /// The quaternion with vector part `(t.0, t.1, t.2)` and scalar part `t.3`.
    pub fn from_tuple(t: (S, S, S, S)) -> (r: Quaternion<S>)
        ensures
            r.v.x == t.0,
            r.v.y == t.1,
            r.v.z == t.2,
            r.s == t.3,
    {
        let (xi, yj, zk, w) = t;
        Quaternion::new(w, xi, yj, zk)
    }

    /// The component at index `i` in the order `x, y, z, s`.
    pub fn component_at(&self, i: usize) -> (r: S)
        requires
            i < 4,
        ensures
            r == components(*self)[i as int],
    {
        if i == 0 {
            self.v.x
        } else if i == 1 {
            self.v.y
        } else if i == 2 {
            self.v.z
        } else {
            self.s
        }
    }

    /// Replaces the component at index `i`, in the order `x, y, z, s`, by
    /// `value`, and leaves the others as they were.
    pub fn set_component(&mut self, i: usize, value: S)
        requires
            i < 4,
        ensures
            components(*final(self)) == components(*old(self)).update(i as int, value),
    {
        if i == 0 {
            self.v.x = value;
        } else if i == 1 {
            self.v.y = value;
        } else if i == 2 {
            self.v.z = value;
        } else {
            self.s = value;
        }
        proof {
            assert(components(*self) =~= components(*old(self)).update(i as int, value));
        }
    }
}

impl<S: Copy> From<[S; 4]> for Quaternion<S> {
    /// The quaternion with vector part `(v[0], v[1], v[2])` and scalar part `v[3]`.
    fn from(v: [S; 4]) -> (r: Quaternion<S>) {
        Quaternion::from_array(v)
    }
}

impl<S: Copy> vstd::std_specs::convert::FromSpecImpl<[S; 4]> for Quaternion<S> {
    open spec fn obeys_from_spec() -> bool {
        true
    }

    open spec fn from_spec(v: [S; 4]) -> Quaternion<S> {
        from_components(v@)
    }
}

impl<S: Copy> From<(S, S, S, S)> for Quaternion<S> {
    /// The quaternion with vector part `(v.0, v.1, v.2)` and scalar part `v.3`.
    fn from(v: (S, S, S, S)) -> (r: Quaternion<S>) {
        Quaternion::from_tuple(v)
    }
}

impl<S: Copy> vstd::std_specs::convert::FromSpecImpl<(S, S, S, S)> for Quaternion<S> {
    open spec fn obeys_from_spec() -> bool {
        true
    }

    open spec fn from_spec(v: (S, S, S, S)) -> Quaternion<S> {
        Quaternion { v: Vector3 { x: v.0, y: v.1, z: v.2 }, s: v.3 }
    }
}

impl<S: Copy> From<Quaternion<S>> for [S; 4] {
    /// The components `[x, y, z, s]`.
    fn from(q: Quaternion<S>) -> (r: [S; 4]) {
        q.to_array()
    }
}

impl<S: Copy> vstd::std_specs::convert::FromSpecImpl<Quaternion<S>> for [S; 4] {
    open spec fn obeys_from_spec() -> bool {
        true
    }

    open spec fn from_spec(q: Quaternion<S>) -> [S; 4] {
        [q.v.x, q.v.y, q.v.z, q.s]
    }
}

impl<S: Copy> From<Quaternion<S>> for (S, S, S, S) {
    /// The components `(x, y, z, s)`.
    fn from(q: Quaternion<S>) -> (r: (S, S, S, S)) {
        q.to_tuple()
    }
}

impl<S: Copy> vstd::std_specs::convert::FromSpecImpl<Quaternion<S>> for (S, S, S, S) {
    open spec fn obeys_from_spec() -> bool {
        true
    }

    open spec fn from_spec(q: Quaternion<S>) -> (S, S, S, S) {
        (q.v.x, q.v.y, q.v.z, q.s)
    }
}

/// Converting an array into a quaternion and back gives the array again.
pub proof fn lemma_array_round_trip<S>(a: [S; 4])
    ensures
        components(from_components(a@)) == a@,
{
    assert(components(from_components(a@)) =~= a@);
}

/// Converting a quaternion into its components and back gives the
/// quaternion again.
pub proof fn lemma_components_round_trip<S>(q: Quaternion<S>)
    ensures
        from_components(components(q)) == q,
{
}

/// A quaternion with `i64` components, as a mathematical value.
pub open spec fn wide_view(q: Quaternion<i64>) -> QuatInt {
    QuatInt { s: q.s as int, x: q.v.x as int, y: q.v.y as int, z: q.v.z as int }
}

/// Relies on `num_traits::NumCast::from` with target `i32`: it returns the
/// same value when it lies in the range of `i32`, and `None` otherwise.
#[verifier::external_body]
fn narrow(n: i64) -> (r: Option<i32>)
    ensures
        r == (if fits_i32(n as int) {
            Some(n as i32)
        } else {
            None
        }),
{
    <i32 as num_traits::NumCast>::from(n)
}

impl Quaternion<i64> {
    /// Component-wise conversion to `i32` components: `None` as soon as one
    /// component lies outside the range of `i32`, the same quaternion
    /// otherwise.
    pub fn cast(&self) -> (r: Option<Quaternion<i32>>)
        ensures
            r is Some <==> fits_quat(wide_view(*self)),
            r is Some ==> r.unwrap()@ == wide_view(*self),
    {
        let s = match narrow(self.s) {
            Some(s) => s,
            None => return None,
        };
        let x = match narrow(self.v.x) {
            Some(x) => x,
            None => return None,
        };
        let y = match narrow(self.v.y) {
            Some(y) => y,
            None => return None,
        };
        let z = match narrow(self.v.z) {
            Some(z) => z,
            None => return None,
        };
        Some(Quaternion::new(s, x, y, z))
    }
}

} // verus!
