use cgmath::{Quaternion, Vector3};

const QUATERNION: Quaternion<f32> = Quaternion {
    v: Vector3 {
        x: 1.0,
        y: 2.0,
        z: 3.0,
    },
    s: 4.0,
};

#[test]
fn test_into() {
    let v = QUATERNION;
    {
        let v: [f32; 4] = v.into();
        assert_eq!(v, [1.0, 2.0, 3.0, 4.0]);
    }
    {
        let v: (f32, f32, f32, f32) = v.into();
        assert_eq!(v, (1.0, 2.0, 3.0, 4.0));
    }
}

#[test]
fn test_as_ref() {
    let v = QUATERNION;
    {
        let v: &[f32; 4] = &v.to_array();
        assert_eq!(v, &[1.0, 2.0, 3.0, 4.0]);
    }
    {
        let v: &(f32, f32, f32, f32) = &v.to_tuple();
        assert_eq!(v, &(1.0, 2.0, 3.0, 4.0));
    }
}

#[test]
fn test_as_mut() {
    let mut v = QUATERNION;
    {
        let a: &mut [f32; 4] = &mut v.to_array();
        assert_eq!(a, &mut [1.0, 2.0, 3.0, 4.0]);
    }
    {
        let t: &mut (f32, f32, f32, f32) = &mut v.to_tuple();
        assert_eq!(t, &mut (1.0, 2.0, 3.0, 4.0));
    }
    v.set_component(3, 5.0);
    assert_eq!(v.to_array(), [1.0, 2.0, 3.0, 5.0]);
}

#[test]
fn test_from() {
    assert_eq!(Quaternion::from([1.0, 2.0, 3.0, 4.0]), QUATERNION);
    {
        let v = &[1.0, 2.0, 3.0, 4.0];
        let v: &Quaternion<_> = &Quaternion::from_array(*v);
        assert_eq!(v, &QUATERNION);
    }
    assert_eq!(Quaternion::from((1.0, 2.0, 3.0, 4.0)), QUATERNION);
    {
        let v = &(1.0, 2.0, 3.0, 4.0);
        let v: &Quaternion<_> = &Quaternion::from_tuple(*v);
        assert_eq!(v, &QUATERNION);
    }
}

#[test]
fn array_round_trip_integers() {
    let q = Quaternion::from([1, 2, 3, 4]);
    assert_eq!(q.v, Vector3::new(1, 2, 3));
    assert_eq!(q.s, 4);
    let a: [i32; 4] = q.into();
    assert_eq!(a, [1, 2, 3, 4]);
    let t: (i32, i32, i32, i32) = q.into();
    assert_eq!(Quaternion::from(t), q);
}

#[test]
fn new_puts_scalar_part_first() {
    let q = Quaternion::new(4, 1, 2, 3);
    assert_eq!(q, Quaternion::from([1, 2, 3, 4]));
    assert_eq!(Quaternion::from_sv(4, Vector3::new(1, 2, 3)), q);
}

#[test]
fn component_access_follows_array_order() {
    let mut q = Quaternion::new(4, 1, 2, 3);
    assert_eq!(q.component_at(0), 1);
    assert_eq!(q.component_at(1), 2);
    assert_eq!(q.component_at(2), 3);
    assert_eq!(q.component_at(3), 4);
    q.set_component(0, 9);
    q.set_component(3, -7);
    assert_eq!(q.to_array(), [9, 2, 3, -7]);
    q.set_component(1, 8);
    q.set_component(2, 6);
    assert_eq!(q.to_tuple(), (9, 8, 6, -7));
}

#[test]
fn cast_keeps_values_in_range() {
    let q = Quaternion::<i64>::new(4, -1, 2, 3);
    assert_eq!(q.cast(), Some(Quaternion::<i32>::new(4, -1, 2, 3)));
    let edge = Quaternion::<i64>::new(i32::MAX as i64, i32::MIN as i64, 0, 1);
    assert_eq!(edge.cast(), Some(Quaternion::<i32>::new(i32::MAX, i32::MIN, 0, 1)));
}

#[test]
fn cast_fails_out_of_range() {
    assert_eq!(Quaternion::<i64>::new(i64::MAX, 0, 0, 0).cast(), None);
    assert_eq!(Quaternion::<i64>::new(0, 0, 0, i32::MAX as i64 + 1).cast(), None);
    assert_eq!(Quaternion::<i64>::new(0, i32::MIN as i64 - 1, 0, 0).cast(), None);
    assert_eq!(Quaternion::<i64>::new(0, 0, i64::MIN, 0).cast(), None);
}
