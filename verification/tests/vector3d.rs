use mathrs::InvalidIndex;
use mathrs::Vector;
use mathrs::Vector3D;

#[test]
fn vector3d() {
    assert_eq!(
        Vector { x: 1.0, y: 1.0 }[0] * Vector { x: 1.0, y: 1.0 }[1],
        1.0
    );

    assert_eq!(!Vector { x: 1.0, y: 1.0 }, Vector { x: -1.0, y: -1.0 });

    assert_eq!(
        Vector { x: 1.0, y: 1.0 } + Vector { x: 1.0, y: 1.0 },
        Vector { x: 2.0, y: 2.0 }
    );
    assert_eq!(
        Vector { x: 3.14, y: 3.14 } - Vector { x: 3.14, y: 3.14 },
        Vector { x: 0.0, y: 0.0 }
    );
    assert_eq!(
        Vector { x: 0.5, y: 0.5 } * Vector { x: 2.0, y: 2.0 },
        Vector { x: 1.0, y: 1.0 }
    );

    assert_eq!(
        Vector { x: 1.0, y: 1.0 } * 2.22,
        Vector { x: 2.22, y: 2.22 }
    );

    assert_eq!(
        Vector { x: 9.99, y: 9.99 } / Vector { x: 9.99, y: 9.99 },
        Vector { x: 1.0, y: 1.0 }
    );

    assert_eq!(
        Vector { x: 1.0, y: 0.5 }.dot(Vector { x: 0.5, y: 1.0 }),
        1.0
    );

    assert_eq!(
        Vector { x: 1.0, y: 1.0 }.cross(),
        Vector { x: -1.0, y: 1.0 }
    );

    assert_eq!(
        Vector3D { x: 1.0, y: 1.0, z: 1.0 }[0] * Vector3D { x: 1.0, y: 1.0, z: 1.0 }[2],
        1.0
    );
    assert_eq!(
        !Vector3D { x: 1.0, y: 1.0, z: 1.0 },
        Vector3D { x: -1.0, y: -1.0, z: -1.0 }
    );
    assert_eq!(
        Vector3D { x: 1.0, y: 1.0, z: 1.0 } + Vector3D { x: 1.0, y: 1.0, z: 1.0 },
        Vector3D { x: 2.0, y: 2.0, z: 2.0 }
    );
    assert_eq!(
        Vector3D { x: 1.0, y: 1.0, z: 1.0 } - Vector3D { x: 1.0, y: 1.0, z: 1.0 },
        Vector3D { x: 0.0, y: 0.0, z: 0.0 }
    );
    assert_eq!(
        Vector3D { x: 0.5, y: 0.5, z: 0.5 } * Vector3D { x: 2.0, y: 2.0, z: 2.0 },
        Vector3D { x: 1.0, y: 1.0, z: 1.0 }
    );
    assert_eq!(
        Vector3D { x: 1.0, y: 1.0, z: 1.0 } * 2.0,
        Vector3D { x: 2.0, y: 2.0, z: 2.0 }
    );
    assert_eq!(
        Vector3D { x: 9.99, y: 9.99, z: 9.99 } / Vector3D { x: 9.99, y: 9.99, z: 9.99 },
        Vector3D { x: 1.0, y: 1.0, z: 1.0 }
    );
    assert_eq!(
        Vector3D { x: 9.99, y: 9.99, z: 9.99 } / 9.99,
        Vector3D { x: 1.0, y: 1.0, z: 1.0 }
    );
}

#[test]
fn vector3d_index_reads_z_then_y_then_x() {
    let v = Vector3D { x: 1.11, y: 2.22, z: 3.33 };
    assert_eq!(v[0], 3.33);
    assert_eq!(v[1], 2.22);
    assert_eq!(v[2], 1.11);
    assert_eq!(v.get(0), Ok(&3.33));
    assert_eq!(v.get(1), Ok(&2.22));
    assert_eq!(v.get(2), Ok(&1.11));
}

#[test]
fn vector3d_index_assignment() {
    let mut v1 = Vector3D { x: 0.0, y: 0.0, z: 0.0 };
    v1[0] = 1.0;
    assert_eq!(v1, Vector3D { x: 0.0, y: 0.0, z: 1.0 });
    v1[1] = 2.0;
    v1[2] = 3.0;
    assert_eq!(v1, Vector3D { x: 3.0, y: 2.0, z: 1.0 });
}

#[test]
fn vector3d_set_then_get() {
    let mut v = Vector3D { x: 1.0, y: 2.0, z: 3.0 };
    assert_eq!(v.set(0, 30.0), Ok(()));
    assert_eq!(v.get(0), Ok(&30.0));
    assert_eq!(v, Vector3D { x: 1.0, y: 2.0, z: 30.0 });
    assert_eq!(v.set(1, 20.0), Ok(()));
    assert_eq!(v.get(1), Ok(&20.0));
    assert_eq!(v.set(2, 10.0), Ok(()));
    assert_eq!(v.get(2), Ok(&10.0));
    assert_eq!(v, Vector3D { x: 10.0, y: 20.0, z: 30.0 });
}

#[test]
fn vector3d_rejects_index_three_and_above() {
    let mut v = Vector3D { x: 1.0, y: 2.0, z: 3.0 };
    assert_eq!(v.get(3), Err(InvalidIndex { index: 3 }));
    assert_eq!(v.get(255), Err(InvalidIndex { index: 255 }));
    assert_eq!(v.set(3, 9.0), Err(InvalidIndex { index: 3 }));
    assert_eq!(v.set(77, 9.0), Err(InvalidIndex { index: 77 }));
    assert_eq!(v, Vector3D { x: 1.0, y: 2.0, z: 3.0 });
}

#[test]
fn vector3d_equality() {
    let zero = Vector3D { x: 0.0, y: 0.0, z: 0.0 };
    assert_eq!(zero == Vector3D { x: 0.0, y: 0.0, z: 0.0 }, true);
    assert_eq!(zero == Vector3D { x: 1.0, y: 0.0, z: 0.0 }, false);
    assert_eq!(zero == Vector3D { x: 0.0, y: 1.0, z: 0.0 }, false);
    assert_eq!(zero == Vector3D { x: 0.0, y: 0.0, z: 1.0 }, false);
    let n = Vector3D { x: 0.0, y: 0.0, z: f64::NAN };
    assert!(n != n);
}

#[test]
fn vector3d_negated_twice_is_itself() {
    for v in [
        Vector3D { x: 1.0, y: 0.5, z: 1.5 },
        Vector3D { x: -1.0e-300, y: 0.0, z: f64::MAX },
    ] {
        assert_eq!(!!v, v);
    }
    let w = Vector3D { x: 1i64, y: -2i64, z: 3i64 };
    assert_eq!(!w, Vector3D { x: -1, y: 2, z: -3 });
    assert_eq!(!!w, w);
}

#[test]
fn vector3d_sum_commutes() {
    let a = Vector3D { x: 0.1, y: 0.7, z: -1.0e16 };
    let b = Vector3D { x: 0.2, y: 0.1, z: 1.0 };
    assert_eq!(a + b, b + a);
    let p = Vector3D { x: 1i32, y: 2i32, z: 3i32 };
    let q = Vector3D { x: 10i32, y: 20i32, z: 30i32 };
    assert_eq!(p + q, Vector3D { x: 11, y: 22, z: 33 });
    assert_eq!(q + p, Vector3D { x: 11, y: 22, z: 33 });
}

#[test]
fn vector3d_minus_itself_is_zero() {
    for v in [
        Vector3D { x: 3.14, y: 2.71, z: 1.41 },
        Vector3D { x: -1.0e308, y: 2.5e-310, z: 0.0 },
    ] {
        assert_eq!(v - v, Vector3D { x: 0.0, y: 0.0, z: 0.0 });
    }
}

#[test]
fn vector3d_dot_is_the_sum_of_products() {
    let v1 = Vector3D { x: 1.0, y: 0.5, z: 1.5 };
    let v2 = Vector3D { x: 1.5, y: 1.0, z: 0.5 };
    assert_eq!(v1.dot(v2), 2.75);
    assert_eq!(
        Vector3D { x: 1i64, y: 2, z: 3 }.dot(Vector3D { x: 4, y: 5, z: 6 }),
        32
    );
    assert_eq!(
        Vector3D { x: 1.0, y: 0.0, z: 0.0 }.dot(Vector3D { x: 0.0, y: 1.0, z: 0.0 }),
        0.0
    );
}

#[test]
fn vector3d_cross_product() {
    let v1 = Vector3D { x: 1.0, y: 0.5, z: 1.5 };
    let v2 = Vector3D { x: 0.5, y: 2.0, z: 1.0 };
    assert_eq!(v1.cross(v2), Vector3D { x: -2.5, y: -0.25, z: 1.75 });
    let ex = Vector3D { x: 1.0, y: 0.0, z: 0.0 };
    let ey = Vector3D { x: 0.0, y: 1.0, z: 0.0 };
    let ez = Vector3D { x: 0.0, y: 0.0, z: 1.0 };
    assert_eq!(ex.cross(ey), ez);
    assert_eq!(ey.cross(ez), ex);
    assert_eq!(ez.cross(ex), ey);
    assert_eq!(
        Vector3D { x: 1i64, y: 2, z: 3 }.cross(Vector3D { x: 4, y: 5, z: 6 }),
        Vector3D { x: -3, y: 6, z: -3 }
    );
}

#[test]
fn vector3d_cross_changes_sign_with_the_order() {
    let v1 = Vector3D { x: 1.0, y: 0.5, z: 1.5 };
    let v2 = Vector3D { x: 0.5, y: 2.0, z: 1.0 };
    assert_eq!(v1.cross(v2), !v2.cross(v1));
    assert_eq!(v2.cross(v1), Vector3D { x: 2.5, y: 0.25, z: -1.75 });
    let a = Vector3D { x: 7i32, y: -2, z: 5 };
    let b = Vector3D { x: -3i32, y: 4, z: 9 };
    assert_eq!(a.cross(b), !b.cross(a));
}

#[test]
fn vector3d_cross_with_itself_is_zero() {
    for v in [
        Vector3D { x: 1.0, y: 0.5, z: 1.5 },
        Vector3D { x: -3.14, y: 2.71, z: 1.0e100 },
    ] {
        assert_eq!(v.cross(v), Vector3D { x: 0.0, y: 0.0, z: 0.0 });
    }
}

#[test]
fn vector3d_scaled_then_divided_is_close_to_itself() {
    let v: Vector3D<f64> = Vector3D { x: 3.14, y: -2.71, z: 1.41 };
    for k in [2.22, -0.001, 1.0e10, 3.0] {
        let w = (v * k) / k;
        assert!((w.x - v.x).abs() <= 4.0 * f64::EPSILON * v.x.abs());
        assert!((w.y - v.y).abs() <= 4.0 * f64::EPSILON * v.y.abs());
        assert!((w.z - v.z).abs() <= 4.0 * f64::EPSILON * v.z.abs());
    }
}
