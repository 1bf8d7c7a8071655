use mathrs::InvalidIndex;
use mathrs::Vector;

#[test]
fn vector() {
    assert_eq!(
        Vector { x: 1.0, y: 1.0 }[0] * Vector { x: 1.0, y: 1.0 }[1],
        1.0
    );

    assert_eq!(!Vector { x: 1.0, y: 1.0 }, Vector { x: -1.0, y: -1.0 });

    assert_eq!(
        Vector { x: 1.0, y: 1.0 } + Vector { x: 1.0, y: 1.0 },
        Vector { x: 2.0, y: 2.0 }
    );
    assert_eq!(
        Vector { x: 3.14, y: 3.14 } - Vector { x: 3.14, y: 3.14 },
        Vector { x: 0.0, y: 0.0 }
    );
    assert_eq!(
        Vector { x: 0.5, y: 0.5 } * Vector { x: 2.0, y: 2.0 },
        Vector { x: 1.0, y: 1.0 }
    );

    assert_eq!(
        Vector { x: 1.0, y: 1.0 } * 2.22,
        Vector { x: 2.22, y: 2.22 }
    );

    assert_eq!(
        Vector { x: 9.99, y: 9.99 } / Vector { x: 9.99, y: 9.99 },
        Vector { x: 1.0, y: 1.0 }
    );

    assert_eq!(
        Vector { x: 1.0, y: 0.5 }.dot(Vector { x: 0.5, y: 1.0 }),
        1.0
    );

    assert_eq!(
        Vector { x: 1.0, y: 1.0 }.cross(),
        Vector { x: -1.0, y: 1.0 }
    );
}

#[test]
fn vector_index_reads_y_then_x() {
    let v = Vector { x: 1.11, y: 9.99 };
    assert_eq!(v[0], 9.99);
    assert_eq!(v[1], 1.11);
    assert_eq!(v.get(0), Ok(&9.99));
    assert_eq!(v.get(1), Ok(&1.11));
}

#[test]
fn vector_index_assignment() {
    let mut v1 = Vector { x: 0.0, y: 0.0 };
    v1[0] = 1.0;
    assert_eq!(v1, Vector { x: 0.0, y: 1.0 });
    v1[1] = 2.0;
    assert_eq!(v1, Vector { x: 2.0, y: 1.0 });
}

#[test]
fn vector_set_then_get() {
    let mut v = Vector { x: 3.0, y: 4.0 };
    assert_eq!(v.set(0, 7.5), Ok(()));
    assert_eq!(v.get(0), Ok(&7.5));
    assert_eq!(v.get(1), Ok(&3.0));
    assert_eq!(v.set(1, -2.5), Ok(()));
    assert_eq!(v.get(1), Ok(&-2.5));
    assert_eq!(v, Vector { x: -2.5, y: 7.5 });
}

#[test]
fn vector_rejects_index_two_and_above() {
    let mut v = Vector { x: 3.0, y: 4.0 };
    assert_eq!(v.get(2), Err(InvalidIndex { index: 2 }));
    assert_eq!(v.get(255), Err(InvalidIndex { index: 255 }));
    assert_eq!(v.set(2, 9.0), Err(InvalidIndex { index: 2 }));
    assert_eq!(v.set(200, 9.0), Err(InvalidIndex { index: 200 }));
    assert_eq!(v, Vector { x: 3.0, y: 4.0 });
}

#[test]
fn vector_equality() {
    assert_eq!(Vector { x: 0.0, y: 0.0 } == Vector { x: 0.0, y: 0.0 }, true);
    assert_eq!(Vector { x: 0.0, y: 1.0 } == Vector { x: 0.0, y: 0.0 }, false);
    assert_eq!(Vector { x: 1.0, y: 0.0 } == Vector { x: 0.0, y: 0.0 }, false);
    assert_eq!(Vector { x: 0.0, y: -0.0 } == Vector { x: -0.0, y: 0.0 }, true);
}

#[test]
fn vector_with_nan_equals_nothing() {
    let v = Vector { x: f64::NAN, y: 1.0 };
    assert!(v != v);
    assert!(!(v == Vector { x: f64::NAN, y: 1.0 }));
}

#[test]
fn vector_negated_twice_is_itself() {
    for v in [
        Vector { x: 1.0, y: 1.0 },
        Vector { x: -3.25, y: 0.0 },
        Vector { x: 1.0e300, y: -5.0e-324 },
        Vector { x: f64::MAX, y: f64::MIN_POSITIVE },
    ] {
        assert_eq!(!!v, v);
    }
    let w = Vector { x: 7i32, y: -9i32 };
    assert_eq!(!w, Vector { x: -7, y: 9 });
    assert_eq!(!!w, w);
}

#[test]
fn vector_sum_commutes() {
    let a = Vector { x: 0.1, y: 1.0e16 };
    let b = Vector { x: 0.2, y: -1.0 };
    assert_eq!(a + b, b + a);
    assert_eq!(a + b, Vector { x: 0.1 + 0.2, y: 1.0e16 - 1.0 });
    let p = Vector { x: 2i64, y: -3i64 };
    let q = Vector { x: 40i64, y: 50i64 };
    assert_eq!(p + q, Vector { x: 42, y: 47 });
    assert_eq!(q + p, Vector { x: 42, y: 47 });
}

#[test]
fn vector_minus_itself_is_zero() {
    for v in [
        Vector { x: 3.14, y: 3.14 },
        Vector { x: -1.0e308, y: 2.5e-310 },
        Vector { x: 0.0, y: -0.0 },
    ] {
        assert_eq!(v - v, Vector { x: 0.0, y: 0.0 });
    }
    let w = Vector { x: 12u8, y: 255u8 };
    assert_eq!(w - w, Vector { x: 0, y: 0 });
}

#[test]
fn vector_difference() {
    assert_eq!(
        Vector { x: 1.0, y: 1.0 } - Vector { x: 1.0, y: 1.0 },
        Vector { x: 0.0, y: 0.0 }
    );
    assert_eq!(
        Vector { x: 5.5, y: -1.0 } - Vector { x: 0.5, y: 2.0 },
        Vector { x: 5.0, y: -3.0 }
    );
}

#[test]
fn vector_products_and_quotients() {
    assert_eq!(
        Vector { x: 3.0, y: -4.0 } * Vector { x: 0.5, y: 0.25 },
        Vector { x: 1.5, y: -1.0 }
    );
    assert_eq!(Vector { x: 1.0, y: 1.0 } * 2.0, Vector { x: 2.0, y: 2.0 });
    assert_eq!(
        Vector { x: 3.0, y: -4.0 } / Vector { x: 2.0, y: 8.0 },
        Vector { x: 1.5, y: -0.5 }
    );
    assert_eq!(Vector { x: 9.99, y: 9.99 } / 9.99, Vector { x: 1.0, y: 1.0 });
    assert_eq!(Vector { x: 7i32, y: -7i32 } / 2, Vector { x: 3, y: -3 });
    assert_eq!(Vector { x: 7i32, y: -7i32 } * 3, Vector { x: 21, y: -21 });
}

#[test]
fn vector_division_by_zero_is_no_error() {
    let q = Vector { x: 1.0, y: -1.0 } / 0.0;
    assert_eq!(q, Vector { x: f64::INFINITY, y: f64::NEG_INFINITY });
    let n: Vector<f64> = Vector { x: 0.0, y: 2.0 } / Vector { x: 0.0, y: 0.0 };
    assert!(n.x.is_nan());
    assert_eq!(n.y, f64::INFINITY);
}

#[test]
fn vector_dot_is_the_sum_of_products() {
    assert_eq!(Vector { x: 3.0, y: 4.0 }.dot(Vector { x: 3.0, y: 4.0 }), 25.0);
    assert_eq!(Vector { x: 1.0, y: 0.0 }.dot(Vector { x: 0.0, y: 1.0 }), 0.0);
    assert_eq!(Vector { x: 2.0, y: 3.0 }.dot(Vector { x: 5.0, y: 7.0 }), 31.0);
    assert_eq!(Vector { x: 2i64, y: 3 }.dot(Vector { x: 5, y: 7 }), 31);
    assert_eq!(Vector { x: -2i64, y: 3 }.dot(Vector { x: 5, y: -7 }), -31);
}

#[test]
fn vector_cross_twice_is_the_opposite() {
    let v = Vector { x: 1.0, y: 1.0 };
    assert_eq!(v.cross().cross(), Vector { x: -1.0, y: -1.0 });
    assert_eq!(v.cross().cross(), !v);
    let w = Vector { x: 2.5, y: -7.0 };
    assert_eq!(w.cross(), Vector { x: 7.0, y: 2.5 });
    assert_eq!(w.cross().cross(), !w);
}

#[test]
fn vector_cross_four_times_is_itself() {
    for v in [
        Vector { x: 1.0, y: 1.0 },
        Vector { x: 2.5, y: -7.0 },
        Vector { x: 0.0, y: 1.0e-320 },
    ] {
        assert_eq!(v.cross().cross().cross().cross(), v);
    }
    let w = Vector { x: 3i16, y: -4i16 };
    assert_eq!(w.cross(), Vector { x: 4, y: 3 });
    assert_eq!(w.cross().cross().cross().cross(), w);
}

#[test]
fn vector_scaled_then_divided_is_close_to_itself() {
    let v: Vector<f64> = Vector { x: 3.14, y: -2.71 };
    for k in [2.22, -0.001, 1.0e10, 3.0, 0.1] {
        let w = (v * k) / k;
        assert!((w.x - v.x).abs() <= 4.0 * f64::EPSILON * v.x.abs());
        assert!((w.y - v.y).abs() <= 4.0 * f64::EPSILON * v.y.abs());
    }
    assert_eq!((Vector { x: 3.0, y: -5.0 } * 4.0) / 4.0, Vector { x: 3.0, y: -5.0 });
    assert_eq!((Vector { x: 3i32, y: -5i32 } * 4) / 4, Vector { x: 3, y: -5 });
}
