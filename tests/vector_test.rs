use rtc::tuple::{point::Point, vector::Vector};
use rtc::tuple::utils::Sqrt;
use rtc::{ApproximateEq, One, Zero};

#[test]
fn vector_test_add() {
    // Coordinates in tenths: (1.1, 2.2, 3.3) + (1.0, 5.0, 10.0).
    let v = Vector::new_vec3(11, 22, 33);
    let p = Vector::new_vec3(10, 50, 100);

    let res = p + v;
    let expected = Vector::new_vec3(21, 72, 133);
    assert_eq!(res, expected);
}

#[test]
fn vector_test_sub() {
    let v = Vector::from([1, 2, 3, 4, 5]);
    let p = Vector::from([5, 4, 3, 2, 1]);

    let res = p - v;

    let expected = Vector::from([4, 2, 0, -2, -4]);
    assert_eq!(res, expected);
}

#[test]
fn sub_vector_point() {
    let p = Point::new_point3(3, 2, 1);
    let v = Vector::new_vec3(5, 6, 7);

    let mut res = p - v;
    let expected1 = Point::new_point3(-2, -4, -6);
    assert_eq!(res, expected1);

    res = v - p;
    let expected2 = Point::new_point3(2, 4, 6);
    assert_eq!(res, expected2);
}

#[test]
fn magnitude() {
    // The integer square root of 14.
    let mut v = Vector::new_vec3(1, 2, 3);
    let res = 3;
    assert_eq!(res, v.magnitude());

    v = Vector::new_vec3(-1, -2, -3);
    assert_eq!(res, v.magnitude());

    assert_eq!(5, Vector::new_vec3(0, 3, 4).magnitude());
}

#[test]
fn normalize() {
    // Each coordinate divided by the integer magnitude 3, rounding toward zero.
    let v = Vector::new_vec3(1, 2, 3);
    let res = Vector::new_vec3(0, 0, 1);
    assert_eq!(res, v.normalize());

    assert_eq!(Vector::new_vec3(0, 0, -1), Vector::new_vec3(0, 0, -9).normalize());
}

#[test]
fn cross_product() {
    let v = Vector::new_vec3(1, 2, 3);
    let p = Vector::new_vec3(2, 3, 4);

    let mut res = v | p;
    let expected1 = Vector::new_vec3(-1, 2, -1);
    let expected2 = Vector::new_vec3(1, -2, 1);
    assert_eq!(res, expected1);

    res = p | v;
    assert_eq!(res, expected2);
    assert_eq!(expected1, v.cross_produtc(p));
}

#[test]
fn dot_product() {
    let v = Vector::new_vec3(1, 2, 3);
    let p = Vector::new_vec3(2, 3, 4);

    let res = v * p;
    let expected = 20;
    assert_eq!(res, expected);
}

#[test]
fn reflection() {
    let v = Vector::new_vec3(1, -1, 0);
    let n = Vector::new_vec3(0, 1, 0);
    let res = v.reflect(&n);

    let expected = Vector::new_vec3(1, 1, 0);

    assert_eq!(expected, res);
}

#[test]
fn reflection_flips_the_normal_component() {
    let n = Vector::new_vec3(0, 0, -1);
    for v in [Vector::new_vec3(3, -4, 5), Vector::new_vec3(0, 0, 0), Vector::new_vec3(-7, 2, -9)] {
        let r = v.reflect(&n);
        assert_eq!(r * n, -(v * n));
    }
    let r = Vector::new_vec3(3, -4, 5).reflect(&n);
    assert_eq!(Vector::new_vec3(3, -4, -5), r);
}

#[test]
fn vector_test_mul() {
    // Coordinates in tenths: (1.1, 2.2, 3.3) * 10.
    let v = Vector::new_vec3(11, 22, 33);

    let res = v * 10;
    let expected = Vector::new_vec3(110, 220, 330);
    assert_eq!(res, expected);
}

#[test]
fn div() {
    let v = Vector::new_vec3(10, 20, 30);

    let res = v / 10;
    let expected = Vector::new_vec3(1, 2, 3);
    assert_eq!(res, expected);
}

#[test]
fn vector_new_get_neg() {
    let v: Vector<4> = Vector::new();
    assert_eq!(Vector::from([0, 0, 0, 0]), v);
    let w = Vector::new_vec3D(1, -2, 3);
    assert_eq!(Some(&-2), w.get(1));
    assert_eq!(None, w.get(4));
    assert_eq!(Vector::new_vec3D(-1, 2, -3), -w);
}

#[test]
fn integer_square_root() {
    assert_eq!(0, <i64 as Sqrt>::sqrt(-4));
    assert_eq!(0, <i64 as Sqrt>::sqrt(0));
    assert_eq!(3, <i64 as Sqrt>::sqrt(15));
    assert_eq!(4, <i64 as Sqrt>::sqrt(16));
    assert_eq!(3037000499, <i64 as Sqrt>::sqrt(i64::MAX));
    assert_eq!(46340, <i32 as Sqrt>::sqrt(i32::MAX));
}

#[test]
fn identities_and_exact_equality() {
    assert_eq!(0, <i64 as Zero>::zero());
    assert_eq!(1, <i64 as One>::one());
    assert_eq!(1, <i32 as One>::one());
    assert_eq!(0usize, <usize as Zero>::zero());
    assert!(5i64.approx_eq(&5));
    assert!(!5i64.approx_eq_low(&6));
    assert!(5i32.approx_eq_low(&5));
}
