use rtc::tuple::point::Point;
use rtc::tuple::vector::Vector;

#[test]
fn point_test_add() {
    // Coordinates in tenths: (1.1, 2.2, 3.3) + (1.0, 5.0, 10.0).
    let v = Point::new_point3(11, 22, 33);
    let p = Point::new_point3(10, 50, 100);

    let res = p + v;
    let expected = Point::new_point3(21, 72, 133);
    assert_eq!(res, expected);
}

#[test]
fn point_test_sub() {
    let v = Point::from([1, 2, 3, 4, 5]);
    let p = Point::from([5, 4, 3, 2, 1]);

    let res = p - v;

    let expected = Vector::from([4, 2, 0, -2, -4]);
    assert_eq!(res, expected);
}

#[test]
fn point_test_mul() {
    // Coordinates in tenths: (1.1, 2.2, 3.3) * 10.
    let v = Point::new_point3(11, 22, 33);

    let res = v * 10;
    let expected = Point::new_point3(110, 220, 330);
    assert_eq!(res, expected);
}

#[test]
fn point_new_get_and_set() {
    let mut p: Point<3> = Point::new();
    assert_eq!(p, Point::new_point3(0, 0, 0));
    *p.get_mut(1).unwrap() = 7;
    assert!(p.get_mut(3).is_none());
    assert_eq!(Some(&7), p.get(1));
    assert_eq!(None, p.get(3));
    assert_eq!([0, 7, 0], p.to_array());
}

#[test]
fn point_homogeneous_and_moves() {
    let p = Point::new_point3D(1, 2, 3);
    assert_eq!([1, 2, 3, 1], p.to_array());
    let v = Vector::new_vec3D(5, 5, 5);
    assert_eq!(Point::new_point3D(6, 7, 8), p + v);
    assert_eq!(Point::new_point3D(-4, -3, -2), p - v);
    assert_eq!(Point::from([-1, -2, -3, -1]), -p);
    assert_eq!(Point::from([3, -3, 0]), Point::from([7, -7, 1]) / 2);
}
