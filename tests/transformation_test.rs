use rtc::transformation::{scaling, shearing, translation};
use rtc::{Point, Vector};

#[test]
fn translate_point() {
    let p = Point::new_point3D(-3, 4, 5);
    let transform = translation(5, -3, 2);
    let mut expected = Point::new_point3D(2, 1, 7);
    let mut res = transform * p;

    assert_eq!(expected, res);

    let inv = transform.inverse::<3>();
    res = inv * p;
    expected = Point::new_point3D(-8, 7, 3);

    assert_eq!(expected, res);
}

#[test]
fn translate_vectors() {
    let transform = translation(5, -3, 2);
    let v = Vector::new_vec3D(-3, 4, 5);

    assert_eq!(transform * v, v);
}

#[test]
fn scaling_point() {
    let transform = scaling(2, 3, 4);
    let p = Point::new_point3D(-4, 6, 8);
    let expected = Point::new_point3D(-8, 18, 32);

    assert_eq!(expected, transform * p);
}

#[test]
fn scaling_vector() {
    let transform = scaling(2, 3, 4);
    let v = Vector::new_vec3D(-4, 6, 8);
    let expected = Vector::new_vec3D(-8, 18, 32);

    assert_eq!(expected, transform * v);
    assert_eq!(24, transform.det());
}

#[test]
fn reflecting_point() {
    let transform = scaling(-1, 1, 1);
    let p = Point::new_point3D(2, 3, 4);
    let expected = Point::new_point3D(-2, 3, 4);

    assert_eq!(expected, transform * p);
}

#[test]
fn shearing_x_in_y() {
    let p = Point::new_point3D(2, 3, 4);
    let transform = shearing(1, 0, 0, 0, 0, 0);
    let expected = Point::new_point3D(5, 3, 4);
    assert_eq!(expected, transform * p);
}

#[test]
fn shearing_x_in_z() {
    let p = Point::new_point3D(2, 3, 4);
    let transform = shearing(0, 1, 0, 0, 0, 0);
    let expected = Point::new_point3D(6, 3, 4);
    assert_eq!(expected, transform * p);
}

#[test]
fn shearing_y_in_x() {
    let p = Point::new_point3D(2, 3, 4);
    let transform = shearing(0, 0, 1, 0, 0, 0);
    let expected = Point::new_point3D(2, 5, 4);
    assert_eq!(expected, transform * p);
}

#[test]
fn shearing_y_in_z() {
    let p = Point::new_point3D(2, 3, 4);
    let transform = shearing(0, 0, 0, 1, 0, 0);
    let expected = Point::new_point3D(2, 7, 4);
    assert_eq!(expected, transform * p);
}

#[test]
fn shearing_z_in_x() {
    let p = Point::new_point3D(2, 3, 4);
    let transform = shearing(0, 0, 0, 0, 1, 0);
    let expected = Point::new_point3D(2, 3, 6);
    assert_eq!(expected, transform * p);
}

#[test]
fn shearing_z_in_y() {
    let p = Point::new_point3D(2, 3, 4);
    let transform = shearing(0, 0, 0, 0, 0, 1);
    let expected = Point::new_point3D(2, 3, 7);
    assert_eq!(expected, transform * p);
}
