use rtc::transformation::{scaling, translation};
use rtc::{Object, Point, Ray, Sphere, Vector};

#[test]
fn distance() {
    let point = Point::new_point3D(2, 3, 4);
    let vector = Vector::new_vec3D(1, 0, 0);
    let ray = Ray::new(point, vector);

    assert_eq!(Point::new_point3D(2, 3, 4), ray.position(0));
    assert_eq!(Point::new_point3D(3, 3, 4), ray.position(1));
    assert_eq!(Point::new_point3D(1, 3, 4), ray.position(-1));
    assert_eq!(Point::new_point3D(7, 3, 4), ray.position(5));
}

#[test]
fn translating_a_ray() {
    let mut point = Point::new_point3D(1, 2, 3);
    let vector = Vector::new_vec3D(0, 1, 0);
    let transformation = translation(3, 4, 5);
    let ray = Ray::new(point, vector);
    let result = ray.transform(&transformation);
    point = Point::new_point3D(4, 6, 8);
    let expected = Ray::new(point, vector);

    assert_eq!(expected, result);
}

#[test]
fn scaling_a_ray() {
    let mut point = Point::new_point3D(1, 2, 3);
    let mut vector = Vector::new_vec3D(0, 1, 0);
    let transformation = scaling(2, 3, 4);
    let ray = Ray::new(point, vector);
    let result = ray.transform(&transformation);
    point = Point::new_point3D(2, 6, 12);
    vector = Vector::new_vec3D(0, 3, 0);
    let expected = Ray::new(point, vector);

    assert_eq!(expected, result);
}

#[test]
fn interesecting_a_scaled_sphere() {
    let point = Point::new_point3D(0, 0, -5);
    let vector = Vector::new_vec3D(0, 0, 1);
    let ray = Ray::new(point, vector);
    let mut object = Object::new_sphere();
    object.set_transformation(scaling(2, 2, 2));
    let ts = object.intersects(&ray);
    assert_eq!(2, ts.len());
    assert_eq!(3, ts[0]);
    assert_eq!(7, ts[1]);
}

#[test]
fn interesecting_a_translated_sphere() {
    let point = Point::new_point3D(0, 0, -5);
    let vector = Vector::new_vec3D(0, 0, 1);
    let ray = Ray::new(point, vector);
    // The sphere moved to (5, 2, 2): the ray goes into its object space by the inverse.
    let inverse = translation(5, 2, 2).inverse::<3>();
    assert_eq!(translation(-5, -2, -2), inverse);
    let result = Sphere::intersect(&ray.transform(&inverse));
    assert_eq!(None, result);

    let mut object = Object::new_sphere();
    object.set_transformation(translation(5, 2, 2));
    assert!(object.intersects(&ray).is_empty());
}

#[test]
fn interesecting_a_sphere_moved_along_the_ray() {
    let ray = Ray::new(Point::new_point3D(0, 0, -5), Vector::new_vec3D(0, 0, 1));
    let inverse = translation(0, 0, 3).inverse::<3>();
    assert_eq!(Some((7, 9)), Sphere::intersect(&ray.transform(&inverse)));
}

#[test]
fn ray_new_sets_homogeneous_coordinates() {
    let ray = Ray::new(Point::from([1, 2, 3, 9]), Vector::from([4, 5, 6, 9]));
    assert_eq!(Point::new_point3D(1, 2, 3), ray.origin);
    assert_eq!(Vector::new_vec3D(4, 5, 6), ray.direction);
}
