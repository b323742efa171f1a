use rtc::{Plane, Point, Ray, Shape, Sphere, Vector};

#[test]
fn intertesects_at_two_points() {
    let point = Point::new_point3D(0, 0, -5);
    let vector = Vector::new_vec3D(0, 0, 1);
    let ray = Ray::new(point, vector);
    let (t1, t2) = Sphere::intersect(&ray).unwrap();
    assert_eq!(4, t1);
    assert_eq!(6, t2);
}

#[test]
fn intertesects_at_tangent() {
    let point = Point::new_point3D(0, 1, -5);
    let vector = Vector::new_vec3D(0, 0, 1);
    let ray = Ray::new(point, vector);
    let (t1, t2) = Sphere::intersect(&ray).unwrap();
    assert_eq!(5, t1);
    assert_eq!(5, t2);
}

#[test]
fn misses() {
    let point = Point::new_point3D(0, 2, -5);
    let vector = Vector::new_vec3D(0, 0, 1);
    let ray = Ray::new(point, vector);
    let t = Sphere::intersect(&ray);
    assert_eq!(None, t);
}

#[test]
fn sphere_is_inside_ray() {
    let point = Point::new_point3D(0, 0, 0);
    let vector = Vector::new_vec3D(0, 0, 1);
    let ray = Ray::new(point, vector);
    let (t1, t2) = Sphere::intersect(&ray).unwrap();
    assert_eq!(-1, t1);
    assert_eq!(1, t2);
}

#[test]
fn sphere_is_behind_ray() {
    let point = Point::new_point3D(0, 0, 5);
    let vector = Vector::new_vec3D(0, 0, 1);
    let ray = Ray::new(point, vector);
    let (t1, t2) = Sphere::intersect(&ray).unwrap();
    assert_eq!(-6, t1);
    assert_eq!(-4, t2);
}

#[test]
fn ray_without_direction_meets_nothing() {
    let ray = Ray::new(Point::new_point3D(0, 0, 0), Vector::new_vec3D(0, 0, 0));
    assert_eq!(None, Sphere::intersect(&ray));
    assert!(Shape::Sphere.local_intersect(&ray).is_empty());
}

#[test]
fn roots_round_toward_zero() {
    // |(0, 0, -5) + t (0, 0, 2)| = 1 at t = 2 and t = 3.
    let ray = Ray::new(Point::new_point3D(0, 0, -5), Vector::new_vec3D(0, 0, 2));
    assert_eq!(Some((2, 3)), Sphere::intersect(&ray));
    // |(0, 0, -4) + t (0, 0, 3)| = 1 at t = 1 and t = 5/3, which rounds to 1.
    let ray = Ray::new(Point::new_point3D(0, 0, -4), Vector::new_vec3D(0, 0, 3));
    assert_eq!(Some((1, 1)), Sphere::intersect(&ray));
}

#[test]
fn normal_on_a_sphere_at_axis_points() {
    assert_eq!(Vector::new_vec3D(1, 0, 0), Sphere::normal_at(&Point::new_point3D(1, 0, 0)));
    assert_eq!(Vector::new_vec3D(0, 1, 0), Sphere::normal_at(&Point::new_point3D(0, 1, 0)));
    assert_eq!(Vector::new_vec3D(0, 0, 1), Shape::Sphere.local_normal_at(&Point::new_point3D(0, 0, 1)));
}

#[test]
fn plane_normal_is_constant() {
    let n = Vector::new_vec3D(0, 1, 0);
    assert_eq!(n, Plane::normal_at(&Point::new_point3D(0, 0, 0)));
    assert_eq!(n, Plane::normal_at(&Point::new_point3D(10, 0, -10)));
    assert_eq!(n, Shape::Plane.local_normal_at(&Point::new_point3D(-5, 0, 150)));
}

#[test]
fn plane_intersections() {
    // Parallel to the plane, and lying in it: nothing.
    let parallel = Ray::new(Point::new_point3D(0, 10, 0), Vector::new_vec3D(0, 0, 1));
    assert_eq!(None, Plane::intersect(&parallel));
    let coplanar = Ray::new(Point::new_point3D(0, 0, 0), Vector::new_vec3D(0, 0, 1));
    assert!(Shape::Plane.local_intersect(&coplanar).is_empty());
    // From above and from below.
    let above = Ray::new(Point::new_point3D(0, 1, 0), Vector::new_vec3D(0, -1, 0));
    assert_eq!(Some(vec![1]), Plane::intersect(&above));
    let below = Ray::new(Point::new_point3D(0, -1, 0), Vector::new_vec3D(0, 1, 0));
    assert_eq!(vec![1], Shape::Plane.local_intersect(&below));
    assert_eq!(Plane::new(), Plane {});
    assert_eq!(Sphere::new(), Sphere {});
}
