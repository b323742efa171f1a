use rtc::transformation::{scaling, translation};
use rtc::{intersect_world, Matrix, Object, Point, Ray, Shape, Vector};

#[test]
fn object_at_identity_meets_the_unit_sphere() {
    let ray = Ray::new(Point::new_point3D(0, 0, -5), Vector::new_vec3D(0, 0, 1));
    let object = Object::new_sphere();
    assert_eq!(vec![4, 6], object.intersects(&ray));
    assert_eq!(Shape::Sphere, object.shape());
    assert_eq!(Matrix::<4, 4>::iden(), object.transformation());
}

#[test]
fn translated_sphere_is_missed() {
    let ray = Ray::new(Point::new_point3D(0, 0, -5), Vector::new_vec3D(0, 0, 1));
    let mut object = Object::new_sphere();
    object.set_transformation(translation(5, 2, 2));
    assert!(object.intersects(&ray).is_empty());
}

#[test]
fn moved_plane() {
    let object = Object::new_plane().with_transformation(translation(0, 2, 0));
    let ray = Ray::new(Point::new_point3D(0, 5, 0), Vector::new_vec3D(0, -1, 0));
    assert_eq!(vec![3], object.intersects(&ray));
    assert_eq!(Shape::Plane, object.shape());
}

#[test]
fn mirrored_sphere_keeps_its_parameters() {
    // Mirroring has an exact integer inverse, and the unit sphere is symmetric.
    let object = Object::new(Shape::Sphere, scaling(-1, 1, 1));
    let ray = Ray::new(Point::new_point3D(-5, 0, 0), Vector::new_vec3D(1, 0, 0));
    assert_eq!(vec![4, 6], object.intersects(&ray));
}

#[test]
fn intersect_a_world_with_a_ray() {
    let objects = vec![
        Object::new_sphere().with_transformation(translation(0, 0, 3)),
        Object::new_sphere(),
        Object::new_plane().with_transformation(translation(0, -10, 0)),
    ];
    let ray = Ray::new(Point::new_point3D(0, 0, -5), Vector::new_vec3D(0, 0, 1));
    let xs = intersect_world(&objects, &ray);

    assert_eq!(4, xs.len());
    let pairs: Vec<(i64, usize)> = (0..4)
        .map(|i| {
            let x = xs.get(i).unwrap();
            (x.get_t(), x.get_object())
        })
        .collect();
    assert_eq!(vec![(4, 1), (6, 1), (7, 0), (9, 0)], pairs);

    let hit = xs.hit().unwrap();
    assert_eq!((4, 1), (hit.get_t(), hit.get_object()));
    // Entering the sphere at the origin from the vacuum.
    assert_eq!((None, Some(1)), xs.refraction_containers(0));
}

#[test]
fn world_behind_the_ray_has_no_hit() {
    let objects = vec![Object::new_sphere()];
    let ray = Ray::new(Point::new_point3D(0, 0, 5), Vector::new_vec3D(0, 0, 1));
    let xs = intersect_world(&objects, &ray);
    assert_eq!(2, xs.len());
    assert_eq!(None, xs.hit());
    assert_eq!(None, xs.hit_index());
}

#[test]
fn empty_world_has_no_intersections() {
    let objects: Vec<Object> = Vec::new();
    let ray = Ray::new(Point::new_point3D(0, 0, -5), Vector::new_vec3D(0, 0, 1));
    assert!(intersect_world(&objects, &ray).is_empty());
}

#[test]
fn concentric_glass_spheres_through_a_world() {
    // Spheres A, B and C of refractive indices 1.5, 2.0 and 2.5, four times the size of
    // a radius-2 sphere and two unit spheres moved by -0.25 and 0.25 along z.
    let objects = vec![
        Object::new_sphere().with_transformation(scaling(8, 8, 8)),
        Object::new_sphere().with_transformation(translation(0, 0, -1) * scaling(4, 4, 4)),
        Object::new_sphere().with_transformation(translation(0, 0, 1) * scaling(4, 4, 4)),
    ];
    let indices = [1.5, 2.0, 2.5];
    let ray = Ray::new(Point::new_point3D(0, 0, -16), Vector::new_vec3D(0, 0, 1));
    let xs = intersect_world(&objects, &ray);

    let pairs: Vec<(i64, usize)> = (0..xs.len())
        .map(|i| {
            let x = xs.get(i).unwrap();
            (x.get_t(), x.get_object())
        })
        .collect();
    assert_eq!(vec![(8, 0), (11, 1), (13, 2), (19, 1), (21, 2), (24, 0)], pairs);

    let index = |c: Option<usize>| c.map_or(1.0, |o| indices[o]);
    let expected = [(1.0, 1.5), (1.5, 2.0), (2.0, 2.5)];
    for (hit, pair) in expected.iter().enumerate() {
        let (n1, n2) = xs.refraction_containers(hit);
        assert_eq!(*pair, (index(n1), index(n2)));
    }
}

#[test]
fn adjugate_of_a_scaling() {
    let m = scaling(2, 3, 4);
    let expected = Matrix::from([[12, 0, 0, 0], [0, 8, 0, 0], [0, 0, 6, 0], [0, 0, 0, 24]]);
    assert_eq!(expected, m.adjugate::<3>());
    assert_eq!(m * m.adjugate::<3>(), Matrix::<4, 4>::iden() * 24);
}
