use rtc::{Intersection, Intersections};

#[test]
fn all_inter_are_positive() {
    let object = 0;
    let i1 = Intersection::new(1, object);
    let i2 = Intersection::new(2, object);
    let mut inters = Intersections::new();
    inters.add(i1);
    inters.add(i2);

    assert_eq!(Some(&i1), inters.hit());
}

#[test]
fn when_some_inter_are_negative() {
    let object = 0;
    let i1 = Intersection::new(-1, object);
    let i2 = Intersection::new(1, object);
    let mut inters = Intersections::new();
    inters.add(i1);
    inters.add(i2);

    assert_eq!(Some(&i2), inters.hit());
}

#[test]
fn all_inter_are_negative() {
    let object = 0;
    let i1 = Intersection::new(-1, object);
    let i2 = Intersection::new(-2, object);
    let mut inters = Intersections::new();
    inters.add(i1);
    inters.add(i2);

    assert_eq!(None, inters.hit());
}

#[test]
fn the_hit_is_always_the_lowest_nonnegative() {
    let object = 0;
    let i1 = Intersection::new(5, object);
    let i2 = Intersection::new(7, object);
    let i3 = Intersection::new(-3, object);
    let i4 = Intersection::new(2, object);
    let mut inters = Intersections::new();
    inters.add(i1);
    inters.add(i2);
    inters.add(i3);
    inters.add(i4);

    assert_eq!(Some(&i4), inters.hit());
    assert_eq!(Some(1), inters.hit_index());
}

#[test]
fn hit_at_zero_counts() {
    let inters = Intersections::from(vec![Intersection::new(3, 1), Intersection::new(0, 2)]);
    assert_eq!(Some(&Intersection::new(0, 2)), inters.hit());
}

#[test]
fn from_sorts_by_t_and_keeps_equal_ts() {
    let inters = Intersections::from(vec![
        Intersection::new(4, 0),
        Intersection::new(-1, 1),
        Intersection::new(4, 2),
        Intersection::new(2, 3),
    ]);
    assert_eq!(4, inters.len());
    assert!(!inters.is_empty());
    let ts: Vec<i64> = (0..4).map(|i| inters.get(i).unwrap().get_t()).collect();
    assert_eq!(vec![-1, 2, 4, 4], ts);
    let objects: Vec<usize> = (0..4).map(|i| inters.get(i).unwrap().get_object()).collect();
    assert_eq!(vec![1, 3, 0, 2], objects);
    assert_eq!(None, inters.get(4));
    assert!(Intersections::new().is_empty());
}

/// The refractive index of the medium inside `container`, vacuum where there is none.
fn index_of(container: Option<usize>, indices: &[f64]) -> f64 {
    match container {
        Some(o) => indices[o],
        None => 1.0,
    }
}

#[test]
fn finding_n1_n2_at_various_intersection() {
    // Three nested glass spheres A, B and C, pierced along the z axis.
    let object_a = 0;
    let object_b = 1;
    let object_c = 2;
    let indices = [1.5, 2.0, 2.5];

    // The ray parameters in quarters: 2.0, 2.75, 3.25, 4.75, 5.25, 6.0.
    let mut xs = Intersections::new();
    xs.add(Intersection::new(8, object_a));
    xs.add(Intersection::new(11, object_b));
    xs.add(Intersection::new(13, object_c));
    xs.add(Intersection::new(19, object_b));
    xs.add(Intersection::new(21, object_c));
    xs.add(Intersection::new(24, object_a));

    let expected = [(1.0, 1.5), (1.5, 2.0), (2.0, 2.5), (2.5, 2.5), (2.5, 1.5), (1.5, 1.0)];
    for (hit, pair) in expected.iter().enumerate() {
        let (n1, n2) = xs.refraction_containers(hit);
        assert_eq!(*pair, (index_of(n1, &indices), index_of(n2, &indices)));
    }
}
