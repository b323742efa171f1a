use vstd::prelude::*;

use crate::ray::Ray;
use crate::tuple::point::Point;
use crate::tuple::utils::{floor_sqrt, isqrt};
use crate::tuple::vector::Vector;
use crate::tuple::{dot, dot_arrays, dot_fits, fits, fits_sym, trunc_div, trunc_quot};

verus! {

/// The vector from the center of a sphere (the origin) to the point `o`, whose last
/// coordinate is `k` for a point of space.
pub open spec fn sphere_offset(o: Seq<i64>, k: int) -> Seq<i64> {
    seq![o[0], o[1], o[2], (o[3] - k) as i64]
}

/// `a` of `a t^2 + b t + c = 0`, whose roots are where the ray from `o` along `d` meets
/// the sphere of radius `k` about the origin (the unit sphere seen with every coordinate
/// multiplied by `k`).
pub open spec fn quad_a(d: Seq<i64>) -> int {
    dot(d, d)
}

/// `b` of the sphere's quadratic.
pub open spec fn quad_b(o: Seq<i64>, d: Seq<i64>, k: int) -> int {
    2 * dot(d, sphere_offset(o, k))
}

/// `c` of the sphere's quadratic.
pub open spec fn quad_c(o: Seq<i64>, k: int) -> int {
    dot(sphere_offset(o, k), sphere_offset(o, k)) - k * k
}

/// The discriminant of the sphere's quadratic.
pub open spec fn discriminant(o: Seq<i64>, d: Seq<i64>, k: int) -> int {
    quad_b(o, d, k) * quad_b(o, d, k) - 4 * quad_a(d) * quad_c(o, k)
}

/// Every value met in solving the sphere's quadratic is an `i64` (and each numerator of
/// a root can be negated).
pub open spec fn sphere_fits(o: Seq<i64>, d: Seq<i64>, k: int) -> bool {
    &&& fits(o[3] - k)
    &&& fits(k * k)
    &&& dot_fits(d, d)
    &&& dot_fits(d, sphere_offset(o, k))
    &&& dot_fits(sphere_offset(o, k), sphere_offset(o, k))
    &&& fits(quad_b(o, d, k))
    &&& fits(quad_c(o, k))
    &&& fits(quad_b(o, d, k) * quad_b(o, d, k))
    &&& fits(4 * quad_a(d))
    &&& fits(4 * quad_a(d) * quad_c(o, k))
    &&& fits(discriminant(o, d, k))
    &&& fits(2 * quad_a(d))
    &&& fits_sym(-quad_b(o, d, k) - floor_sqrt(discriminant(o, d, k)))
    &&& fits_sym(-quad_b(o, d, k) + floor_sqrt(discriminant(o, d, k)))
}

/// The parameters at which the ray from `o` along `d` meets the sphere of radius `k`,
/// each rounded toward zero: none if the ray misses it or has no direction, else two
/// (equal where the ray only touches it).
pub open spec fn sphere_hits(o: Seq<i64>, d: Seq<i64>, k: int) -> Seq<int> {
    if quad_a(d) == 0 || discriminant(o, d, k) < 0 {
        Seq::empty()
    } else {
        seq![
            trunc_div(-quad_b(o, d, k) - floor_sqrt(discriminant(o, d, k)), 2 * quad_a(d)),
            trunc_div(-quad_b(o, d, k) + floor_sqrt(discriminant(o, d, k)), 2 * quad_a(d)),
        ]
    }
}

/// The parameter at which the ray from `o` along `d` meets the plane `y = 0`, rounded
/// toward zero: none if the ray runs parallel to it.
pub open spec fn plane_hits(o: Seq<i64>, d: Seq<i64>) -> Seq<int> {
    if d[1] == 0 {
        Seq::empty()
    } else {
        seq![trunc_div(-o[1], d[1] as int)]
    }
}

/// The unit sphere centered at the origin.
#[derive(Clone, Copy, Debug, PartialEq, Eq, Structural)]
pub struct Sphere {}

impl Sphere {
    pub fn new() -> (r: Self)
        ensures
            r == (Sphere {}),
    {
        Sphere {}
    }

    /// Where the ray meets the sphere: `None` if it misses it or has no direction, else
    /// both roots of the quadratic, which are equal where the ray only touches it.
    pub fn intersect(ray: &Ray) -> (r: Option<(i64, i64)>)
        requires
            sphere_fits(ray.origin@, ray.direction@, 1),
        ensures
            r is None <==> sphere_hits(ray.origin@, ray.direction@, 1).len() == 0,
            r matches Some((t1, t2)) ==> {
                &&& t1 == sphere_hits(ray.origin@, ray.direction@, 1)[0]
                &&& t2 == sphere_hits(ray.origin@, ray.direction@, 1)[1]
                &&& discriminant(ray.origin@, ray.direction@, 1) == 0 ==> t1 == t2
            },
    {
        Sphere::intersect_scaled(ray, 1)
    }

    /// Where the ray meets the unit sphere when every coordinate of the ray has been
    /// multiplied by `k` (the last coordinate of its origin is `k`): the sphere of radius
    /// `k`, with the same parameters.
    pub fn intersect_scaled(ray: &Ray, k: i64) -> (r: Option<(i64, i64)>)
        requires
            sphere_fits(ray.origin@, ray.direction@, k as int),
        ensures
            r is None <==> sphere_hits(ray.origin@, ray.direction@, k as int).len() == 0,
            r matches Some((t1, t2)) ==> {
                &&& t1 == sphere_hits(ray.origin@, ray.direction@, k as int)[0]
                &&& t2 == sphere_hits(ray.origin@, ray.direction@, k as int)[1]
                &&& discriminant(ray.origin@, ray.direction@, k as int) == 0 ==> t1 == t2
            },
    {
        let ghost o = ray.origin@;
        let ghost d = ray.direction@;
        proof {
            Point::lemma_len(ray.origin);
            Vector::lemma_len(ray.direction);
        }
        let center = Point::from([0, 0, 0, k]);
        let sphere_to_ray = ray.origin - center;
        proof {
            Vector::lemma_len(sphere_to_ray);
        }
        assert(sphere_to_ray@ =~= sphere_offset(o, k as int));
        let dir = ray.direction.to_array();
        let off = sphere_to_ray.to_array();
        let a = dot_arrays(&dir, &dir);
        let b = 2 * dot_arrays(&dir, &off);
        let c = dot_arrays(&off, &off) - k * k;
        assert(a == quad_a(d));
        assert(b == quad_b(o, d, k as int));
        assert(c == quad_c(o, k as int));
        if a == 0 {
            return None;
        }
        let disc = b * b - 4 * a * c;
        assert(disc == discriminant(o, d, k as int));
        if disc < 0 {
            None
        } else {
            let root = isqrt(disc);
            assert(disc == 0 ==> root == 0) by (nonlinear_arith)
                requires
                    root >= 0,
                    root * root <= disc,
            ;
            let t1 = trunc_quot(-b - root, 2 * a);
            let t2 = trunc_quot(-b + root, 2 * a);
            Some((t1, t2))
        }
    }

    /// The normal at a point of the sphere: the vector from the center to the point.
    pub fn normal_at(object_point: &Point<4>) -> (r: Vector<4>)
        requires
            fits(object_point@[3] - 1),
        ensures
            r@ == sphere_offset(object_point@, 1),
    {
        proof {
            Point::lemma_len(*object_point);
        }
        let object_normal = *object_point - Point::new_point3D(0, 0, 0);
        proof {
            Vector::lemma_len(object_normal);
        }
        assert(object_normal@ =~= sphere_offset(object_point@, 1));
        object_normal
    }
}

/// The plane `y = 0`.
#[derive(Clone, Copy, Debug, PartialEq, Eq, Structural)]
pub struct Plane {}

impl Plane {
    pub fn new() -> (r: Self)
        ensures
            r == (Plane {}),
    {
        Plane {}
    }

    /// The normal of the plane, the same everywhere: `(0, 1, 0)`.
    pub fn normal_at(object_point: &Point<4>) -> (r: Vector<4>)
        ensures
            r@ == seq![0i64, 1, 0, 0],
    {
        Vector::new_vec3D(0, 1, 0)
    }

    /// Where the ray meets the plane: nothing if it runs parallel to it (or lies in it),
    /// else the single parameter `-origin.y / direction.y`.
    pub fn intersect(ray: &Ray) -> (r: Option<Vec<i64>>)
        requires
            ray.origin@[1] != i64::MIN,
        ensures
            r is None <==> plane_hits(ray.origin@, ray.direction@).len() == 0,
            r matches Some(ts) ==> ts@.len() == 1 && ts@[0] == plane_hits(ray.origin@, ray.direction@)[0],
    {
        proof {
            Point::lemma_len(ray.origin);
            Vector::lemma_len(ray.direction);
        }
        let direction_y = *ray.direction.get(1).unwrap();
        if direction_y == 0 {
            None
        } else {
            let origin_y = *ray.origin.get(1).unwrap();
            let t = trunc_quot(-origin_y, direction_y);
            let mut result = Vec::new();
            result.push(t);
            Some(result)
        }
    }
}

/// The closed set of primitive shapes, each in its own object space.
#[derive(Clone, Copy, Debug, PartialEq, Eq, Structural)]
pub enum Shape {
    Sphere,
    Plane,
}

/// Whether the shape's intersection is free of overflow for the ray from `o` along `d`,
/// given with every coordinate multiplied by `k`.
pub open spec fn shape_fits(shape: Shape, o: Seq<i64>, d: Seq<i64>, k: int) -> bool {
    match shape {
        Shape::Sphere => sphere_fits(o, d, k),
        Shape::Plane => o[1] != i64::MIN,
    }
}

/// The parameters at which the ray from `o` along `d`, given with every coordinate
/// multiplied by `k`, meets the shape.
pub open spec fn shape_hits(shape: Shape, o: Seq<i64>, d: Seq<i64>, k: int) -> Seq<int> {
    match shape {
        Shape::Sphere => sphere_hits(o, d, k),
        Shape::Plane => plane_hits(o, d),
    }
}

impl Shape {
    /// The parameters, in object space, at which the ray meets the shape.
    pub fn local_intersect(&self, ray: &Ray) -> (r: Vec<i64>)
        requires
            shape_fits(*self, ray.origin@, ray.direction@, 1),
        ensures
            r@.len() == shape_hits(*self, ray.origin@, ray.direction@, 1).len(),
            forall|i: int| 0 <= i < r@.len() ==> r@[i] == #[trigger] shape_hits(*self, ray.origin@, ray.direction@, 1)[i],
    {
        self.local_intersect_scaled(ray, 1)
    }

    /// The parameters at which the ray meets the shape, the ray given in object space
    /// with every coordinate multiplied by `k`.
    pub fn local_intersect_scaled(&self, ray: &Ray, k: i64) -> (r: Vec<i64>)
        requires
            shape_fits(*self, ray.origin@, ray.direction@, k as int),
        ensures
            r@.len() == shape_hits(*self, ray.origin@, ray.direction@, k as int).len(),
            forall|i: int| 0 <= i < r@.len() ==> r@[i] == #[trigger] shape_hits(*self, ray.origin@, ray.direction@, k as int)[i],
    {
        match *self {
            Shape::Sphere => {
                let mut out = Vec::new();
                if let Some((t1, t2)) = Sphere::intersect_scaled(ray, k) {
                    out.push(t1);
                    out.push(t2);
                }
                out
            },
            Shape::Plane => match Plane::intersect(ray) {
                Some(ts) => ts,
                None => Vec::new(),
            },
        }
    }

    /// The normal, in object space, at a point of the shape.
    pub fn local_normal_at(&self, point: &Point<4>) -> (r: Vector<4>)
        requires
            *self == Shape::Sphere ==> fits(point@[3] - 1),
        ensures
            *self == Shape::Sphere ==> r@ == sphere_offset(point@, 1),
            *self == Shape::Plane ==> r@ == seq![0i64, 1, 0, 0],
    {
        match *self {
            Shape::Sphere => Sphere::normal_at(point),
            Shape::Plane => Plane::normal_at(point),
        }
    }
}

} // verus!
