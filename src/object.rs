use vstd::prelude::*;

use crate::intersection::{Intersection, Intersections};
use crate::matrix::{cofactor, det, det_fits, iden_entry, minor, Matrix};
use crate::ray::{transform_fits, Ray};
use crate::shapes::{shape_fits, shape_hits, Shape};
use crate::tuple::dot;

verus! {

broadcast use {vstd::seq_lib::to_multiset_build, vstd::seq_lib::to_multiset_insert};

/// `m` has a non-zero determinant, and computing its inverse by cofactors stays within
/// `i64`.
pub open spec fn invertible(m: Seq<Seq<i64>>) -> bool {
    &&& det_fits(m)
    &&& det(m) != 0
    &&& forall|i: int, j: int| 0 <= i < 4 && 0 <= j < 4 ==> #[trigger] det_fits(minor(m, i, j))
}

/// The adjugate of a 4 by 4 matrix: entry `(i, j)` is the cofactor of `(j, i)`. It is
/// the inverse times the determinant.
pub open spec fn adjugate_of(m: Seq<Seq<i64>>) -> Seq<Seq<i64>> {
    Seq::new(4, |i: int| Seq::new(4, |j: int| cofactor(m, j, i) as i64))
}

/// The 4 by 4 identity matrix.
pub open spec fn identity() -> Seq<Seq<i64>> {
    Seq::new(4, |i: int| Seq::new(4, |j: int| iden_entry(i, j)))
}

/// The coordinates of `p` transformed by `m`.
pub open spec fn apply(m: Seq<Seq<i64>>, p: Seq<i64>) -> Seq<i64> {
    Seq::new(4, |i: int| dot(m[i], p) as i64)
}

/// A shape placed in the scene by a transformation. The map that takes a ray into the
/// shape's own space is computed from the transformation at each query, so it can never
/// disagree with it. That map is the adjugate, the inverse times the determinant `k`,
/// whose entries are integers: it gives the ray in object space with every coordinate
/// multiplied by `k`, which meets the shape scaled by `k` at the same parameters.
#[derive(Clone, Copy, Debug)]
pub struct Object {
    shape: Shape,
    transformation: Matrix<4, 4>,
}

impl Object {
    /// The object's shape.
    pub closed spec fn shape_spec(&self) -> Shape {
        self.shape
    }

    /// The transformation that places the shape in the scene.
    pub closed spec fn transformation_spec(&self) -> Seq<Seq<i64>> {
        self.transformation@
    }

    /// Intersecting the ray with this object stays within `i64`.
    pub open spec fn intersects_fits(&self, ray: Ray) -> bool {
        let m = self.transformation_spec();
        let adj = adjugate_of(m);
        &&& invertible(m)
        &&& transform_fits(adj, ray.origin@)
        &&& transform_fits(adj, ray.direction@)
        &&& shape_fits(self.shape_spec(), apply(adj, ray.origin@), apply(adj, ray.direction@), det(m))
    }

    /// The parameters at which the ray meets this object.
    pub open spec fn hits(&self, ray: Ray) -> Seq<int> {
        let m = self.transformation_spec();
        let adj = adjugate_of(m);
        shape_hits(self.shape_spec(), apply(adj, ray.origin@), apply(adj, ray.direction@), det(m))
    }

    pub fn new(shape: Shape, transformation: Matrix<4, 4>) -> (r: Self)
        ensures
            r.shape_spec() == shape,
            r.transformation_spec() == transformation@,
    {
        Object { shape, transformation }
    }

    /// A unit sphere at the origin.
    pub fn new_sphere() -> (r: Self)
        ensures
            r.shape_spec() == Shape::Sphere,
            r.transformation_spec() == identity(),
    {
        let transformation = Matrix::iden();
        proof {
            Matrix::lemma_shape(transformation);
            assert forall|i: int| 0 <= i < 4 implies #[trigger] transformation@[i] =~= identity()[i] by {}
            assert(transformation@ =~= identity());
        }
        Object { shape: Shape::Sphere, transformation }
    }

    /// The plane `y = 0`.
    pub fn new_plane() -> (r: Self)
        ensures
            r.shape_spec() == Shape::Plane,
            r.transformation_spec() == identity(),
    {
        let transformation = Matrix::iden();
        proof {
            Matrix::lemma_shape(transformation);
            assert forall|i: int| 0 <= i < 4 implies #[trigger] transformation@[i] =~= identity()[i] by {}
            assert(transformation@ =~= identity());
        }
        Object { shape: Shape::Plane, transformation }
    }

    /// The object's shape.
    pub fn shape(&self) -> (r: Shape)
        ensures
            r == self.shape_spec(),
    {
        self.shape
    }

    /// The transformation that places the shape in the scene.
    pub fn transformation(&self) -> (r: Matrix<4, 4>)
        ensures
            r@ == self.transformation_spec(),
    {
        self.transformation
    }

    /// The same object placed by `transformation` instead.
    pub fn with_transformation(self, transformation: Matrix<4, 4>) -> (r: Self)
        ensures
            r.shape_spec() == self.shape_spec(),
            r.transformation_spec() == transformation@,
    {
        Object { shape: self.shape, transformation }
    }

    /// Places the object by `transformation` instead.
    pub fn set_transformation(&mut self, transformation: Matrix<4, 4>)
        ensures
            final(self).shape_spec() == old(self).shape_spec(),
            final(self).transformation_spec() == transformation@,
    {
        self.transformation = transformation;
    }

    /// The parameters at which the ray meets the object: the ray is taken into the
    /// shape's own space (scaled by the determinant) by the adjugate, and the parameters
    /// found there are those of the ray itself.
    pub fn intersects(&self, ray: &Ray) -> (r: Vec<i64>)
        requires
            self.intersects_fits(*ray),
        ensures
            r@.len() == self.hits(*ray).len(),
            forall|i: int| 0 <= i < r@.len() ==> r@[i] == #[trigger] self.hits(*ray)[i],
    {
        let ghost adj = adjugate_of(self.transformation@);
        let adjugate = self.transformation.adjugate::<3>();
        proof {
            Matrix::lemma_shape(adjugate);
            assert forall|i: int| 0 <= i < 4 implies #[trigger] adjugate@[i] =~= adj[i] by {}
            assert(adjugate@ =~= adj);
        }
        let k = self.transformation.det();
        let local_ray = ray.transform(&adjugate);
        proof {
            crate::tuple::point::Point::lemma_len(local_ray.origin);
            crate::tuple::vector::Vector::lemma_len(local_ray.direction);
            assert(local_ray.origin@ =~= apply(adj, ray.origin@));
            assert(local_ray.direction@ =~= apply(adj, ray.direction@));
        }
        self.shape.local_intersect_scaled(&local_ray, k)
    }
}

/// Intersecting the ray with every object stays within `i64`.
pub open spec fn world_fits(objects: Seq<Object>, ray: Ray) -> bool {
    forall|i: int| 0 <= i < objects.len() ==> #[trigger] objects[i].intersects_fits(ray)
}

/// Every crossing of the ray with the first `k` objects, as `(t, index)` pairs, object
/// by object.
pub open spec fn world_hits(objects: Seq<Object>, ray: Ray, k: int) -> Seq<(i64, usize)>
    decreases k,
{
    if k <= 0 {
        Seq::empty()
    } else {
        world_hits(objects, ray, k - 1) + objects[k - 1].hits(ray).map_values(
            |t: int| (t as i64, (k - 1) as usize),
        )
    }
}

/// The views of a sequence of intersections.
pub open spec fn views(s: Seq<Intersection>) -> Seq<(i64, usize)> {
    s.map_values(|x: Intersection| x@)
}

/// Every intersection of the ray with the objects, each tagged with its object's index,
/// in ascending order of `t`.
pub fn intersect_world(objects: &Vec<Object>, ray: &Ray) -> (r: Intersections)
    requires
        world_fits(objects@, *ray),
    ensures
        r.wf(),
        views(r@).to_multiset() == world_hits(objects@, *ray, objects@.len() as int).to_multiset(),
{
    let mut inters = Intersections::new();
    assert(views(inters@) =~= world_hits(objects@, *ray, 0));
    let mut i: usize = 0;
    while i < objects.len()
        invariant
            0 <= i <= objects.len(),
            world_fits(objects@, *ray),
            inters.wf(),
            views(inters@).to_multiset() == world_hits(objects@, *ray, i as int).to_multiset(),
        decreases objects.len() - i,
    {
        let ts = objects[i].intersects(ray);
        let ghost object_hits = objects@[i as int].hits(*ray).map_values(
            |t: int| (t as i64, i as usize),
        );
        let ghost start = views(inters@).to_multiset();
        proof {
            broadcast use vstd::seq_lib::to_multiset_contains;

            assert(object_hits.take(0).to_multiset() =~= vstd::multiset::Multiset::empty());
            assert(start.add(object_hits.take(0).to_multiset()) =~= start);
        }
        let mut k: usize = 0;
        while k < ts.len()
            invariant
                0 <= k <= ts.len(),
                0 <= i < objects.len(),
                ts@.len() == objects@[i as int].hits(*ray).len(),
                forall|j: int| 0 <= j < ts@.len() ==> ts@[j] == #[trigger] objects@[i as int].hits(*ray)[j],
                object_hits == objects@[i as int].hits(*ray).map_values(|t: int| (t as i64, i as usize)),
                inters.wf(),
                views(inters@).to_multiset() == start.add(object_hits.take(k as int).to_multiset()),
            decreases ts.len() - k,
        {
            let ghost before = inters@;
            let x = Intersection::new(ts[k], i);
            inters.add(x);
            proof {
                let p = choose|p: int| 0 <= p <= before.len() && inters@ == before.insert(p, x);
                assert(views(inters@) =~= views(before).insert(p, x@));
                assert(object_hits.take(k + 1) =~= object_hits.take(k as int).push(object_hits[k as int]));
                assert(object_hits[k as int] == x@);
                assert(views(inters@).to_multiset() == views(before).to_multiset().insert(x@));
                assert(object_hits.take(k + 1).to_multiset() == object_hits.take(k as int).to_multiset().insert(x@));
                assert(views(inters@).to_multiset() =~= start.add(object_hits.take(k + 1).to_multiset()));
            }
            k += 1;
        }
        proof {
            assert(object_hits.take(ts.len() as int) =~= object_hits);
            vstd::seq_lib::lemma_multiset_commutative(world_hits(objects@, *ray, i as int), object_hits);
            assert(world_hits(objects@, *ray, i + 1) == world_hits(objects@, *ray, i as int) + object_hits);
        }
        i += 1;
    }
    inters
}

} // verus!
