use vstd::prelude::*;

use crate::matrix::Matrix;
use crate::tuple::point::Point;
use crate::tuple::tuple::Tuple;
use crate::tuple::vector::Vector;
use crate::tuple::{dot, dot_fits, fits};

verus! {

/// A half-line: the points `origin + direction * t`.
#[derive(Clone, Copy, Debug)]
pub struct Ray {
    pub origin: Point<4>,
    pub direction: Vector<4>,
}

/// Every coordinate of `origin + direction * t` and every product in it is an `i64`.
pub open spec fn position_fits(origin: Seq<i64>, direction: Seq<i64>, t: i64) -> bool {
    forall|k: int|
        0 <= k < 4 ==> fits(#[trigger] (direction[k] * t)) && fits(origin[k] + direction[k] * t)
}

/// Every dot product in transforming `p` by `m` stays within `i64`.
pub open spec fn transform_fits(m: Seq<Seq<i64>>, p: Seq<i64>) -> bool {
    forall|i: int| 0 <= i < 4 ==> #[trigger] dot_fits(m[i], p)
}

impl Ray {
    /// The ray from the point given by the first three coordinates of `ori` along the
    /// vector given by the first three coordinates of `dir`.
    pub fn new<A: Tuple<4>, B: Tuple<4>>(ori: A, dir: B) -> (r: Ray)
        ensures
            r.origin@ == seq![ori.coords()[0], ori.coords()[1], ori.coords()[2], 1i64],
            r.direction@ == seq![dir.coords()[0], dir.coords()[1], dir.coords()[2], 0i64],
    {
        let p_x = *ori.get(0).unwrap();
        let p_y = *ori.get(1).unwrap();
        let p_z = *ori.get(2).unwrap();
        let v_x = *dir.get(0).unwrap();
        let v_y = *dir.get(1).unwrap();
        let v_z = *dir.get(2).unwrap();
        Ray { origin: Point::new_point3D(p_x, p_y, p_z), direction: Vector::new_vec3D(v_x, v_y, v_z) }
    }

    /// The ray with origin and direction both transformed by `transformation`.
    pub fn transform(&self, transformation: &Matrix<4, 4>) -> (r: Ray)
        requires
            transform_fits(transformation@, self.origin@),
            transform_fits(transformation@, self.direction@),
        ensures
            forall|i: int| 0 <= i < 4 ==> (#[trigger] r.origin@[i]) == dot(transformation@[i], self.origin@),
            forall|i: int| 0 <= i < 4 ==> (#[trigger] r.direction@[i]) == dot(transformation@[i], self.direction@),
    {
        Ray { origin: *transformation * self.origin, direction: *transformation * self.direction }
    }

    /// The point `t` units along the ray: `origin + direction * t`.
    pub fn position(&self, t: i64) -> (r: Point<4>)
        requires
            position_fits(self.origin@, self.direction@, t),
        ensures
            forall|k: int| 0 <= k < 4 ==> (#[trigger] r@[k]) == self.origin@[k] + self.direction@[k] * t,
    {
        proof {
            Point::lemma_len(self.origin);
            Vector::lemma_len(self.direction);
        }
        let step = self.direction * t;
        self.origin + step
    }
}

/// Equal when origins and directions are equal.
impl PartialEq for Ray {
    fn eq(&self, other: &Self) -> (r: bool) {
        self.origin == other.origin && self.direction == other.direction
    }
}

impl vstd::std_specs::cmp::PartialEqSpecImpl for Ray {
    open spec fn obeys_eq_spec() -> bool {
        true
    }

    open spec fn eq_spec(&self, other: &Self) -> bool {
        self.origin@ == other.origin@ && self.direction@ == other.direction@
    }
}

} // verus!
