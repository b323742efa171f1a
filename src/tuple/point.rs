use vstd::prelude::*;

use super::tuple::Tuple;
use super::vector::Vector;
use super::{
    add_arrays, diff_fits, div_array, neg_array, neg_fits, quot_fits, scale_array, scaled_fits,
    sub_arrays, sum_fits, trunc_div,
};

verus! {

/// A point of `N` integer coordinates.
#[derive(Clone, Copy, Debug)]
pub struct Point<const N: usize> {
    data: [i64; N],
}

impl<const N: usize> View for Point<N> {
    type V = Seq<i64>;

    closed spec fn view(&self) -> Seq<i64> {
        self.data@
    }
}

impl<const N: usize> Point<N> {
    /// A point always holds exactly `N` coordinates.
    pub broadcast proof fn lemma_len(p: Point<N>)
        ensures
            #[trigger] p@.len() == N,
    {
    }

    pub fn from(data: [i64; N]) -> (r: Self)
        ensures
            r@ == data@,
    {
        Self { data }
    }

    /// The point with every coordinate zero.
    pub fn new() -> (r: Self)
        ensures
            r@ == Seq::new(N as nat, |_i: int| 0i64),
    {
        let mut data = [0i64; N];
        let mut i: usize = 0;
        while i < N
            invariant
                0 <= i <= N,
                forall|k: int| 0 <= k < i ==> data@[k] == 0,
            decreases N - i,
        {
            data[i] = 0;
            i += 1;
        }
        assert(data@ =~= Seq::new(N as nat, |_i: int| 0i64));
        Self { data }
    }

    /// The coordinates as an array.
    pub fn to_array(&self) -> (r: [i64; N])
        ensures
            r@ == self@,
    {
        self.data
    }

    /// The coordinate at `i`, or `None` past the last one.
    pub fn get(&self, i: usize) -> (r: Option<&i64>)
        ensures
            i < N ==> r == Some(&self@[i as int]),
            i >= N ==> r.is_none(),
    {
        if i < N {
            Some(&self.data[i])
        } else {
            None
        }
    }

    /// A mutable reference to the coordinate at `i`, or `None` past the last one.
    pub fn get_mut(&mut self, i: usize) -> (r: Option<&mut i64>)
        ensures
            i < N ==> r is Some && *r->Some_0 == old(self)@[i as int] && final(self)@ == old(
                self,
            )@.update(i as int, *final(r->Some_0)),
            i >= N ==> r is None && final(self)@ == old(self)@,
    {
        if i < N {
            Some(&mut self.data[i])
        } else {
            None
        }
    }
}

impl Point<3> {
    pub fn new_point3(x: i64, y: i64, z: i64) -> (r: Self)
        ensures
            r@ == seq![x, y, z],
    {
        let r = Point { data: [x, y, z] };
        assert(r@ =~= seq![x, y, z]);
        r
    }
}

impl Point<4> {
    /// A point of three-dimensional space in homogeneous coordinates (`w` is one).
    #[allow(non_snake_case)]
    pub fn new_point3D(x: i64, y: i64, z: i64) -> (r: Self)
        ensures
            r@ == seq![x, y, z, 1i64],
    {
        let r = Point { data: [x, y, z, 1] };
        assert(r@ =~= seq![x, y, z, 1i64]);
        r
    }
}

impl<const N: usize> Tuple<N> for Point<N> {
    open spec fn coords(&self) -> Seq<i64> {
        self@
    }

    fn new() -> (r: Self) {
        Point::new()
    }

    fn get(&self, i: usize) -> (r: Option<&i64>) {
        Point::get(self, i)
    }

    fn from(data: [i64; N]) -> (r: Self) {
        Point::from(data)
    }
}

impl<const N: usize> PartialEq for Point<N> {
    fn eq(&self, other: &Self) -> (r: bool) {
        let mut i: usize = 0;
        while i < N
            invariant
                0 <= i <= N,
                forall|k: int| 0 <= k < i ==> self@[k] == other@[k],
            decreases N - i,
        {
            if self.data[i] != other.data[i] {
                return false;
            }
            i += 1;
        }
        assert(self@ =~= other@);
        true
    }
}

impl<const N: usize> vstd::std_specs::cmp::PartialEqSpecImpl for Point<N> {
    open spec fn obeys_eq_spec() -> bool {
        true
    }

    open spec fn eq_spec(&self, other: &Self) -> bool {
        self@ == other@
    }
}

impl<const N: usize> core::ops::Neg for Point<N> {
    type Output = Self;

    fn neg(self) -> (r: Self)
        ensures
            forall|k: int| 0 <= k < N ==> r@[k] == -self@[k],
    {
        Point { data: neg_array(&self.data) }
    }
}

impl<const N: usize> vstd::std_specs::ops::NegSpecImpl for Point<N> {
    open spec fn obeys_neg_spec() -> bool {
        false
    }

    open spec fn neg_req(self) -> bool {
        neg_fits(self@)
    }

    open spec fn neg_spec(self) -> Self {
        self
    }
}

impl<const N: usize> core::ops::Add for Point<N> {
    type Output = Self;

    fn add(self, rhs: Self) -> (r: Self)
        ensures
            forall|k: int| 0 <= k < N ==> r@[k] == self@[k] + rhs@[k],
    {
        Point { data: add_arrays(&self.data, &rhs.data) }
    }
}

impl<const N: usize> vstd::std_specs::ops::AddSpecImpl for Point<N> {
    open spec fn obeys_add_spec() -> bool {
        false
    }

    open spec fn add_req(self, rhs: Self) -> bool {
        sum_fits(self@, rhs@)
    }

    open spec fn add_spec(self, rhs: Self) -> Self {
        self
    }
}

/// A point moved by a vector.
impl<const N: usize> core::ops::Add<Vector<N>> for Point<N> {
    type Output = Point<N>;

    fn add(self, rhs: Vector<N>) -> (r: Point<N>)
        ensures
            forall|k: int| 0 <= k < N ==> r@[k] == self@[k] + rhs@[k],
    {
        Point { data: add_arrays(&self.data, &rhs.to_array()) }
    }
}

impl<const N: usize> vstd::std_specs::ops::AddSpecImpl<Vector<N>> for Point<N> {
    open spec fn obeys_add_spec() -> bool {
        false
    }

    open spec fn add_req(self, rhs: Vector<N>) -> bool {
        sum_fits(self@, rhs@)
    }

    open spec fn add_spec(self, rhs: Vector<N>) -> Point<N> {
        self
    }
}

/// A point moved back by a vector.
impl<const N: usize> core::ops::Sub<Vector<N>> for Point<N> {
    type Output = Point<N>;

    fn sub(self, rhs: Vector<N>) -> (r: Point<N>)
        ensures
            forall|k: int| 0 <= k < N ==> r@[k] == self@[k] - rhs@[k],
    {
        Point { data: sub_arrays(&self.data, &rhs.to_array()) }
    }
}

impl<const N: usize> vstd::std_specs::ops::SubSpecImpl<Vector<N>> for Point<N> {
    open spec fn obeys_sub_spec() -> bool {
        false
    }

    open spec fn sub_req(self, rhs: Vector<N>) -> bool {
        diff_fits(self@, rhs@)
    }

    open spec fn sub_spec(self, rhs: Vector<N>) -> Point<N> {
        self
    }
}

/// The vector that leads from `rhs` to `self`.
impl<const N: usize> core::ops::Sub for Point<N> {
    type Output = Vector<N>;

    fn sub(self, rhs: Self) -> (r: Vector<N>)
        ensures
            forall|k: int| 0 <= k < N ==> r@[k] == self@[k] - rhs@[k],
    {
        Vector::from(sub_arrays(&self.data, &rhs.data))
    }
}

impl<const N: usize> vstd::std_specs::ops::SubSpecImpl for Point<N> {
    open spec fn obeys_sub_spec() -> bool {
        false
    }

    open spec fn sub_req(self, rhs: Self) -> bool {
        diff_fits(self@, rhs@)
    }

    open spec fn sub_spec(self, rhs: Self) -> Vector<N> {
        arbitrary()
    }
}

impl<const N: usize> core::ops::Mul<i64> for Point<N> {
    type Output = Self;

    fn mul(self, rhs: i64) -> (r: Self)
        ensures
            forall|k: int| 0 <= k < N ==> r@[k] == self@[k] * rhs,
    {
        Point { data: scale_array(&self.data, rhs) }
    }
}

impl<const N: usize> vstd::std_specs::ops::MulSpecImpl<i64> for Point<N> {
    open spec fn obeys_mul_spec() -> bool {
        false
    }

    open spec fn mul_req(self, rhs: i64) -> bool {
        scaled_fits(self@, rhs)
    }

    open spec fn mul_spec(self, rhs: i64) -> Self {
        self
    }
}

impl<const N: usize> core::ops::Div<i64> for Point<N> {
    type Output = Self;

    fn div(self, rhs: i64) -> (r: Self)
        ensures
            forall|k: int| 0 <= k < N ==> r@[k] == trunc_div(self@[k] as int, rhs as int),
    {
        Point { data: div_array(&self.data, rhs) }
    }
}

impl<const N: usize> vstd::std_specs::ops::DivSpecImpl<i64> for Point<N> {
    open spec fn obeys_div_spec() -> bool {
        false
    }

    open spec fn div_req(self, rhs: i64) -> bool {
        quot_fits(self@, rhs)
    }

    open spec fn div_spec(self, rhs: i64) -> Self {
        self
    }
}

} // verus!
