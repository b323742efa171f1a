use vstd::prelude::*;

use super::point::Point;
use super::tuple::Tuple;
use super::utils::{floor_sqrt, isqrt};
use super::{
    add_arrays, diff_fits, div_array, dot, dot_arrays, dot_fits, dot_upto, fits, neg_array, neg_fits,
    quot_fits, scale_array, scaled_fits, sub_arrays, sum_fits, trunc_div,
};

verus! {

/// A vector of `N` integer coordinates.
#[derive(Clone, Copy, Debug)]
pub struct Vector<const N: usize> {
    data: [i64; N],
}

impl<const N: usize> View for Vector<N> {
    type V = Seq<i64>;

    closed spec fn view(&self) -> Seq<i64> {
        self.data@
    }
}

/// Every coordinate of the cross product of two three-coordinate sequences is an `i64`,
/// and so is every product in it.
pub open spec fn cross_fits(a: Seq<i64>, b: Seq<i64>) -> bool {
    &&& fits(a[1] * b[2]) && fits(a[2] * b[1]) && fits(a[1] * b[2] - a[2] * b[1])
    &&& fits(a[2] * b[0]) && fits(a[0] * b[2]) && fits(a[2] * b[0] - a[0] * b[2])
    &&& fits(a[0] * b[1]) && fits(a[1] * b[0]) && fits(a[0] * b[1] - a[1] * b[0])
}

/// The cross product of two three-coordinate sequences.
pub open spec fn cross(a: Seq<i64>, b: Seq<i64>) -> Seq<int> {
    seq![
        a[1] * b[2] - a[2] * b[1],
        a[2] * b[0] - a[0] * b[2],
        a[0] * b[1] - a[1] * b[0],
    ]
}

/// `v` reflected about the normal `n`: `v - n * 2 * (v . n)` (exact where `reflect_fits`).
pub open spec fn reflect(v: Seq<i64>, n: Seq<i64>) -> Seq<i64> {
    Seq::new(v.len(), |i: int| (v[i] - n[i] * (2 * dot(v, n))) as i64)
}

/// Every intermediate value of reflecting `v` about `n` is an `i64`.
pub open spec fn reflect_fits(v: Seq<i64>, n: Seq<i64>) -> bool {
    &&& dot_fits(v, n)
    &&& fits(2 * dot(v, n))
    &&& forall|i: int| 0 <= i < v.len() ==> fits(#[trigger] n[i] * (2 * dot(v, n)))
    &&& forall|i: int| 0 <= i < v.len() ==> fits(#[trigger] v[i] - n[i] * (2 * dot(v, n)))
}

/// Reflecting `v` about `n` subtracts `2 (v . n)` times `n . n` from each partial dot
/// product with `n`.
proof fn lemma_reflect_dot_upto(v: Seq<i64>, n: Seq<i64>, k: int)
    requires
        v.len() == n.len(),
        0 <= k <= v.len(),
        reflect_fits(v, n),
    ensures
        dot_upto(reflect(v, n), n, k) == dot_upto(v, n, k) - 2 * dot(v, n) * dot_upto(n, n, k),
    decreases k,
{
    if k > 0 {
        lemma_reflect_dot_upto(v, n, k - 1);
        let c = 2 * dot(v, n);
        let x = reflect(v, n)[k - 1];
        assert(fits(v[k - 1] - n[k - 1] * c));
        assert(x == v[k - 1] - n[k - 1] * c);
        assert(x * n[k - 1] == v[k - 1] * n[k - 1] - c * (n[k - 1] * n[k - 1])) by (nonlinear_arith)
            requires
                x == v[k - 1] - n[k - 1] * c,
        ;
        assert(c * dot_upto(n, n, k - 1) + c * (n[k - 1] * n[k - 1]) == c * (dot_upto(n, n, k - 1)
            + n[k - 1] * n[k - 1])) by (nonlinear_arith);
    }
}

/// Reflection about a unit normal flips the component along the normal and keeps its
/// magnitude: `reflect(v, n) . n == -(v . n)` whenever `n . n == 1`.
pub proof fn lemma_reflect_flips_normal_component<const N: usize>(v: Vector<N>, n: Vector<N>)
    requires
        dot(n@, n@) == 1,
        reflect_fits(v@, n@),
    ensures
        dot(reflect(v@, n@), n@) == -dot(v@, n@),
{
    lemma_reflect_dot_upto(v@, n@, N as int);
    assert(dot(reflect(v@, n@), n@) == dot_upto(reflect(v@, n@), n@, N as int));
}

impl<const N: usize> Vector<N> {
    /// A vector always holds exactly `N` coordinates.
    pub broadcast proof fn lemma_len(v: Vector<N>)
        ensures
            #[trigger] v@.len() == N,
    {
    }

    /// The vector with every coordinate zero.
    pub fn new() -> (r: Self)
        ensures
            r@ == Seq::new(N as nat, |_i: int| 0i64),
    {
        let mut data = [0i64; N];
        let mut i: usize = 0;
        while i < N
            invariant
                0 <= i <= N,
                forall|k: int| 0 <= k < i ==> data@[k] == 0,
            decreases N - i,
        {
            data[i] = 0;
            i += 1;
        }
        assert(data@ =~= Seq::new(N as nat, |_i: int| 0i64));
        Self { data }
    }

    pub fn from(data: [i64; N]) -> (r: Self)
        ensures
            r@ == data@,
    {
        Self { data }
    }

    /// The coordinates as an array.
    pub fn to_array(&self) -> (r: [i64; N])
        ensures
            r@ == self@,
    {
        self.data
    }

    /// The coordinate at `i`, or `None` past the last one.
    pub fn get(&self, i: usize) -> (r: Option<&i64>)
        ensures
            i < N ==> r == Some(&self@[i as int]),
            i >= N ==> r.is_none(),
    {
        if i < N {
            Some(&self.data[i])
        } else {
            None
        }
    }

    /// The length of the vector, rounded down to an integer.
    pub fn magnitude(&self) -> (r: i64)
        requires
            dot_fits(self@, self@),
        ensures
            r == floor_sqrt(dot(self@, self@)),
            r >= 0,
    {
        isqrt(dot_arrays(&self.data, &self.data))
    }

    /// Every coordinate divided by the magnitude, rounding toward zero.
    pub fn normalize(self) -> (r: Self)
        requires
            dot_fits(self@, self@),
            dot(self@, self@) > 0,
        ensures
            forall|k: int|
                0 <= k < N ==> r@[k] == trunc_div(
                    self@[k] as int,
                    floor_sqrt(dot(self@, self@)),
                ),
    {
        let m = isqrt(dot_arrays(&self.data, &self.data));
        assert(m >= 1) by {
            if m == 0 {
                assert((m + 1) * (m + 1) == 1);
            }
        }
        Vector { data: div_array(&self.data, m) }
    }

    /// `self` reflected about the normal `normal`.
    pub fn reflect(&self, normal: &Vector<N>) -> (r: Vector<N>)
        requires
            reflect_fits(self@, normal@),
        ensures
            r@ == reflect(self@, normal@),
    {
        let d = dot_arrays(&self.data, &normal.data);
        let twice: i64 = 2 * d;
        let scaled = scale_array(&normal.data, twice);
        assert(diff_fits(self.data@, scaled@)) by {
            assert forall|i: int| 0 <= i < N implies fits(#[trigger] self.data@[i] - scaled@[i]) by {
                assert(fits(self@[i] - normal@[i] * (2 * dot(self@, normal@))));
            }
        }
        let r = Vector { data: sub_arrays(&self.data, &scaled) };
        assert(r@ =~= reflect(self@, normal@));
        r
    }
}

impl Vector<3> {
    pub fn new_vec3(x: i64, y: i64, z: i64) -> (r: Self)
        ensures
            r@ == seq![x, y, z],
    {
        let r = Vector { data: [x, y, z] };
        assert(r@ =~= seq![x, y, z]);
        r
    }

    /// The cross product of `self` and `other`.
    pub fn cross_produtc(&self, other: Self) -> (r: Vector<3>)
        requires
            cross_fits(self@, other@),
        ensures
            r@.len() == 3,
            forall|k: int| 0 <= k < 3 ==> r@[k] == cross(self@, other@)[k],
    {
        let x = self.data[1] * other.data[2] - self.data[2] * other.data[1];
        let y = self.data[2] * other.data[0] - self.data[0] * other.data[2];
        let z = self.data[0] * other.data[1] - self.data[1] * other.data[0];
        Vector { data: [x, y, z] }
    }
}

impl Vector<4> {
    /// A vector of three-dimensional space in homogeneous coordinates (`w` is zero).
    #[allow(non_snake_case)]
    pub fn new_vec3D(x: i64, y: i64, z: i64) -> (r: Self)
        ensures
            r@ == seq![x, y, z, 0i64],
    {
        let r = Vector { data: [x, y, z, 0] };
        assert(r@ =~= seq![x, y, z, 0i64]);
        r
    }
}

impl<const N: usize> Tuple<N> for Vector<N> {
    open spec fn coords(&self) -> Seq<i64> {
        self@
    }

    fn new() -> (r: Self) {
        Vector::new()
    }

    fn get(&self, i: usize) -> (r: Option<&i64>) {
        Vector::get(self, i)
    }

    fn from(data: [i64; N]) -> (r: Self) {
        Vector::from(data)
    }
}

impl<const N: usize> PartialEq for Vector<N> {
    fn eq(&self, other: &Self) -> (r: bool) {
        let mut i: usize = 0;
        while i < N
            invariant
                0 <= i <= N,
                forall|k: int| 0 <= k < i ==> self@[k] == other@[k],
            decreases N - i,
        {
            if self.data[i] != other.data[i] {
                return false;
            }
            i += 1;
        }
        assert(self@ =~= other@);
        true
    }
}

impl<const N: usize> vstd::std_specs::cmp::PartialEqSpecImpl for Vector<N> {
    open spec fn obeys_eq_spec() -> bool {
        true
    }

    open spec fn eq_spec(&self, other: &Self) -> bool {
        self@ == other@
    }
}

impl<const N: usize> core::ops::Add for Vector<N> {
    type Output = Self;

    fn add(self, rhs: Self) -> (r: Self)
        ensures
            forall|k: int| 0 <= k < N ==> r@[k] == self@[k] + rhs@[k],
    {
        Vector { data: add_arrays(&self.data, &rhs.data) }
    }
}

impl<const N: usize> vstd::std_specs::ops::AddSpecImpl for Vector<N> {
    open spec fn obeys_add_spec() -> bool {
        false
    }

    open spec fn add_req(self, rhs: Self) -> bool {
        sum_fits(self@, rhs@)
    }

    open spec fn add_spec(self, rhs: Self) -> Self {
        self
    }
}

impl<const N: usize> core::ops::Sub for Vector<N> {
    type Output = Self;

    fn sub(self, rhs: Self) -> (r: Self)
        ensures
            forall|k: int| 0 <= k < N ==> r@[k] == self@[k] - rhs@[k],
    {
        Vector { data: sub_arrays(&self.data, &rhs.data) }
    }
}

impl<const N: usize> vstd::std_specs::ops::SubSpecImpl for Vector<N> {
    open spec fn obeys_sub_spec() -> bool {
        false
    }

    open spec fn sub_req(self, rhs: Self) -> bool {
        diff_fits(self@, rhs@)
    }

    open spec fn sub_spec(self, rhs: Self) -> Self {
        self
    }
}

/// Coordinate-wise difference of a vector and a point, as a point.
impl<const N: usize> core::ops::Sub<Point<N>> for Vector<N> {
    type Output = Point<N>;

    fn sub(self, rhs: Point<N>) -> (r: Point<N>)
        ensures
            forall|k: int| 0 <= k < N ==> r@[k] == self@[k] - rhs@[k],
    {
        let mut other = [0i64; N];
        let mut i: usize = 0;
        while i < N
            invariant
                0 <= i <= N,
                forall|k: int| 0 <= k < i ==> other@[k] == rhs@[k],
            decreases N - i,
        {
            let c = rhs.get(i);
            other[i] = *c.unwrap();
            i += 1;
        }
        Point::from(sub_arrays(&self.data, &other))
    }
}

impl<const N: usize> vstd::std_specs::ops::SubSpecImpl<Point<N>> for Vector<N> {
    open spec fn obeys_sub_spec() -> bool {
        false
    }

    open spec fn sub_req(self, rhs: Point<N>) -> bool {
        diff_fits(self@, rhs@)
    }

    open spec fn sub_spec(self, rhs: Point<N>) -> Point<N> {
        arbitrary()
    }
}

impl<const N: usize> core::ops::Neg for Vector<N> {
    type Output = Self;

    fn neg(self) -> (r: Self)
        ensures
            forall|k: int| 0 <= k < N ==> r@[k] == -self@[k],
    {
        Vector { data: neg_array(&self.data) }
    }
}

impl<const N: usize> vstd::std_specs::ops::NegSpecImpl for Vector<N> {
    open spec fn obeys_neg_spec() -> bool {
        false
    }

    open spec fn neg_req(self) -> bool {
        neg_fits(self@)
    }

    open spec fn neg_spec(self) -> Self {
        self
    }
}

impl<const N: usize> core::ops::Mul<i64> for Vector<N> {
    type Output = Self;

    fn mul(self, rhs: i64) -> (r: Self)
        ensures
            forall|k: int| 0 <= k < N ==> r@[k] == self@[k] * rhs,
    {
        Vector { data: scale_array(&self.data, rhs) }
    }
}

impl<const N: usize> vstd::std_specs::ops::MulSpecImpl<i64> for Vector<N> {
    open spec fn obeys_mul_spec() -> bool {
        false
    }

    open spec fn mul_req(self, rhs: i64) -> bool {
        scaled_fits(self@, rhs)
    }

    open spec fn mul_spec(self, rhs: i64) -> Self {
        self
    }
}

impl<const N: usize> core::ops::Div<i64> for Vector<N> {
    type Output = Self;

    fn div(self, rhs: i64) -> (r: Self)
        ensures
            forall|k: int| 0 <= k < N ==> r@[k] == trunc_div(self@[k] as int, rhs as int),
    {
        Vector { data: div_array(&self.data, rhs) }
    }
}

impl<const N: usize> vstd::std_specs::ops::DivSpecImpl<i64> for Vector<N> {
    open spec fn obeys_div_spec() -> bool {
        false
    }

    open spec fn div_req(self, rhs: i64) -> bool {
        quot_fits(self@, rhs)
    }

    open spec fn div_spec(self, rhs: i64) -> Self {
        self
    }
}

/// The dot product.
impl<const N: usize> core::ops::Mul for Vector<N> {
    type Output = i64;

    fn mul(self, rhs: Vector<N>) -> (r: i64)
        ensures
            r == dot(self@, rhs@),
    {
        dot_arrays(&self.data, &rhs.data)
    }
}

impl<const N: usize> vstd::std_specs::ops::MulSpecImpl for Vector<N> {
    open spec fn obeys_mul_spec() -> bool {
        false
    }

    open spec fn mul_req(self, rhs: Vector<N>) -> bool {
        dot_fits(self@, rhs@)
    }

    open spec fn mul_spec(self, rhs: Vector<N>) -> i64 {
        0
    }
}

/// The cross product.
impl core::ops::BitOr for Vector<3> {
    type Output = Self;

    fn bitor(self, rhs: Self) -> (r: Self)
        ensures
            forall|k: int| 0 <= k < 3 ==> r@[k] == cross(self@, rhs@)[k],
    {
        self.cross_produtc(rhs)
    }
}

impl vstd::std_specs::ops::BitOrSpecImpl for Vector<3> {
    open spec fn obeys_bitor_spec() -> bool {
        false
    }

    open spec fn bitor_req(self, rhs: Self) -> bool {
        cross_fits(self@, rhs@)
    }

    open spec fn bitor_spec(self, rhs: Self) -> Self {
        self
    }
}

} // verus!
