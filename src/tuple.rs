use vstd::prelude::*;

pub mod point;
pub mod tuple;
pub mod utils;
pub mod vector;

verus! {

/// Whether a mathematical integer is a value of `i64`.
pub open spec fn fits(x: int) -> bool {
    i64::MIN <= x <= i64::MAX
}

/// Whether a mathematical integer lies in the range of `i64` that is closed under negation.
pub open spec fn fits_sym(x: int) -> bool {
    -i64::MAX <= x <= i64::MAX
}

/// Integer division rounding toward zero, as Rust's `/` does on signed integers.
pub open spec fn trunc_div(a: int, b: int) -> int {
    if a >= 0 {
        if b > 0 { a / b } else { -(a / (-b)) }
    } else {
        if b > 0 { -((-a) / b) } else { (-a) / (-b) }
    }
}

/// A Euclidean quotient by a negative divisor is the negated quotient by its absolute value.
pub proof fn lemma_div_neg_divisor(a: int, b: int)
    requires
        b < 0,
    ensures
        a / b == -(a / (-b)),
{
    let q = a / (-b);
    let r = a % (-b);
    assert(a == (-b) * q + r && 0 <= r < -b) by {
        vstd::arithmetic::div_mod::lemma_fundamental_div_mod(a, -b);
    }
    assert(a == b * (-q) + r) by (nonlinear_arith)
        requires
            a == (-b) * q + r,
    ;
    assert(a / b == -q) by (nonlinear_arith)
        requires
            a == b * (-q) + r,
            0 <= r < -b,
            b < 0,
    ;
}

/// Every coordinate-wise sum of `a` and `b` is an `i64`.
pub open spec fn sum_fits(a: Seq<i64>, b: Seq<i64>) -> bool {
    forall|i: int| 0 <= i < a.len() ==> fits(#[trigger] a[i] + b[i])
}

/// Every coordinate-wise difference of `a` and `b` is an `i64`.
pub open spec fn diff_fits(a: Seq<i64>, b: Seq<i64>) -> bool {
    forall|i: int| 0 <= i < a.len() ==> fits(#[trigger] a[i] - b[i])
}

/// Every coordinate of `a` times `s` is an `i64`.
pub open spec fn scaled_fits(a: Seq<i64>, s: i64) -> bool {
    forall|i: int| 0 <= i < a.len() ==> fits(#[trigger] a[i] * s)
}

/// No coordinate of `a` is `i64::MIN`, so each can be negated.
pub open spec fn neg_fits(a: Seq<i64>) -> bool {
    forall|i: int| 0 <= i < a.len() ==> #[trigger] a[i] != i64::MIN
}

/// Every coordinate of `a` can be divided by `s` without a fault
/// (and none is `i64::MIN`, whose magnitude is no `i64`).
pub open spec fn quot_fits(a: Seq<i64>, s: i64) -> bool {
    s != 0 && neg_fits(a)
}

/// The sum of the products of the first `k` coordinates.
pub open spec fn dot_upto(a: Seq<i64>, b: Seq<i64>, k: int) -> int
    decreases k,
{
    if k <= 0 {
        0
    } else {
        dot_upto(a, b, k - 1) + a[k - 1] * b[k - 1]
    }
}

/// The dot product of two coordinate sequences.
pub open spec fn dot(a: Seq<i64>, b: Seq<i64>) -> int {
    dot_upto(a, b, a.len() as int)
}

/// Every product and every partial sum of the dot product is an `i64`.
pub open spec fn dot_fits(a: Seq<i64>, b: Seq<i64>) -> bool {
    &&& forall|i: int| 0 <= i < a.len() ==> fits(#[trigger] a[i] * b[i])
    &&& forall|k: int| 0 <= k <= a.len() ==> fits(#[trigger] dot_upto(a, b, k))
}

/// Coordinate-wise sum.
pub(crate) fn add_arrays<const N: usize>(a: &[i64; N], b: &[i64; N]) -> (r: [i64; N])
    requires
        sum_fits(a@, b@),
    ensures
        forall|k: int| 0 <= k < N ==> r@[k] == a@[k] + b@[k],
{
    let mut data = *a;
    let mut i: usize = 0;
    while i < N
        invariant
            0 <= i <= N,
            sum_fits(a@, b@),
            forall|k: int| 0 <= k < i ==> data@[k] == a@[k] + b@[k],
        decreases N - i,
    {
        data[i] = a[i] + b[i];
        i += 1;
    }
    data
}

/// Coordinate-wise difference.
pub(crate) fn sub_arrays<const N: usize>(a: &[i64; N], b: &[i64; N]) -> (r: [i64; N])
    requires
        diff_fits(a@, b@),
    ensures
        forall|k: int| 0 <= k < N ==> r@[k] == a@[k] - b@[k],
{
    let mut data = *a;
    let mut i: usize = 0;
    while i < N
        invariant
            0 <= i <= N,
            diff_fits(a@, b@),
            forall|k: int| 0 <= k < i ==> data@[k] == a@[k] - b@[k],
        decreases N - i,
    {
        data[i] = a[i] - b[i];
        i += 1;
    }
    data
}

/// Every coordinate multiplied by `s`.
pub(crate) fn scale_array<const N: usize>(a: &[i64; N], s: i64) -> (r: [i64; N])
    requires
        scaled_fits(a@, s),
    ensures
        forall|k: int| 0 <= k < N ==> r@[k] == a@[k] * s,
{
    let mut data = *a;
    let mut i: usize = 0;
    while i < N
        invariant
            0 <= i <= N,
            scaled_fits(a@, s),
            forall|k: int| 0 <= k < i ==> data@[k] == a@[k] * s,
        decreases N - i,
    {
        data[i] = a[i] * s;
        i += 1;
    }
    data
}

/// `x / s`, rounding toward zero.
pub(crate) fn trunc_quot(x: i64, s: i64) -> (q: i64)
    requires
        s != 0,
        x != i64::MIN,
    ensures
        q == trunc_div(x as int, s as int),
{
    let q = x / s;
    if x >= 0 && s > 0 {
        assert(q == x as int / s as int);
    } else if x < 0 && s > 0 {
        assert(q == -((-x) as int / s as int));
    } else if x >= 0 && s < 0 {
        proof {
            lemma_div_neg_divisor(x as int, s as int);
        }
        assert(q == -(x as int / (-s) as int));
    } else {
        proof {
            lemma_div_neg_divisor(-(x as int), s as int);
        }
        assert(q == (-x) as int / (-s) as int);
    }
    q
}

/// Every coordinate divided by `s`, rounding toward zero.
pub(crate) fn div_array<const N: usize>(a: &[i64; N], s: i64) -> (r: [i64; N])
    requires
        quot_fits(a@, s),
    ensures
        forall|k: int| 0 <= k < N ==> r@[k] == trunc_div(a@[k] as int, s as int),
{
    let mut data = *a;
    let mut i: usize = 0;
    while i < N
        invariant
            0 <= i <= N,
            quot_fits(a@, s),
            forall|k: int| 0 <= k < i ==> data@[k] == trunc_div(a@[k] as int, s as int),
        decreases N - i,
    {
        let q = trunc_quot(a[i], s);
        data[i] = q;
        i += 1;
    }
    data
}

/// Every coordinate negated.
pub(crate) fn neg_array<const N: usize>(a: &[i64; N]) -> (r: [i64; N])
    requires
        neg_fits(a@),
    ensures
        forall|k: int| 0 <= k < N ==> r@[k] == -a@[k],
{
    let mut data = *a;
    let mut i: usize = 0;
    while i < N
        invariant
            0 <= i <= N,
            neg_fits(a@),
            forall|k: int| 0 <= k < i ==> data@[k] == -a@[k],
        decreases N - i,
    {
        data[i] = -a[i];
        i += 1;
    }
    data
}

/// The dot product of two arrays.
pub(crate) fn dot_arrays<const N: usize>(a: &[i64; N], b: &[i64; N]) -> (r: i64)
    requires
        dot_fits(a@, b@),
    ensures
        r == dot(a@, b@),
{
    let mut res: i64 = 0;
    let mut i: usize = 0;
    while i < N
        invariant
            0 <= i <= N,
            dot_fits(a@, b@),
            res == dot_upto(a@, b@, i as int),
        decreases N - i,
    {
        assert(fits(dot_upto(a@, b@, i + 1)));
        assert(fits(a@[i as int] * b@[i as int]));
        res = a[i] * b[i] + res;
        i += 1;
    }
    res
}

} // verus!
