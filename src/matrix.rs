use vstd::prelude::*;

use crate::tuple::point::Point;
use crate::tuple::vector::Vector;
use crate::tuple::{
    div_array, dot, dot_arrays, dot_fits, fits, fits_sym, neg_fits, quot_fits, scale_array,
    scaled_fits, trunc_div, trunc_quot,
};

verus! {

/// An `N` by `M` matrix of integers, stored row by row.
#[derive(Clone, Copy, Debug)]
pub struct Matrix<const N: usize, const M: usize> {
    data: [[i64; M]; N],
}

/// The rows of a two-dimensional array, each as a sequence.
pub open spec fn rows_of<const N: usize, const M: usize>(data: [[i64; M]; N]) -> Seq<Seq<i64>> {
    Seq::new(N as nat, |i: int| data@[i]@)
}

/// Column `j` of a matrix given by its rows.
pub open spec fn column(m: Seq<Seq<i64>>, j: int) -> Seq<i64> {
    Seq::new(m.len(), |i: int| m[i][j])
}

/// The matrix given by its rows with row `row` and column `col` removed.
pub open spec fn minor(m: Seq<Seq<i64>>, row: int, col: int) -> Seq<Seq<i64>> {
    Seq::new(
        (m.len() - 1) as nat,
        |i: int|
            {
                let si = if i < row { i } else { i + 1 };
                Seq::new(
                    (m[si].len() - 1) as nat,
                    |j: int| if j < col { m[si][j] } else { m[si][j + 1] },
                )
            },
    )
}

/// The identity entry at row `i`, column `j`.
pub open spec fn iden_entry(i: int, j: int) -> i64 {
    if i == j { 1 } else { 0 }
}

/// Every row of `m` has as many entries as `m` has rows.
pub open spec fn is_square(m: Seq<Seq<i64>>) -> bool {
    forall|i: int| 0 <= i < m.len() ==> (#[trigger] m[i]).len() == m.len()
}

/// The sign of the cofactor at a position whose row and column add up to `k`.
pub open spec fn cofactor_sign(k: int) -> int {
    if k % 2 == 1 { -1 } else { 1 }
}

/// The first `k` terms of the expansion of the determinant along the first row.
pub open spec fn det_terms(m: Seq<Seq<i64>>, k: int) -> int
    decreases m.len(), k,
{
    if k <= 0 || m.len() == 0 {
        0
    } else {
        det_terms(m, k - 1) + cofactor_sign(k - 1) * (m[0][k - 1] * det(minor(m, 0, k - 1)))
    }
}

/// The determinant of a square matrix given by its rows (one for the empty matrix).
pub open spec fn det(m: Seq<Seq<i64>>) -> int
    decreases m.len(), m.len() + 1,
{
    if m.len() == 0 {
        1
    } else {
        det_terms(m, m.len() as int)
    }
}

/// The minors of the first `k` entries of the first row each satisfy `det_fits`.
pub open spec fn minors_fit(m: Seq<Seq<i64>>, k: int) -> bool
    decreases m.len(), k,
{
    if k <= 0 || m.len() == 0 {
        true
    } else {
        minors_fit(m, k - 1) && det_fits(minor(m, 0, k - 1))
    }
}

/// Every value met while expanding the determinant of `m` along first rows, down to the
/// empty matrix, lies in the range of `i64` that is closed under negation.
pub open spec fn det_fits(m: Seq<Seq<i64>>) -> bool
    decreases m.len(), m.len() + 1,
{
    if m.len() == 0 {
        true
    } else {
        &&& minors_fit(m, m.len() as int)
        &&& forall|j: int|
            0 <= j < m.len() ==> fits_sym(#[trigger] (m[0][j] * det(minor(m, 0, j))))
        &&& forall|k: int| 0 <= k <= m.len() ==> fits_sym(#[trigger] det_terms(m, k))
    }
}

/// Each minor counted by `minors_fit` satisfies `det_fits`.
proof fn lemma_minors_fit(m: Seq<Seq<i64>>, k: int, j: int)
    requires
        minors_fit(m, k),
        m.len() > 0,
        0 <= j < k,
    ensures
        det_fits(minor(m, 0, j)),
    decreases k,
{
    if j < k - 1 {
        lemma_minors_fit(m, k - 1, j);
    }
}

/// The cofactor of entry `(row, col)`: the signed determinant of its minor.
pub open spec fn cofactor(m: Seq<Seq<i64>>, row: int, col: int) -> int {
    cofactor_sign(row + col) * det(minor(m, row, col))
}

/// Every entry-wise sum of two matrices is an `i64`.
pub open spec fn entry_sums_fit(a: Seq<Seq<i64>>, b: Seq<Seq<i64>>) -> bool {
    forall|i: int, j: int|
        0 <= i < a.len() && 0 <= j < a[i].len() ==> fits(#[trigger] (a[i][j] + b[i][j]))
}

/// Every entry-wise difference of two matrices is an `i64`.
pub open spec fn entry_diffs_fit(a: Seq<Seq<i64>>, b: Seq<Seq<i64>>) -> bool {
    forall|i: int, j: int|
        0 <= i < a.len() && 0 <= j < a[i].len() ==> fits(#[trigger] (a[i][j] - b[i][j]))
}

/// Every dot product of a row of `a` with a column of `b`, and every partial sum in it,
/// is an `i64`.
pub open spec fn product_fits(a: Seq<Seq<i64>>, b: Seq<Seq<i64>>, p: int) -> bool {
    forall|i: int, j: int| 0 <= i < a.len() && 0 <= j < p ==> #[trigger] dot_fits(a[i], column(b, j))
}

/// Row `i` of the nested vectors' deep view is the view of vector `i`.
proof fn lemma_rows_deep_view(m: &Vec<Vec<i64>>)
    ensures
        m.deep_view().len() == m@.len(),
        forall|i: int| 0 <= i < m@.len() ==> #[trigger] m.deep_view()[i] == m@[i]@,
{
    assert forall|i: int| 0 <= i < m@.len() implies #[trigger] m.deep_view()[i] == m@[i]@ by {
        assert(m.deep_view()[i] =~= m@[i]@);
    }
}

/// The determinant of a square matrix given as nested vectors, by expansion along the
/// first row.
fn det_rows(m: &Vec<Vec<i64>>) -> (r: i64)
    requires
        is_square(m.deep_view()),
        det_fits(m.deep_view()),
    ensures
        r == det(m.deep_view()),
        fits_sym(r as int),
    decreases m.len(),
{
    let ghost mv = m.deep_view();
    proof {
        lemma_rows_deep_view(m);
    }
    let n = m.len();
    if n == 0 {
        return 1;
    }
    let mut acc: i64 = 0;
    let mut j: usize = 0;
    while j < n
        invariant
            0 <= j <= n,
            n == m.len(),
            mv == m.deep_view(),
            mv.len() == n,
            n > 0,
            is_square(mv),
            det_fits(mv),
            acc == det_terms(mv, j as int),
        decreases n - j,
    {
        let sub = minor_rows(m, 0, j);
        proof {
            lemma_minors_fit(mv, n as int, j as int);
        }
        let d = det_rows(&sub);
        assert(fits_sym(mv[0][j as int] * det(minor(mv, 0, j as int))));
        assert(mv[0][j as int] == m@[0]@[j as int]);
        let t = m[0][j] * d;
        let signed: i64 = if j % 2 == 1 { -t } else { t };
        assert(fits_sym(det_terms(mv, j + 1)));
        acc = acc + signed;
        j += 1;
    }
    acc
}

/// A square matrix given as nested vectors, with row `row` and column `col` removed.
fn minor_rows(m: &Vec<Vec<i64>>, row: usize, col: usize) -> (r: Vec<Vec<i64>>)
    requires
        is_square(m.deep_view()),
        row < m.len(),
        col < m.len(),
    ensures
        r.deep_view() == minor(m.deep_view(), row as int, col as int),
        is_square(r.deep_view()),
        r.len() + 1 == m.len(),
{
    let ghost mv = m.deep_view();
    let ghost target = minor(mv, row as int, col as int);
    proof {
        lemma_rows_deep_view(m);
    }
    let n = m.len();
    let mut out: Vec<Vec<i64>> = Vec::new();
    let mut q: usize = 0;
    while q + 1 < n
        invariant
            0 <= q <= n - 1,
            n == m.len(),
            mv == m.deep_view(),
            target == minor(mv, row as int, col as int),
            is_square(mv),
            row < n,
            col < n,
            out.len() == q,
            forall|qq: int| 0 <= qq < q ==> (#[trigger] out@[qq]@) == target[qq],
        decreases n - q,
    {
        let i: usize = if q < row { q } else { q + 1 };
        assert(m@[i as int]@ == mv[i as int]);
        let mut line: Vec<i64> = Vec::new();
        let mut c: usize = 0;
        while c + 1 < n
            invariant
                0 <= c <= n - 1,
                n == m.len(),
                mv == m.deep_view(),
                is_square(mv),
                0 <= i < n,
                col < n,
                line.len() == c,
                forall|cc: int|
                    0 <= cc < c ==> (#[trigger] line@[cc]) == (if cc < col { mv[i as int][cc] } else { mv[i as int][cc + 1] }),
            decreases n - c,
        {
            let j: usize = if c < col { c } else { c + 1 };
            assert(m@[i as int]@ == mv[i as int]);
            line.push(m[i][j]);
            c += 1;
        }
        assert(line@ =~= target[q as int]);
        out.push(line);
        q += 1;
    }
    proof {
        lemma_rows_deep_view(&out);
    }
    assert(out.deep_view() =~= target);
    out
}

impl<const N: usize, const M: usize> View for Matrix<N, M> {
    type V = Seq<Seq<i64>>;

    closed spec fn view(&self) -> Seq<Seq<i64>> {
        rows_of(self.data)
    }
}

impl<const N: usize, const M: usize> Matrix<N, M> {
    /// A matrix always has `N` rows of `M` entries.
    pub broadcast proof fn lemma_shape(m: Matrix<N, M>)
        ensures
            #[trigger] m@.len() == N,
            forall|i: int| 0 <= i < N ==> (#[trigger] m@[i]).len() == M,
    {
    }

    /// The matrix with every entry zero.
    pub fn new() -> (r: Self)
        ensures
            r@.len() == N,
            forall|i: int, j: int| 0 <= i < N && 0 <= j < M ==> (#[trigger] r@[i][j]) == 0,
    {
        let row = [0i64; M];
        let mut data = [row; N];
        let mut i: usize = 0;
        while i < N
            invariant
                0 <= i <= N,
                row@ == Seq::new(M as nat, |_j: int| 0i64),
                forall|k: int| 0 <= k < i ==> data@[k]@ == row@,
            decreases N - i,
        {
            data[i] = row;
            i += 1;
        }
        Self { data }
    }

    pub fn from(data: [[i64; M]; N]) -> (r: Self)
        ensures
            r@ == rows_of(data),
    {
        Self { data }
    }

    /// The entries of row `row`.
    pub fn get_row(&self, row: usize) -> (r: [i64; M])
        requires
            row < N,
        ensures
            r@ == self@[row as int],
    {
        self.data[row]
    }

    /// The entries of column `col`, top to bottom.
    pub fn get_col(&self, col: usize) -> (r: [i64; N])
        requires
            col < M,
        ensures
            r@ == column(self@, col as int),
    {
        let mut out = [0i64; N];
        let mut i: usize = 0;
        while i < N
            invariant
                0 <= i <= N,
                col < M,
                forall|k: int| 0 <= k < i ==> out@[k] == self@[k][col as int],
            decreases N - i,
        {
            out[i] = self.data[i][col];
            i += 1;
        }
        assert(out@ =~= column(self@, col as int));
        out
    }

    /// The transpose: entry `(j, i)` of the result is entry `(i, j)` of `self`.
    pub fn trans(&self) -> (r: Matrix<M, N>)
        ensures
            forall|i: int, j: int|
                0 <= i < N && 0 <= j < M ==> (#[trigger] r@[j][i]) == self@[i][j],
    {
        let mut data = [[0i64; N]; M];
        let mut j: usize = 0;
        while j < M
            invariant
                0 <= j <= M,
                forall|jj: int, i: int|
                    0 <= jj < j && 0 <= i < N ==> (#[trigger] data@[jj]@[i]) == self@[i][jj],
            decreases M - j,
        {
            data[j] = self.get_col(j);
            j += 1;
        }
        Matrix { data }
    }

    /// The identity: ones on the diagonal, zeros elsewhere.
    pub fn iden() -> (r: Self)
        ensures
            r@.len() == N,
            forall|i: int, j: int|
                0 <= i < N && 0 <= j < M ==> (#[trigger] r@[i][j]) == iden_entry(i, j),
    {
        let mut data = [[0i64; M]; N];
        let mut i: usize = 0;
        while i < N
            invariant
                0 <= i <= N,
                forall|ii: int, j: int|
                    0 <= ii < i && 0 <= j < M ==> (#[trigger] data@[ii]@[j]) == iden_entry(ii, j),
            decreases N - i,
        {
            let mut row = [0i64; M];
            let mut j: usize = 0;
            while j < M
                invariant
                    0 <= j <= M,
                    0 <= i < N,
                    forall|jj: int| 0 <= jj < j ==> (#[trigger] row@[jj]) == iden_entry(i as int, jj),
                decreases M - j,
            {
                row[j] = if i == j { 1 } else { 0 };
                j += 1;
            }
            data[i] = row;
            i += 1;
        }
        Matrix { data }
    }

    /// The rows as nested vectors.
    fn to_rows(&self) -> (r: Vec<Vec<i64>>)
        ensures
            r.deep_view() == self@,
    {
        let mut out: Vec<Vec<i64>> = Vec::new();
        let mut i: usize = 0;
        while i < N
            invariant
                0 <= i <= N,
                out.len() == i,
                forall|ii: int| 0 <= ii < i ==> (#[trigger] out@[ii]@) == self@[ii],
            decreases N - i,
        {
            let mut line: Vec<i64> = Vec::new();
            let mut j: usize = 0;
            while j < M
                invariant
                    0 <= j <= M,
                    0 <= i < N,
                    line.len() == j,
                    forall|jj: int| 0 <= jj < j ==> (#[trigger] line@[jj]) == self@[i as int][jj],
                decreases M - j,
            {
                line.push(self.data[i][j]);
                j += 1;
            }
            assert(line@ =~= self@[i as int]);
            out.push(line);
            i += 1;
        }
        proof {
            lemma_rows_deep_view(&out);
        }
        assert(out.deep_view() =~= self@);
        out
    }

    /// The matrix with row `row` and column `col` removed.
    pub fn sub_matrix<const Q: usize, const R: usize>(&self, row: usize, col: usize) -> (r: Matrix<
        Q,
        R,
    >)
        requires
            Q + 1 == N,
            R + 1 == M,
            row < N,
            col < M,
        ensures
            r@ == minor(self@, row as int, col as int),
    {
        let mut data = [[0i64; R]; Q];
        let mut q: usize = 0;
        while q < Q
            invariant
                0 <= q <= Q,
                Q + 1 == N,
                R + 1 == M,
                row < N,
                col < M,
                forall|qq: int| 0 <= qq < q ==> (#[trigger] data@[qq]@) == minor(self@, row as int, col as int)[qq],
            decreases Q - q,
        {
            let i: usize = if q < row { q } else { q + 1 };
            let mut out = [0i64; R];
            let mut r: usize = 0;
            while r < R
                invariant
                    0 <= r <= R,
                    R + 1 == M,
                    0 <= i < N,
                    col < M,
                    forall|rr: int|
                        0 <= rr < r ==> (#[trigger] out@[rr]) == (if rr < col { self@[i as int][rr] } else { self@[i as int][rr + 1] }),
                decreases R - r,
            {
                let j: usize = if r < col { r } else { r + 1 };
                out[r] = self.data[i][j];
                r += 1;
            }
            assert(out@ =~= minor(self@, row as int, col as int)[q as int]);
            data[q] = out;
            q += 1;
        }
        let res = Matrix { data };
        assert(res@ =~= minor(self@, row as int, col as int));
        res
    }
}

impl<const N: usize> Matrix<N, N> {
    /// The determinant.
    pub fn det(&self) -> (r: i64)
        requires
            det_fits(self@),
        ensures
            r == det(self@),
    {
        let rows = self.to_rows();
        det_rows(&rows)
    }

    /// The cofactor of entry `(row, col)`; zero where the position lies outside the matrix.
    pub fn cofactor<const Q: usize>(&self, row: usize, col: usize) -> (r: i64)
        requires
            Q + 1 == N,
            row < N && col < N ==> det_fits(minor(self@, row as int, col as int)),
        ensures
            row < N && col < N ==> r == cofactor(self@, row as int, col as int),
            !(row < N && col < N) ==> r == 0,
            fits_sym(r as int),
    {
        if row < N && col < N {
            let sub: Matrix<Q, Q> = self.sub_matrix(row, col);
            let rows = sub.to_rows();
            let d = det_rows(&rows);
            if row % 2 != col % 2 {
                -d
            } else {
                d
            }
        } else {
            0
        }
    }

    /// The adjugate: entry `(i, j)` is the cofactor of `(j, i)`. It is the inverse times
    /// the determinant, and has integer entries where the inverse may not.
    pub fn adjugate<const Q: usize>(&self) -> (r: Matrix<N, N>)
        requires
            Q + 1 == N,
            forall|i: int, j: int| 0 <= i < N && 0 <= j < N ==> #[trigger] det_fits(minor(self@, i, j)),
        ensures
            forall|i: int, j: int| 0 <= i < N && 0 <= j < N ==> (#[trigger] r@[i][j]) == cofactor(self@, j, i),
    {
        let mut data = [[0i64; N]; N];
        let mut i: usize = 0;
        while i < N
            invariant
                0 <= i <= N,
                Q + 1 == N,
                forall|a: int, b: int| 0 <= a < N && 0 <= b < N ==> #[trigger] det_fits(minor(self@, a, b)),
                forall|ii: int, j: int|
                    0 <= ii < i && 0 <= j < N ==> (#[trigger] data@[ii]@[j]) == cofactor(self@, j, ii),
            decreases N - i,
        {
            let mut line = [0i64; N];
            let mut j: usize = 0;
            while j < N
                invariant
                    0 <= j <= N,
                    0 <= i < N,
                    Q + 1 == N,
                    forall|a: int, b: int| 0 <= a < N && 0 <= b < N ==> #[trigger] det_fits(minor(self@, a, b)),
                    forall|jj: int| 0 <= jj < j ==> (#[trigger] line@[jj]) == cofactor(self@, jj, i as int),
                decreases N - j,
            {
                line[j] = self.cofactor::<Q>(j, i);
                j += 1;
            }
            data[i] = line;
            i += 1;
        }
        Matrix { data }
    }

    /// The inverse by cofactors: entry `(i, j)` is the cofactor of `(j, i)` divided by the
    /// determinant, rounding toward zero.
    pub fn inverse<const Q: usize>(&self) -> (r: Matrix<N, N>)
        requires
            Q + 1 == N,
            det_fits(self@),
            det(self@) != 0,
            forall|i: int, j: int| 0 <= i < N && 0 <= j < N ==> #[trigger] det_fits(minor(self@, i, j)),
        ensures
            forall|i: int, j: int|
                0 <= i < N && 0 <= j < N ==> (#[trigger] r@[i][j]) == trunc_div(cofactor(self@, j, i), det(self@)),
    {
        let d = self.det();
        let mut data = [[0i64; N]; N];
        let mut i: usize = 0;
        while i < N
            invariant
                0 <= i <= N,
                Q + 1 == N,
                d == det(self@),
                d != 0,
                forall|a: int, b: int| 0 <= a < N && 0 <= b < N ==> #[trigger] det_fits(minor(self@, a, b)),
                forall|ii: int, j: int|
                    0 <= ii < i && 0 <= j < N ==> (#[trigger] data@[ii]@[j]) == trunc_div(cofactor(self@, j, ii), det(self@)),
            decreases N - i,
        {
            let mut line = [0i64; N];
            let mut j: usize = 0;
            while j < N
                invariant
                    0 <= j <= N,
                    0 <= i < N,
                    Q + 1 == N,
                    d == det(self@),
                    d != 0,
                    forall|a: int, b: int| 0 <= a < N && 0 <= b < N ==> #[trigger] det_fits(minor(self@, a, b)),
                    forall|jj: int| 0 <= jj < j ==> (#[trigger] line@[jj]) == trunc_div(cofactor(self@, jj, i as int), det(self@)),
                decreases N - j,
            {
                let c = self.cofactor::<Q>(j, i);
                line[j] = trunc_quot(c, d);
                j += 1;
            }
            data[i] = line;
            i += 1;
        }
        Matrix { data }
    }
}

/// Equal when every entry is equal.
impl<const N: usize, const M: usize> PartialEq for Matrix<N, M> {
    fn eq(&self, other: &Self) -> (r: bool) {
        let mut i: usize = 0;
        while i < N
            invariant
                0 <= i <= N,
                forall|ii: int| 0 <= ii < i ==> #[trigger] self@[ii] == other@[ii],
            decreases N - i,
        {
            let mut j: usize = 0;
            while j < M
                invariant
                    0 <= j <= M,
                    0 <= i < N,
                    forall|jj: int| 0 <= jj < j ==> #[trigger] self@[i as int][jj] == other@[i as int][jj],
                decreases M - j,
            {
                if self.data[i][j] != other.data[i][j] {
                    assert(self@[i as int][j as int] != other@[i as int][j as int]);
                    return false;
                }
                j += 1;
            }
            assert(self@[i as int] =~= other@[i as int]);
            i += 1;
        }
        assert(self@ =~= other@);
        true
    }
}

impl<const N: usize, const M: usize> vstd::std_specs::cmp::PartialEqSpecImpl for Matrix<N, M> {
    open spec fn obeys_eq_spec() -> bool {
        true
    }

    open spec fn eq_spec(&self, other: &Self) -> bool {
        self@ == other@
    }
}

impl<const N: usize, const M: usize> core::ops::Add for Matrix<N, M> {
    type Output = Self;

    fn add(self, rhs: Self) -> (r: Self)
        ensures
            forall|i: int, j: int|
                0 <= i < N && 0 <= j < M ==> (#[trigger] r@[i][j]) == self@[i][j] + rhs@[i][j],
    {
        let mut data = self.data;
        let mut i: usize = 0;
        while i < N
            invariant
                0 <= i <= N,
                entry_sums_fit(self@, rhs@),
                forall|ii: int, j: int|
                    0 <= ii < i && 0 <= j < M ==> (#[trigger] data@[ii]@[j]) == self@[ii][j] + rhs@[ii][j],
            decreases N - i,
        {
            let mut line = self.data[i];
            let mut j: usize = 0;
            while j < M
                invariant
                    0 <= j <= M,
                    0 <= i < N,
                    entry_sums_fit(self@, rhs@),
                    forall|jj: int| 0 <= jj < j ==> (#[trigger] line@[jj]) == self@[i as int][jj] + rhs@[i as int][jj],
                decreases M - j,
            {
                assert(fits(self@[i as int][j as int] + rhs@[i as int][j as int]));
                line[j] = self.data[i][j] + rhs.data[i][j];
                j += 1;
            }
            data[i] = line;
            i += 1;
        }
        Matrix { data }
    }
}

impl<const N: usize, const M: usize> vstd::std_specs::ops::AddSpecImpl for Matrix<N, M> {
    open spec fn obeys_add_spec() -> bool {
        false
    }

    open spec fn add_req(self, rhs: Self) -> bool {
        entry_sums_fit(self@, rhs@)
    }

    open spec fn add_spec(self, rhs: Self) -> Self {
        self
    }
}

impl<const N: usize, const M: usize> core::ops::Sub for Matrix<N, M> {
    type Output = Self;

    fn sub(self, rhs: Self) -> (r: Self)
        ensures
            forall|i: int, j: int|
                0 <= i < N && 0 <= j < M ==> (#[trigger] r@[i][j]) == self@[i][j] - rhs@[i][j],
    {
        let mut data = self.data;
        let mut i: usize = 0;
        while i < N
            invariant
                0 <= i <= N,
                entry_diffs_fit(self@, rhs@),
                forall|ii: int, j: int|
                    0 <= ii < i && 0 <= j < M ==> (#[trigger] data@[ii]@[j]) == self@[ii][j] - rhs@[ii][j],
            decreases N - i,
        {
            let mut line = self.data[i];
            let mut j: usize = 0;
            while j < M
                invariant
                    0 <= j <= M,
                    0 <= i < N,
                    entry_diffs_fit(self@, rhs@),
                    forall|jj: int| 0 <= jj < j ==> (#[trigger] line@[jj]) == self@[i as int][jj] - rhs@[i as int][jj],
                decreases M - j,
            {
                assert(fits(self@[i as int][j as int] - rhs@[i as int][j as int]));
                line[j] = self.data[i][j] - rhs.data[i][j];
                j += 1;
            }
            data[i] = line;
            i += 1;
        }
        Matrix { data }
    }
}

impl<const N: usize, const M: usize> vstd::std_specs::ops::SubSpecImpl for Matrix<N, M> {
    open spec fn obeys_sub_spec() -> bool {
        false
    }

    open spec fn sub_req(self, rhs: Self) -> bool {
        entry_diffs_fit(self@, rhs@)
    }

    open spec fn sub_spec(self, rhs: Self) -> Self {
        self
    }
}

/// The matrix product: entry `(i, j)` is the dot product of row `i` of `self` and
/// column `j` of `rhs`.
impl<const N: usize, const M: usize, const P: usize> core::ops::Mul<Matrix<M, P>> for Matrix<N, M> {
    type Output = Matrix<N, P>;

    fn mul(self, rhs: Matrix<M, P>) -> (r: Matrix<N, P>)
        ensures
            forall|i: int, j: int|
                0 <= i < N && 0 <= j < P ==> (#[trigger] r@[i][j]) == dot(self@[i], column(rhs@, j)),
    {
        let mut data = [[0i64; P]; N];
        let mut i: usize = 0;
        while i < N
            invariant
                0 <= i <= N,
                product_fits(self@, rhs@, P as int),
                forall|ii: int, j: int|
                    0 <= ii < i && 0 <= j < P ==> (#[trigger] data@[ii]@[j]) == dot(self@[ii], column(rhs@, j)),
            decreases N - i,
        {
            let mut line = [0i64; P];
            let mut j: usize = 0;
            while j < P
                invariant
                    0 <= j <= P,
                    0 <= i < N,
                    product_fits(self@, rhs@, P as int),
                    forall|jj: int| 0 <= jj < j ==> (#[trigger] line@[jj]) == dot(self@[i as int], column(rhs@, jj)),
                decreases P - j,
            {
                let col = rhs.get_col(j);
                assert(dot_fits(self@[i as int], column(rhs@, j as int)));
                line[j] = dot_arrays(&self.data[i], &col);
                j += 1;
            }
            data[i] = line;
            i += 1;
        }
        Matrix { data }
    }
}

impl<const N: usize, const M: usize, const P: usize> vstd::std_specs::ops::MulSpecImpl<Matrix<M, P>> for Matrix<N, M> {
    open spec fn obeys_mul_spec() -> bool {
        false
    }

    open spec fn mul_req(self, rhs: Matrix<M, P>) -> bool {
        product_fits(self@, rhs@, P as int)
    }

    open spec fn mul_spec(self, rhs: Matrix<M, P>) -> Matrix<N, P> {
        arbitrary()
    }
}

/// A point transformed: coordinate `i` is the dot product of row `i` with the point.
impl<const N: usize, const M: usize> core::ops::Mul<Point<M>> for Matrix<N, M> {
    type Output = Point<N>;

    fn mul(self, rhs: Point<M>) -> (r: Point<N>)
        ensures
            forall|i: int| 0 <= i < N ==> (#[trigger] r@[i]) == dot(self@[i], rhs@),
    {
        let p = rhs.to_array();
        let mut out = [0i64; N];
        let mut i: usize = 0;
        while i < N
            invariant
                0 <= i <= N,
                p@ == rhs@,
                forall|ii: int| 0 <= ii < N ==> #[trigger] dot_fits(self@[ii], rhs@),
                forall|ii: int| 0 <= ii < i ==> (#[trigger] out@[ii]) == dot(self@[ii], rhs@),
            decreases N - i,
        {
            assert(self.data@[i as int]@ == self@[i as int]);
            out[i] = dot_arrays(&self.data[i], &p);
            i += 1;
        }
        Point::from(out)
    }
}

impl<const N: usize, const M: usize> vstd::std_specs::ops::MulSpecImpl<Point<M>> for Matrix<N, M> {
    open spec fn obeys_mul_spec() -> bool {
        false
    }

    open spec fn mul_req(self, rhs: Point<M>) -> bool {
        forall|i: int| 0 <= i < N ==> #[trigger] dot_fits(self@[i], rhs@)
    }

    open spec fn mul_spec(self, rhs: Point<M>) -> Point<N> {
        arbitrary()
    }
}

/// A vector transformed: coordinate `i` is the dot product of row `i` with the vector.
impl<const N: usize, const M: usize> core::ops::Mul<Vector<M>> for Matrix<N, M> {
    type Output = Vector<N>;

    fn mul(self, rhs: Vector<M>) -> (r: Vector<N>)
        ensures
            forall|i: int| 0 <= i < N ==> (#[trigger] r@[i]) == dot(self@[i], rhs@),
    {
        let p = rhs.to_array();
        let mut out = [0i64; N];
        let mut i: usize = 0;
        while i < N
            invariant
                0 <= i <= N,
                p@ == rhs@,
                forall|ii: int| 0 <= ii < N ==> #[trigger] dot_fits(self@[ii], rhs@),
                forall|ii: int| 0 <= ii < i ==> (#[trigger] out@[ii]) == dot(self@[ii], rhs@),
            decreases N - i,
        {
            assert(self.data@[i as int]@ == self@[i as int]);
            out[i] = dot_arrays(&self.data[i], &p);
            i += 1;
        }
        Vector::from(out)
    }
}

impl<const N: usize, const M: usize> vstd::std_specs::ops::MulSpecImpl<Vector<M>> for Matrix<N, M> {
    open spec fn obeys_mul_spec() -> bool {
        false
    }

    open spec fn mul_req(self, rhs: Vector<M>) -> bool {
        forall|i: int| 0 <= i < N ==> #[trigger] dot_fits(self@[i], rhs@)
    }

    open spec fn mul_spec(self, rhs: Vector<M>) -> Vector<N> {
        arbitrary()
    }
}

/// Every entry multiplied by a scalar.
impl<const N: usize, const M: usize> core::ops::Mul<i64> for Matrix<N, M> {
    type Output = Self;

    fn mul(self, rhs: i64) -> (r: Self)
        ensures
            forall|i: int, j: int|
                0 <= i < N && 0 <= j < M ==> (#[trigger] r@[i][j]) == self@[i][j] * rhs,
    {
        let mut data = self.data;
        let mut i: usize = 0;
        while i < N
            invariant
                0 <= i <= N,
                forall|ii: int| 0 <= ii < N ==> #[trigger] scaled_fits(self@[ii], rhs),
                forall|ii: int, j: int|
                    0 <= ii < i && 0 <= j < M ==> (#[trigger] data@[ii]@[j]) == self@[ii][j] * rhs,
            decreases N - i,
        {
            assert(self.data@[i as int]@ == self@[i as int]);
            data[i] = scale_array(&self.data[i], rhs);
            i += 1;
        }
        Matrix { data }
    }
}

impl<const N: usize, const M: usize> vstd::std_specs::ops::MulSpecImpl<i64> for Matrix<N, M> {
    open spec fn obeys_mul_spec() -> bool {
        false
    }

    open spec fn mul_req(self, rhs: i64) -> bool {
        forall|i: int| 0 <= i < N ==> #[trigger] scaled_fits(self@[i], rhs)
    }

    open spec fn mul_spec(self, rhs: i64) -> Self {
        self
    }
}

/// Every entry divided by a scalar, rounding toward zero.
impl<const N: usize, const M: usize> core::ops::Div<i64> for Matrix<N, M> {
    type Output = Self;

    fn div(self, rhs: i64) -> (r: Self)
        ensures
            forall|i: int, j: int|
                0 <= i < N && 0 <= j < M ==> (#[trigger] r@[i][j]) == trunc_div(
                    self@[i][j] as int,
                    rhs as int,
                ),
    {
        let mut data = self.data;
        let mut i: usize = 0;
        while i < N
            invariant
                0 <= i <= N,
                forall|ii: int| 0 <= ii < N ==> #[trigger] quot_fits(self@[ii], rhs),
                forall|ii: int, j: int|
                    0 <= ii < i && 0 <= j < M ==> (#[trigger] data@[ii]@[j]) == trunc_div(
                        self@[ii][j] as int,
                        rhs as int,
                    ),
            decreases N - i,
        {
            assert(self.data@[i as int]@ == self@[i as int]);
            data[i] = div_array(&self.data[i], rhs);
            i += 1;
        }
        Matrix { data }
    }
}

impl<const N: usize, const M: usize> vstd::std_specs::ops::DivSpecImpl<i64> for Matrix<N, M> {
    open spec fn obeys_div_spec() -> bool {
        false
    }

    open spec fn div_req(self, rhs: i64) -> bool {
        rhs != 0 && forall|i: int| 0 <= i < N ==> #[trigger] neg_fits(self@[i])
    }

    open spec fn div_spec(self, rhs: i64) -> Self {
        self
    }
}

} // verus!
