use vstd::prelude::*;

use crate::matrix::Matrix;

verus! {

/// Moves points by `(x, y, z)`; leaves vectors unchanged.
pub fn translation(x: i64, y: i64, z: i64) -> (r: Matrix<4, 4>)
    ensures
        r@ == seq![
            seq![1i64, 0, 0, x],
            seq![0i64, 1, 0, y],
            seq![0i64, 0, 1, z],
            seq![0i64, 0, 0, 1],
        ],
{
    let r = Matrix::from([[1, 0, 0, x], [0, 1, 0, y], [0, 0, 1, z], [0, 0, 0, 1]]);
    assert(r@ =~= seq![
        seq![1i64, 0, 0, x],
        seq![0i64, 1, 0, y],
        seq![0i64, 0, 1, z],
        seq![0i64, 0, 0, 1],
    ]);
    r
}

/// Scales each axis by its own factor.
pub fn scaling(x: i64, y: i64, z: i64) -> (r: Matrix<4, 4>)
    ensures
        r@ == seq![
            seq![x, 0, 0, 0],
            seq![0i64, y, 0, 0],
            seq![0i64, 0, z, 0],
            seq![0i64, 0, 0, 1],
        ],
{
    let r = Matrix::from([[x, 0, 0, 0], [0, y, 0, 0], [0, 0, z, 0], [0, 0, 0, 1]]);
    assert(r@ =~= seq![
        seq![x, 0, 0, 0],
        seq![0i64, y, 0, 0],
        seq![0i64, 0, z, 0],
        seq![0i64, 0, 0, 1],
    ]);
    r
}

/// Moves each coordinate in proportion to the other two: `xy` is the share of `y` added
/// to `x`, and so on.
pub fn shearing(xy: i64, xz: i64, yx: i64, yz: i64, zx: i64, zy: i64) -> (r: Matrix<4, 4>)
    ensures
        r@ == seq![
            seq![1i64, xy, xz, 0],
            seq![yx, 1, yz, 0],
            seq![zx, zy, 1, 0],
            seq![0i64, 0, 0, 1],
        ],
{
    let r = Matrix::from([[1, xy, xz, 0], [yx, 1, yz, 0], [zx, zy, 1, 0], [0, 0, 0, 1]]);
    assert(r@ =~= seq![
        seq![1i64, xy, xz, 0],
        seq![yx, 1, yz, 0],
        seq![zx, zy, 1, 0],
        seq![0i64, 0, 0, 1],
    ]);
    r
}

} // verus!
