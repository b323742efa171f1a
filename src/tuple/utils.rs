use vstd::prelude::*;

verus! {

/// `r` is the integer square root of `v`: the largest integer whose square is at most `v`.
pub open spec fn is_floor_sqrt(r: int, v: int) -> bool {
    0 <= r && r * r <= v && v < (r + 1) * (r + 1)
}

/// The integer square root of `v`, and zero for a negative `v`.
pub open spec fn floor_sqrt(v: int) -> int {
    if v < 0 {
        0
    } else {
        choose|r: int| is_floor_sqrt(r, v)
    }
}

/// At most one integer is the integer square root of `v`.
pub proof fn lemma_floor_sqrt_unique(r: int, v: int)
    requires
        is_floor_sqrt(r, v),
    ensures
        floor_sqrt(v) == r,
{
    assert(exists|s: int| is_floor_sqrt(s, v));
    let s = floor_sqrt(v);
    assert(is_floor_sqrt(s, v));
    if s < r {
        assert((s + 1) * (s + 1) <= r * r) by (nonlinear_arith)
            requires
                0 <= s,
                s + 1 <= r,
        ;
    } else if r < s {
        assert((r + 1) * (r + 1) <= s * s) by (nonlinear_arith)
            requires
                0 <= r,
                r + 1 <= s,
        ;
    }
}

/// Square root of a number.
pub trait Sqrt<Rhs = Self> {
    type Output;

    fn sqrt(value: Rhs) -> Self::Output;
}

/// The integer square root of a non-negative `i64` (zero for a negative one).
pub(crate) fn isqrt(v: i64) -> (r: i64)
    ensures
        r == floor_sqrt(v as int),
        v >= 0 ==> is_floor_sqrt(r as int, v as int),
{
    if v < 0 {
        return 0;
    }
    let mut lo: i64 = 0;
    let mut hi: i64 = 3037000500;
    assert(hi * hi > i64::MAX);
    while hi - lo > 1
        invariant
            0 <= lo < hi <= 3037000500,
            lo * lo <= v,
            v < hi * hi,
        decreases hi - lo,
    {
        let mid: i64 = lo + (hi - lo) / 2;
        assert(mid * mid <= 3037000499 * 3037000499) by (nonlinear_arith)
            requires
                0 <= mid <= 3037000499,
        ;
        if mid * mid <= v {
            lo = mid;
        } else {
            hi = mid;
        }
    }
    assert(is_floor_sqrt(lo as int, v as int));
    proof {
        lemma_floor_sqrt_unique(lo as int, v as int);
    }
    lo
}

impl Sqrt<i64> for i64 {
    type Output = i64;

    /// The integer square root; zero for a negative value.
    fn sqrt(value: i64) -> (r: i64)
        ensures
            r == floor_sqrt(value as int),
    {
        isqrt(value)
    }
}

impl Sqrt<i32> for i32 {
    type Output = i32;

    /// The integer square root; zero for a negative value.
    fn sqrt(value: i32) -> (r: i32)
        ensures
            r == floor_sqrt(value as int),
    {
        let r = isqrt(value as i64);
        assert(r * r <= i32::MAX) by {
            if value < 0 {
                assert(r == 0);
            }
        }
        assert(r <= i32::MAX) by (nonlinear_arith)
            requires
                0 <= r,
                r * r <= i32::MAX,
        ;
        r as i32
    }
}

} // verus!
