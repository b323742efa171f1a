use vstd::prelude::*;

verus! {

/// A fixed-length sequence of integer coordinates.
pub trait Tuple<const N: usize>: Sized {
    /// The coordinates, in order.
    spec fn coords(&self) -> Seq<i64>;

    /// The value with every coordinate zero.
    fn new() -> (r: Self)
        ensures
            r.coords() == Seq::new(N as nat, |_i: int| 0i64),
    ;

    /// The coordinate at `i`, or `None` past the last one.
    fn get(&self, i: usize) -> (r: Option<&i64>)
        ensures
            i < N ==> r == Some(&self.coords()[i as int]),
            i >= N ==> r.is_none(),
    ;

    fn from(data: [i64; N]) -> (r: Self)
        ensures
            r.coords() == data@,
    ;
}

} // verus!
