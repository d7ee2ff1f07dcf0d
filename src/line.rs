use vstd::prelude::*;

verus! {

/// A line between two points of type `T`.
pub struct Line<T> {
    pub p1: T,
    pub p2: T,
}

impl<T> Line<T> {
    pub fn new(p1: T, p2: T) -> (l: Self)
        ensures
            l.p1 == p1,
            l.p2 == p2,
    {
        Line { p1, p2 }
    }
}

} // verus!
