use vstd::prelude::*;

verus! {

/// A screen buffer of RGBA pixels, row by row, that faces are drawn into.
pub struct Frame<'a> {
    pub buffer: &'a mut [u8],
}

impl<'a> Frame<'a> {
    pub fn new(buffer: &'a mut [u8]) -> (f: Self)
        ensures
            f.buffer@ == old(buffer)@,
    {
        Frame { buffer }
    }
}

} // verus!
