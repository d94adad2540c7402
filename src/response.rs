//! The envelope that carries every reply's items.
use vstd::prelude::*;

verus! {

/// An ordered sequence of result items, for single-item and list replies alike.
#[derive(Debug)]
pub struct Response<T> {
    pub results: Vec<T>,
}

impl<T> Response<T> {
    /// An envelope with no items.
    pub fn new() -> (r: Self)
        ensures
            r.results@ == Seq::<T>::empty(),
    {
        Response { results: Vec::new() }
    }
}

} // verus!
