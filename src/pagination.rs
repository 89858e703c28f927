use vstd::prelude::*;

verus! {

/// Which slice of a listing to return.
#[derive(Default, Debug)]
pub struct Pagination {
    /// Largest number of items to return, if bounded.
    pub limit: Option<u32>,
    /// Index of the first item to return.
    pub offset: u32,
}

} // verus!
