//! The query of how many inscriptions there are.

use crate::index::{placed_count, Index};
use vstd::prelude::*;

verus! {

/// The query: it asks for nothing in particular.
#[derive(Debug)]
pub struct FindCurNum {}

/// What the query answers.
#[derive(Debug, PartialEq)]
pub struct Output {
    pub inscribe_num: usize,
}

impl FindCurNum {
    /// Answers the query from `index`: the number of inscriptions that have
    /// a place.
    pub fn run(self, index: &Index) -> (output: Output)
        ensures
            output.inscribe_num == placed_count(index.inscriptions@),
    {
        Output { inscribe_num: index.inscription_count() }
    }
}

} // verus!
