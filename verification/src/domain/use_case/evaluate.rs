//! The evaluation query.
use vstd::prelude::*;

verus! {

/// Which dataset to evaluate against which checkpoint.
#[derive(Clone, Debug)]
pub struct EvaluateTextQuery {
    pub dataset: String,
    pub checkpoint: String,
}

} // verus!
