//! Putting the rows of a plan in the opposite order.

use crate::engine::frame::{reverse, reversed};
use crate::error::TransformError;
use crate::transform::transformer::Transformation;
use polars::prelude::LazyFrame;
use vstd::prelude::*;

verus! {

/// Reverses the order of the rows; no value changes.
pub struct ReverseRows {}

impl Transformation for ReverseRows {
    open spec fn outcome(self, df: LazyFrame, out: Result<LazyFrame, TransformError>) -> bool {
        out == Ok::<LazyFrame, TransformError>(reversed(df))
    }

    /// Extends the plan by the reversal of its rows.
    fn apply(self, df: LazyFrame) -> (out: Result<LazyFrame, TransformError>) {
        Ok(reverse(df))
    }
}

} // verus!
