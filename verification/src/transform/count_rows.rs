//! Counting the rows of a plan.

use crate::engine::expr::{alias, aliased, is_row_count, len};
use crate::engine::frame::{projected, select};
use crate::error::TransformError;
use crate::transform::transformer::Transformation;
use polars::prelude::{Expr, LazyFrame};
use vstd::prelude::*;

verus! {

/// Replaces the plan by one row with one column, `Row Count`, that holds
/// the number of rows.
pub struct CountRows {}

impl Transformation for CountRows {
    open spec fn outcome(self, df: LazyFrame, out: Result<LazyFrame, TransformError>) -> bool {
        exists|count: Expr|
            is_row_count(count) && out == Ok::<LazyFrame, TransformError>(
                projected(df, seq![aliased(count, "Row Count"@)]),
            )
    }

    /// Extends the plan by the selection of its row count.
    fn apply(self, df: LazyFrame) -> (out: Result<LazyFrame, TransformError>) {
        let count = len();
        let exprs = vec![alias(count, "Row Count")];
        assert(exprs@ == seq![aliased(count, "Row Count"@)]);
        Ok(select(df, exprs))
    }
}

} // verus!
