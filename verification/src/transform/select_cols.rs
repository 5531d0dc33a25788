//! Keeping the named columns.

use crate::engine::expr::{cols, name_views, named_columns};
use crate::engine::frame::{projected, select};
use crate::error::TransformError;
use crate::transform::transformer::Transformation;
use polars::prelude::LazyFrame;
use vstd::prelude::*;

verus! {

/// Keeps exactly the named columns, in the order in which they are named.
pub struct SelectCols {
    pub columns: Vec<String>,
}

impl Transformation for SelectCols {
    open spec fn outcome(self, df: LazyFrame, out: Result<LazyFrame, TransformError>) -> bool {
        out == Ok::<LazyFrame, TransformError>(
            projected(df, seq![named_columns(name_views(self.columns@))]),
        )
    }

    /// Extends the plan by the selection of the named columns.
    fn apply(self, df: LazyFrame) -> (out: Result<LazyFrame, TransformError>) {
        let exprs = vec![cols(self.columns)];
        assert(exprs@ == seq![named_columns(name_views(self.columns@))]);
        Ok(select(df, exprs))
    }
}

} // verus!
