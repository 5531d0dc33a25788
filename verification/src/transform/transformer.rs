//! The contract that every transformation meets.

use crate::error::TransformError;
use polars::prelude::LazyFrame;
use vstd::prelude::*;

verus! {

/// A configuration that can extend a plan by one step.
///
/// A value is used once: `apply` consumes the configuration and the plan it
/// is given, and returns the extended plan, or the reason why there is none.
/// Nothing is executed unless the step itself says so.
pub trait Transformation: Sized {
    /// What `apply` may return for this configuration on the plan `df`.
    spec fn outcome(self, df: LazyFrame, out: Result<LazyFrame, TransformError>) -> bool;

    /// Extends the plan `df` by this step.
    fn apply(self, df: LazyFrame) -> (out: Result<LazyFrame, TransformError>)
        ensures
            self.outcome(df, out),
    ;
}

} // verus!
