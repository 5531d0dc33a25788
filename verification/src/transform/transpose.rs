//! Turning rows into columns.
//!
//! This is the one step that executes the plan: the engine can transpose
//! materialized data only. All that was deferred is computed when the step
//! is applied, and the result starts a new plan. It is costly, and meant as
//! a way out where nothing else serves.

use crate::engine::frame::{collect, lazy, lazy_of, transpose, transposed};
use crate::error::TransformError;
use crate::transform::transformer::Transformation;
use polars::prelude::{DataFrame, LazyFrame, PolarsError};
use vstd::prelude::*;

verus! {

/// Executes the plan and flips rows and columns. The columns of the result
/// are named by their position.
pub struct Transpose {}

impl Transpose {
    /// The plan that follows from what the execution returned: the plan
    /// over the transposed data, or the engine's error, be it from the
    /// execution or from the transposition.
    pub open spec fn plan_of(collected: Result<DataFrame, PolarsError>) -> Result<
        LazyFrame,
        TransformError,
    > {
        match collected {
            Ok(frame) => match transposed(frame) {
                Ok(flipped) => Ok(lazy_of(flipped)),
                Err(report) => Err(TransformError::Engine(report)),
            },
            Err(report) => Err(TransformError::Engine(report)),
        }
    }

    /// Transposes what the execution of a plan returned and starts a new
    /// plan from it. An error of the engine is handed on unchanged.
    pub fn transposed_plan(collected: Result<DataFrame, PolarsError>) -> (out: Result<
        LazyFrame,
        TransformError,
    >)
        ensures
            out == Self::plan_of(collected),
    {
        match collected {
            Ok(frame) => match transpose(frame) {
                Ok(flipped) => Ok(lazy(flipped)),
                Err(report) => Err(TransformError::Engine(report)),
            },
            Err(report) => Err(TransformError::Engine(report)),
        }
    }
}

impl Transformation for Transpose {
    open spec fn outcome(self, df: LazyFrame, out: Result<LazyFrame, TransformError>) -> bool {
        exists|collected: Result<DataFrame, PolarsError>| out == Self::plan_of(collected)
    }

    /// Executes the plan and starts a new one from the transposed result.
    fn apply(self, df: LazyFrame) -> (out: Result<LazyFrame, TransformError>) {
        let collected = collect(df);
        Self::transposed_plan(collected)
    }
}

} // verus!
