//! Applying transformations one after the other.
//!
//! A pipeline is a list of steps and a plan to start from. Each step takes
//! the plan that the step before it returned. The first step that returns
//! no plan ends the pipeline, and its error is the pipeline's.

use crate::error::TransformError;
use crate::transform::cast_cols::CastCols;
use crate::transform::count_rows::CountRows;
use crate::transform::exclude_cols::ExcludeCols;
use crate::transform::filter::Filter;
use crate::transform::group_by::GroupBy;
use crate::transform::join::Join;
use crate::transform::reverse_rows::ReverseRows;
use crate::transform::select_cols::SelectCols;
use crate::transform::sort::Sort;
use crate::transform::text::ParseText;
use crate::transform::transformer::Transformation;
use crate::transform::transpose::Transpose;
use polars::prelude::LazyFrame;
use vstd::prelude::*;

verus! {

/// Any one of the library's transformations, so that steps of different
/// kinds can stand in one list.
pub enum Step<'a> {
    CastCols(CastCols),
    CountRows(CountRows),
    ExcludeCols(ExcludeCols),
    Filter(Filter),
    GroupBy(GroupBy),
    Join(Join<'a>),
    ParseText(ParseText),
    ReverseRows(ReverseRows),
    SelectCols(SelectCols),
    Sort(Sort),
    Transpose(Transpose),
}

impl<'a> Transformation for Step<'a> {
    open spec fn outcome(self, df: LazyFrame, out: Result<LazyFrame, TransformError>) -> bool {
        match self {
            Step::CastCols(step) => step.outcome(df, out),
            Step::CountRows(step) => step.outcome(df, out),
            Step::ExcludeCols(step) => step.outcome(df, out),
            Step::Filter(step) => step.outcome(df, out),
            Step::GroupBy(step) => step.outcome(df, out),
            Step::Join(step) => step.outcome(df, out),
            Step::ParseText(step) => step.outcome(df, out),
            Step::ReverseRows(step) => step.outcome(df, out),
            Step::SelectCols(step) => step.outcome(df, out),
            Step::Sort(step) => step.outcome(df, out),
            Step::Transpose(step) => step.outcome(df, out),
        }
    }

    /// Applies the transformation that this step holds.
    fn apply(self, df: LazyFrame) -> (out: Result<LazyFrame, TransformError>) {
        match self {
            Step::CastCols(step) => step.apply(df),
            Step::CountRows(step) => step.apply(df),
            Step::ExcludeCols(step) => step.apply(df),
            Step::Filter(step) => step.apply(df),
            Step::GroupBy(step) => step.apply(df),
            Step::Join(step) => step.apply(df),
            Step::ParseText(step) => step.apply(df),
            Step::ReverseRows(step) => step.apply(df),
            Step::SelectCols(step) => step.apply(df),
            Step::Sort(step) => step.apply(df),
            Step::Transpose(step) => step.apply(df),
        }
    }
}

/// What a pipeline of `steps` may return when it starts from `df`: the plan
/// itself where there is no step; else what the remaining steps may return
/// from a plan that the first step may return, or the first step's error.
pub open spec fn pipeline_outcome<T: Transformation>(
    steps: Seq<T>,
    df: LazyFrame,
    out: Result<LazyFrame, TransformError>,
) -> bool
    decreases steps.len(),
{
    if steps.len() == 0 {
        out == Ok::<LazyFrame, TransformError>(df)
    } else {
        exists|mid: Result<LazyFrame, TransformError>|
            #[trigger] steps.first().outcome(df, mid) && match mid {
                Ok(next) => pipeline_outcome(steps.drop_first(), next, out),
                Err(reason) => out == Err::<LazyFrame, TransformError>(reason),
            }
    }
}

/// Applies the steps in their order, each to the plan that the step before
/// it returned, and returns the last plan. Nothing is executed but by a
/// step that says so. The first error ends the pipeline and is returned;
/// the steps after it are not applied.
pub fn apply_all<T: Transformation>(steps: Vec<T>, df: LazyFrame) -> (out: Result<
    LazyFrame,
    TransformError,
>)
    ensures
        pipeline_outcome(steps@, df, out),
{
    let mut rest = steps;
    let mut plan = df;
    while rest.len() > 0
        invariant
            forall|end: Result<LazyFrame, TransformError>|
                pipeline_outcome(rest@, plan, end) ==> pipeline_outcome(steps@, df, end),
        decreases rest.len(),
    {
        let ghost before = rest@;
        let ghost start = plan;
        let step = rest.remove(0);
        assert(step == before.first());
        assert(rest@ == before.drop_first());
        match step.apply(plan) {
            Ok(next) => {
                plan = next;
                assert forall|end: Result<LazyFrame, TransformError>|
                    pipeline_outcome(rest@, plan, end) implies pipeline_outcome(
                    steps@,
                    df,
                    end,
                ) by {
                    assert(before.first().outcome(start, Ok::<LazyFrame, TransformError>(next)));
                    assert(pipeline_outcome(before, start, end));
                }
            },
            Err(reason) => {
                let out = Err(reason);
                assert(before.first().outcome(start, out));
                assert(pipeline_outcome(before, start, out));
                return out;
            },
        }
    }
    Ok(plan)
}

/// A pipeline without steps returns the plan that it started from.
pub proof fn lemma_empty_pipeline<T: Transformation>(
    df: LazyFrame,
    out: Result<LazyFrame, TransformError>,
)
    ensures
        pipeline_outcome(Seq::<T>::empty(), df, out) <==> out == Ok::<LazyFrame, TransformError>(df),
{
}

/// A pipeline of one step returns what that step returns.
pub proof fn lemma_single_step_pipeline<T: Transformation>(
    step: T,
    df: LazyFrame,
    out: Result<LazyFrame, TransformError>,
)
    ensures
        pipeline_outcome(seq![step], df, out) <==> step.outcome(df, out),
{
    let steps = seq![step];
    assert(steps.first() == step);
    assert(steps.drop_first() == Seq::<T>::empty());
    if step.outcome(df, out) {
        assert(steps.first().outcome(df, out));
        match out {
            Ok(next) => {
                assert(pipeline_outcome(steps.drop_first(), next, out));
            },
            Err(_) => {},
        }
    }
    if pipeline_outcome(steps, df, out) {
        let mid = choose|mid: Result<LazyFrame, TransformError>|
            #[trigger] steps.first().outcome(df, mid) && match mid {
                Ok(next) => pipeline_outcome(steps.drop_first(), next, out),
                Err(reason) => out == Err::<LazyFrame, TransformError>(reason),
            };
        assert(mid == out);
    }
}

} // verus!
