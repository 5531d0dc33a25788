//! Plan builders of the engine: each takes a plan and returns the plan
//! extended by one step. Nothing is executed but by `collect`.
//!
//! The plan that a builder returns is determined by its arguments, so each
//! builder's result has a name, as the expressions have. What `collect`
//! returns depends on the data behind the plan: nothing is said of it.

use polars::prelude::{DataFrame, Expr, IntoLazy, LazyFrame, LazyGroupBy, PolarsError};
use vstd::prelude::*;

verus! {

/// The plan that `LazyFrame::filter` returns.
pub uninterp spec fn filtered(df: LazyFrame, predicate: Expr) -> LazyFrame;

/// The plan that `LazyFrame::select` returns.
pub uninterp spec fn projected(df: LazyFrame, exprs: Seq<Expr>) -> LazyFrame;

/// The plan that `LazyFrame::with_columns` returns.
pub uninterp spec fn extended(df: LazyFrame, exprs: Seq<Expr>) -> LazyFrame;

/// The grouping that `LazyFrame::group_by` returns.
pub uninterp spec fn grouped(df: LazyFrame, keys: Seq<Expr>) -> LazyGroupBy;

/// The plan that `LazyGroupBy::agg` returns.
pub uninterp spec fn aggregated(groups: LazyGroupBy, aggregates: Seq<Expr>) -> LazyFrame;

/// The plan that `LazyFrame::reverse` returns.
pub uninterp spec fn reversed(df: LazyFrame) -> LazyFrame;

/// The plan that `IntoLazy::lazy` returns for materialized data.
pub uninterp spec fn lazy_of(frame: DataFrame) -> LazyFrame;

/// What `DataFrame::transpose` returns when it is given no names.
pub uninterp spec fn transposed(frame: DataFrame) -> Result<DataFrame, PolarsError>;

/// `LazyFrame::filter`: the plan that keeps the rows on which the predicate
/// is true.
#[verifier::external_body]
pub(crate) fn filter(df: LazyFrame, predicate: Expr) -> (r: LazyFrame)
    ensures
        r == filtered(df, predicate),
{
    df.filter(predicate)
}

/// `LazyFrame::select`: the plan that computes the given expressions.
#[verifier::external_body]
pub(crate) fn select(df: LazyFrame, exprs: Vec<Expr>) -> (r: LazyFrame)
    ensures
        r == projected(df, exprs@),
{
    df.select(exprs)
}

/// `LazyFrame::with_columns`: the plan that adds or replaces columns.
#[verifier::external_body]
pub(crate) fn with_columns(df: LazyFrame, exprs: Vec<Expr>) -> (r: LazyFrame)
    ensures
        r == extended(df, exprs@),
{
    df.with_columns(exprs)
}

/// `LazyFrame::group_by`: the plan grouped by the given keys.
#[verifier::external_body]
pub(crate) fn group_by(df: LazyFrame, keys: &Vec<Expr>) -> (r: LazyGroupBy)
    ensures
        r == grouped(df, keys@),
{
    df.group_by(keys)
}

/// `LazyGroupBy::agg`: the plan that computes the aggregates of each group.
#[verifier::external_body]
pub(crate) fn agg(groups: LazyGroupBy, aggregates: Vec<Expr>) -> (r: LazyFrame)
    ensures
        r == aggregated(groups, aggregates@),
{
    groups.agg(aggregates)
}

/// `LazyFrame::reverse`: the plan that puts the rows in the opposite order.
#[verifier::external_body]
pub(crate) fn reverse(df: LazyFrame) -> (r: LazyFrame)
    ensures
        r == reversed(df),
{
    df.reverse()
}

/// `LazyFrame::collect`: executes the plan. Whether it succeeds, and with
/// what, depends on the data that the plan reads.
#[verifier::external_body]
pub(crate) fn collect(df: LazyFrame) -> Result<DataFrame, PolarsError> {
    df.collect()
}

/// `IntoLazy::lazy`: the plan that starts from materialized data.
#[verifier::external_body]
pub(crate) fn lazy(frame: DataFrame) -> (r: LazyFrame)
    ensures
        r == lazy_of(frame),
{
    frame.lazy()
}

/// `DataFrame::transpose` without a column of names and without new names.
#[verifier::external_body]
pub(crate) fn transpose(frame: DataFrame) -> (r: Result<DataFrame, PolarsError>)
    ensures
        r == transposed(frame),
{
    let mut frame = frame;
    frame.transpose(None, None)
}

} // verus!
