//! The engine's options for a sort over several columns.
//!
//! The options are a record of public fields, and each setter replaces one
//! of them. The contracts say so over `sort_order`, the fields as plain
//! values.

use crate::engine::expr::name_views;
use polars::prelude::{LazyFrame, SortMultipleOptions};
use vstd::prelude::*;

verus! {

/// How a sort orders its rows.
pub struct SortOrder {
    /// For each sort column whether it is ordered downwards; a single flag
    /// stands for all columns.
    pub descending: Seq<bool>,
    /// For each sort column whether its nulls come last; a single flag
    /// stands for all columns.
    pub nulls_last: Seq<bool>,
    /// Whether the engine may sort with several threads.
    pub multithreaded: bool,
    /// Whether rows with equal keys keep their order.
    pub maintain_order: bool,
    /// How many rows the engine needs at most, where it is told.
    pub limit: Option<u32>,
}

/// The engine's options as plain values.
pub open spec fn sort_order(options: SortMultipleOptions) -> SortOrder {
    SortOrder {
        descending: options.descending@,
        nulls_last: options.nulls_last@,
        multithreaded: options.multithreaded,
        maintain_order: options.maintain_order,
        limit: options.limit,
    }
}

/// The plan that `LazyFrame::sort` returns.
pub uninterp spec fn sorted(df: LazyFrame, by: Seq<Seq<char>>, order: SortOrder) -> LazyFrame;

/// `SortMultipleOptions::default`: every column upwards with nulls first,
/// several threads, no stable order, no limit.
#[verifier::external_body]
pub(crate) fn default_options() -> (r: SortMultipleOptions)
    ensures
        sort_order(r) == (SortOrder {
            descending: seq![false],
            nulls_last: seq![false],
            multithreaded: true,
            maintain_order: false,
            limit: None,
        }),
{
    SortMultipleOptions::default()
}

/// `SortMultipleOptions::with_order_descending`: one direction for all
/// columns.
#[verifier::external_body]
pub(crate) fn with_order_descending(options: SortMultipleOptions, flag: bool) -> (r:
    SortMultipleOptions)
    ensures
        sort_order(r) == (SortOrder { descending: seq![flag], ..sort_order(options) }),
{
    options.with_order_descending(flag)
}

/// `SortMultipleOptions::with_order_descending_multi`: a direction for each
/// column.
#[verifier::external_body]
pub(crate) fn with_order_descending_multi(options: SortMultipleOptions, flags: Vec<bool>) -> (r:
    SortMultipleOptions)
    ensures
        sort_order(r) == (SortOrder { descending: flags@, ..sort_order(options) }),
{
    options.with_order_descending_multi(flags)
}

/// `SortMultipleOptions::with_nulls_last`: one place for the nulls of all
/// columns.
#[verifier::external_body]
pub(crate) fn with_nulls_last(options: SortMultipleOptions, flag: bool) -> (r:
    SortMultipleOptions)
    ensures
        sort_order(r) == (SortOrder { nulls_last: seq![flag], ..sort_order(options) }),
{
    options.with_nulls_last(flag)
}

/// `SortMultipleOptions::with_nulls_last_multi`: a place for the nulls of
/// each column.
#[verifier::external_body]
pub(crate) fn with_nulls_last_multi(options: SortMultipleOptions, flags: Vec<bool>) -> (r:
    SortMultipleOptions)
    ensures
        sort_order(r) == (SortOrder { nulls_last: flags@, ..sort_order(options) }),
{
    options.with_nulls_last_multi(flags)
}

/// `SortMultipleOptions::with_multithreaded`.
#[verifier::external_body]
pub(crate) fn with_multithreaded(options: SortMultipleOptions, flag: bool) -> (r:
    SortMultipleOptions)
    ensures
        sort_order(r) == (SortOrder { multithreaded: flag, ..sort_order(options) }),
{
    options.with_multithreaded(flag)
}

/// `SortMultipleOptions::with_maintain_order`.
#[verifier::external_body]
pub(crate) fn with_maintain_order(options: SortMultipleOptions, flag: bool) -> (r:
    SortMultipleOptions)
    ensures
        sort_order(r) == (SortOrder { maintain_order: flag, ..sort_order(options) }),
{
    options.with_maintain_order(flag)
}

/// `LazyFrame::sort`: the plan that orders the rows by the named columns,
/// the first named column weighing most.
#[verifier::external_body]
pub(crate) fn sort(df: LazyFrame, by: Vec<String>, options: SortMultipleOptions) -> (r:
    LazyFrame)
    ensures
        r == sorted(df, name_views(by@), sort_order(options)),
{
    df.sort(by, options)
}

} // verus!
