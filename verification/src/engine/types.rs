//! The engine's types that appear in the library's signatures.
//!
//! Plain enumerations and option records are declared with their variants
//! and fields, so that verified code can match on them and contracts can
//! name their values. Plans, expressions and data are opaque: a value is
//! carried through and handed back to the engine.

use vstd::prelude::*;

verus! {

/// A scalar or column computation, built bottom-up and consumed by the engine.
#[verifier::external_type_specification]
#[verifier::external_body]
pub struct ExExpr(polars::prelude::Expr);

/// An aggregate computation over one expression.
#[verifier::external_type_specification]
#[verifier::external_body]
pub struct ExAggExpr(polars::prelude::AggExpr);

/// A deferred query plan over a named, typed relation.
#[verifier::external_type_specification]
#[verifier::external_body]
pub struct ExLazyFrame(polars::prelude::LazyFrame);

/// A plan that has been grouped and still waits for its aggregations.
#[verifier::external_type_specification]
#[verifier::external_body]
pub struct ExLazyGroupBy(polars::prelude::LazyGroupBy);

/// A materialized relation.
#[verifier::external_type_specification]
#[verifier::external_body]
pub struct ExDataFrame(polars::prelude::DataFrame);

/// One named column of a materialized relation.
#[verifier::external_type_specification]
#[verifier::external_body]
pub struct ExColumn(polars::prelude::Column);

/// A column type.
#[verifier::external_type_specification]
#[verifier::external_body]
pub struct ExDataType(polars::prelude::DataType);

/// What the engine reports when a plan cannot be executed.
#[verifier::external_type_specification]
#[verifier::external_body]
pub struct ExPolarsError(polars::prelude::PolarsError);

/// How text is matched against a temporal format.
#[verifier::external_type_specification]
#[verifier::external_body]
pub struct ExStrptimeOptions(polars::prelude::StrptimeOptions);

/// A join under construction.
#[verifier::external_type_specification]
#[verifier::external_body]
pub struct ExJoinBuilder(polars::prelude::JoinBuilder);

/// The binary operators of the expression language.
#[verifier::external_type_specification]
pub struct ExOperator(polars::prelude::Operator);

/// The boolean functions of the expression language.
#[verifier::external_type_specification]
pub struct ExBooleanFunction(polars::prelude::BooleanFunction);

/// The resolution of a date-time value.
#[verifier::external_type_specification]
pub struct ExTimeUnit(polars::prelude::TimeUnit);

/// The kind of join.
#[verifier::external_type_specification]
pub struct ExJoinType(polars::prelude::JoinType);

/// Which key columns of a join are merged into one.
#[verifier::external_type_specification]
pub struct ExJoinCoalesce(polars::prelude::JoinCoalesce);

/// The uniqueness check that a join makes on its keys.
#[verifier::external_type_specification]
pub struct ExJoinValidation(polars::prelude::JoinValidation);

/// Which side's row order a join keeps.
#[verifier::external_type_specification]
pub struct ExMaintainOrderJoin(polars::prelude::MaintainOrderJoin);

/// The options of a sort over several columns.
#[verifier::external_type_specification]
pub struct ExSortMultipleOptions(polars::prelude::SortMultipleOptions);

} // verus!
