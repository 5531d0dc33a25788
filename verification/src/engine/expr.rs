//! Expression builders of the engine.
//!
//! An expression is a tree that the engine evaluates later. Each builder
//! returns a tree that is determined by its arguments, and nothing in this
//! library looks inside one. So each builder's result gets a name here, and
//! the contract of its wrapper says that the call returns the value of that
//! name on the arguments given.

use polars::prelude::{AggExpr, DataType, Expr, Operator, StrptimeOptions, TimeUnit};
use vstd::prelude::*;

verus! {

/// The views of a list of names.
pub open spec fn name_views(names: Seq<String>) -> Seq<Seq<char>> {
    names.map_values(|name: String| name@)
}

/// The operators that the engine does not class as comparisons.
pub open spec fn arithmetic(op: Operator) -> bool {
    !(op is Eq || op is NotEq || op is Lt || op is LtEq || op is Gt || op is GtEq || op is And
        || op is Or || op is Xor || op is EqValidity || op is NotEqValidity)
}

/// `Operator::is_arithmetic`: true exactly for the operators outside the
/// engine's list of comparisons.
pub assume_specification[ Operator::is_arithmetic ](op: &Operator) -> (b: bool)
    ensures
        b == arithmetic(*op),
;

/// `Clone::clone` of an expression returns an equal tree.
pub assume_specification[ <Expr as Clone>::clone ](e: &Expr) -> (r: Expr)
    ensures
        r == *e,
;

/// `Clone::clone` of an aggregate returns an equal aggregate.
pub assume_specification[ <AggExpr as Clone>::clone ](a: &AggExpr) -> (r: AggExpr)
    ensures
        r == *a,
;

/// `Clone::clone` of a column type returns an equal type.
pub assume_specification[ <DataType as Clone>::clone ](t: &DataType) -> (r: DataType)
    ensures
        r == *t,
;

/// `Clone::clone` of parse options returns equal options.
pub assume_specification[ <StrptimeOptions as Clone>::clone ](o: &StrptimeOptions) -> (r:
    StrptimeOptions)
    ensures
        r == *o,
;

/// The expression that `col` returns for a column name.
pub uninterp spec fn column(name: Seq<char>) -> Expr;

/// The expression that `cols` returns for a list of column names.
pub uninterp spec fn named_columns(names: Seq<Seq<char>>) -> Expr;

/// The expression that `lit` returns for a piece of text.
pub uninterp spec fn text_literal(text: Seq<char>) -> Expr;

/// The expression that `binary_expr` returns.
pub uninterp spec fn binary(left: Expr, op: Operator, right: Expr) -> Expr;

/// The expression that `Expr::not` returns.
pub uninterp spec fn negated(e: Expr) -> Expr;

/// The expression that `Expr::any` returns.
pub uninterp spec fn any_true(e: Expr, ignore_nulls: bool) -> Expr;

/// The expression that `Expr::all` returns.
pub uninterp spec fn all_true(e: Expr, ignore_nulls: bool) -> Expr;

/// The expression that `Expr::is_nan` returns.
pub uninterp spec fn nan_mask(e: Expr) -> Expr;

/// The expression that `Expr::is_not_nan` returns.
pub uninterp spec fn not_nan_mask(e: Expr) -> Expr;

/// The expression that `Expr::is_null` returns.
pub uninterp spec fn null_mask(e: Expr) -> Expr;

/// The expression that `Expr::is_not_null` returns.
pub uninterp spec fn not_null_mask(e: Expr) -> Expr;

/// The expression that `Expr::is_finite` returns.
pub uninterp spec fn finite_mask(e: Expr) -> Expr;

/// The expression that `Expr::is_infinite` returns.
pub uninterp spec fn infinite_mask(e: Expr) -> Expr;

/// The expression that `contains_literal` of the string namespace returns.
pub uninterp spec fn containing_literal(e: Expr, pattern: Expr) -> Expr;

/// The expression that `contains` of the string namespace returns.
pub uninterp spec fn containing(e: Expr, pattern: Expr, strict: bool) -> Expr;

/// The expression that `starts_with` of the string namespace returns.
pub uninterp spec fn starting_with(e: Expr, prefix: Expr) -> Expr;

/// The expression that `ends_with` of the string namespace returns.
pub uninterp spec fn ending_with(e: Expr, suffix: Expr) -> Expr;

/// The expression that `Expr::is_in` returns.
pub uninterp spec fn member_of(e: Expr, candidates: Expr) -> Expr;

/// The expression that `Expr::alias` returns.
pub uninterp spec fn aliased(e: Expr, name: Seq<char>) -> Expr;

/// The expression that `Expr::exclude` returns for a list of column names.
pub uninterp spec fn excluding(e: Expr, names: Seq<Seq<char>>) -> Expr;

/// Holds of the expression that `len` returns: the number of rows.
pub uninterp spec fn is_row_count(e: Expr) -> bool;

/// The expression that wraps an aggregate, `Expr::Agg`.
pub uninterp spec fn aggregate(a: AggExpr) -> Expr;

/// The expression that `Expr::cast` returns.
pub uninterp spec fn cast_to(e: Expr, dtype: DataType) -> Expr;

/// The expression that `Expr::strict_cast` returns.
pub uninterp spec fn strictly_cast_to(e: Expr, dtype: DataType) -> Expr;

/// The expression that `to_date` of the string namespace returns.
pub uninterp spec fn parsed_date(e: Expr, options: StrptimeOptions) -> Expr;

/// The expression that `to_time` of the string namespace returns.
pub uninterp spec fn parsed_time(e: Expr, options: StrptimeOptions) -> Expr;

/// The expression that `to_datetime` of the string namespace returns.
pub uninterp spec fn parsed_datetime(
    e: Expr,
    unit: Option<TimeUnit>,
    zone: Option<Seq<char>>,
    options: StrptimeOptions,
    ambiguous: Expr,
) -> Expr;

/// `col`: the reference to the column of that name.
#[verifier::external_body]
pub(crate) fn col(name: &str) -> (e: Expr)
    ensures
        e == column(name@),
{
    polars::prelude::col(name)
}

/// `all`: the wildcard, which is also what `col` returns for `"*"`.
#[verifier::external_body]
pub(crate) fn all() -> (e: Expr)
    ensures
        e == column("*"@),
{
    polars::prelude::all()
}

/// `cols`: the selection of the columns of those names, in that order.
#[verifier::external_body]
pub(crate) fn cols(names: Vec<String>) -> (e: Expr)
    ensures
        e == named_columns(name_views(names@)),
{
    polars::prelude::cols(names)
}

/// `lit` on text: the literal that holds that text.
#[verifier::external_body]
pub(crate) fn lit(text: &str) -> (e: Expr)
    ensures
        e == text_literal(text@),
{
    polars::prelude::lit(text)
}

/// `binary_expr`: the node that applies `op` to the two operands.
#[verifier::external_body]
pub(crate) fn binary_expr(left: Expr, op: Operator, right: Expr) -> (e: Expr)
    ensures
        e == binary(left, op, right),
{
    polars::prelude::binary_expr(left, op, right)
}

/// `Expr::and`: what `binary_expr` returns for the operator `And`.
#[verifier::external_body]
pub(crate) fn and(left: Expr, right: Expr) -> (e: Expr)
    ensures
        e == binary(left, Operator::And, right),
{
    left.and(right)
}

/// `Expr::or`: what `binary_expr` returns for the operator `Or`.
#[verifier::external_body]
pub(crate) fn or(left: Expr, right: Expr) -> (e: Expr)
    ensures
        e == binary(left, Operator::Or, right),
{
    left.or(right)
}

/// `Expr::not`.
#[verifier::external_body]
pub(crate) fn not(e: Expr) -> (r: Expr)
    ensures
        r == negated(e),
{
    e.not()
}

/// `Expr::any`.
#[verifier::external_body]
pub(crate) fn any(e: Expr, ignore_nulls: bool) -> (r: Expr)
    ensures
        r == any_true(e, ignore_nulls),
{
    e.any(ignore_nulls)
}

/// `Expr::all`.
#[verifier::external_body]
pub(crate) fn every(e: Expr, ignore_nulls: bool) -> (r: Expr)
    ensures
        r == all_true(e, ignore_nulls),
{
    e.all(ignore_nulls)
}

/// `Expr::is_nan`.
#[verifier::external_body]
pub(crate) fn is_nan(e: Expr) -> (r: Expr)
    ensures
        r == nan_mask(e),
{
    e.is_nan()
}

/// `Expr::is_not_nan`.
#[verifier::external_body]
pub(crate) fn is_not_nan(e: Expr) -> (r: Expr)
    ensures
        r == not_nan_mask(e),
{
    e.is_not_nan()
}

/// `Expr::is_null`.
#[verifier::external_body]
pub(crate) fn is_null(e: Expr) -> (r: Expr)
    ensures
        r == null_mask(e),
{
    e.is_null()
}

/// `Expr::is_not_null`.
#[verifier::external_body]
pub(crate) fn is_not_null(e: Expr) -> (r: Expr)
    ensures
        r == not_null_mask(e),
{
    e.is_not_null()
}

/// `Expr::is_finite`.
#[verifier::external_body]
pub(crate) fn is_finite(e: Expr) -> (r: Expr)
    ensures
        r == finite_mask(e),
{
    e.is_finite()
}

/// `Expr::is_infinite`.
#[verifier::external_body]
pub(crate) fn is_infinite(e: Expr) -> (r: Expr)
    ensures
        r == infinite_mask(e),
{
    e.is_infinite()
}

/// `contains_literal` of the string namespace.
#[verifier::external_body]
pub(crate) fn contains_literal(e: Expr, pattern: Expr) -> (r: Expr)
    ensures
        r == containing_literal(e, pattern),
{
    e.str().contains_literal(pattern)
}

/// `contains` of the string namespace.
#[verifier::external_body]
pub(crate) fn contains(e: Expr, pattern: Expr, strict: bool) -> (r: Expr)
    ensures
        r == containing(e, pattern, strict),
{
    e.str().contains(pattern, strict)
}

/// `starts_with` of the string namespace.
#[verifier::external_body]
pub(crate) fn starts_with(e: Expr, prefix: Expr) -> (r: Expr)
    ensures
        r == starting_with(e, prefix),
{
    e.str().starts_with(prefix)
}

/// `ends_with` of the string namespace.
#[verifier::external_body]
pub(crate) fn ends_with(e: Expr, suffix: Expr) -> (r: Expr)
    ensures
        r == ending_with(e, suffix),
{
    e.str().ends_with(suffix)
}

/// `Expr::is_in`.
#[verifier::external_body]
pub(crate) fn is_in(e: Expr, candidates: Expr) -> (r: Expr)
    ensures
        r == member_of(e, candidates),
{
    e.is_in(candidates)
}

/// `Expr::alias`.
#[verifier::external_body]
pub(crate) fn alias(e: Expr, name: &str) -> (r: Expr)
    ensures
        r == aliased(e, name@),
{
    e.alias(name)
}

/// `Expr::exclude` with a list of column names.
#[verifier::external_body]
pub(crate) fn exclude(e: Expr, names: Vec<String>) -> (r: Expr)
    ensures
        r == excluding(e, name_views(names@)),
{
    e.exclude(names)
}

/// `len`: the expression for the number of rows.
#[verifier::external_body]
pub(crate) fn len() -> (e: Expr)
    ensures
        is_row_count(e),
{
    polars::prelude::len()
}

/// `Expr::Agg`: the expression that holds the aggregate.
#[verifier::external_body]
pub(crate) fn agg_expr(a: AggExpr) -> (e: Expr)
    ensures
        e == aggregate(a),
{
    Expr::Agg(a)
}

/// `Expr::cast`.
#[verifier::external_body]
pub(crate) fn cast(e: Expr, dtype: DataType) -> (r: Expr)
    ensures
        r == cast_to(e, dtype),
{
    e.cast(dtype)
}

/// `Expr::strict_cast`.
#[verifier::external_body]
pub(crate) fn strict_cast(e: Expr, dtype: DataType) -> (r: Expr)
    ensures
        r == strictly_cast_to(e, dtype),
{
    e.strict_cast(dtype)
}

/// `to_date` of the string namespace.
#[verifier::external_body]
pub(crate) fn to_date(e: Expr, options: StrptimeOptions) -> (r: Expr)
    ensures
        r == parsed_date(e, options),
{
    e.str().to_date(options)
}

/// `to_time` of the string namespace.
#[verifier::external_body]
pub(crate) fn to_time(e: Expr, options: StrptimeOptions) -> (r: Expr)
    ensures
        r == parsed_time(e, options),
{
    e.str().to_time(options)
}

/// `to_datetime` of the string namespace. The zone is handed over as text.
#[verifier::external_body]
pub(crate) fn to_datetime(
    e: Expr,
    unit: Option<TimeUnit>,
    zone: Option<String>,
    options: StrptimeOptions,
    ambiguous: Expr,
) -> (r: Expr)
    ensures
        r == parsed_datetime(
            e,
            unit,
            match zone {
                Some(z) => Some(z@),
                None => None,
            },
            options,
            ambiguous,
        ),
{
    e.str().to_datetime(unit, zone.map(|z| z.into()), options, ambiguous)
}

} // verus!
