//! One predicate on one column.

use crate::engine::expr::{
    all_true, any, any_true, arithmetic, binary, binary_expr, col, column, containing,
    containing_literal, contains, contains_literal, ending_with, ends_with, every, finite_mask,
    infinite_mask, is_finite, is_in, is_infinite, is_nan, is_not_nan, is_not_null, is_null, lit,
    member_of, nan_mask, negated, not, not_nan_mask, not_null_mask, null_mask, starting_with,
    starts_with, text_literal,
};
use crate::error::ConfigError;
use polars::prelude::{BooleanFunction, Expr, Operator};
use vstd::prelude::*;

verus! {

/// What a clause asks of its column.
pub enum FilterOperators {
    /// The column compared with a value by one of the engine's operators.
    PolarsOperator(Operator, Expr),
    /// One of the engine's boolean functions applied to the column.
    PolarsBooleanFunction(BooleanFunction),
    /// The column's text contains `pattern`: as a plain substring where
    /// `literal` is set, else as a regular expression searched with the
    /// engine's `strict` flag.
    Contains { pattern: String, literal: bool, strict: bool },
    /// The negation of `Contains`.
    NotContains { pattern: String, literal: bool, strict: bool },
    /// The column's text starts with the given text.
    StartsWith(String),
    /// The column's text ends with the given text.
    EndsWith(String),
    /// The column's text does not start with the given text.
    NotStartsWith(String),
    /// The column's text does not end with the given text.
    NotEndsWith(String),
    /// The column's value is among those of the given expression.
    IsIn(Expr),
}

impl FilterOperators {
    /// The reason why this operator cannot stand in a clause, if there is one.
    pub open spec fn rejection(self) -> Option<ConfigError> {
        match self {
            FilterOperators::PolarsOperator(op, _) => if arithmetic(op) {
                Some(ConfigError::ArithmeticOperator)
            } else {
                None
            },
            FilterOperators::PolarsBooleanFunction(f) => match f {
                BooleanFunction::Not => Some(ConfigError::BareNot),
                BooleanFunction::AllHorizontal => Some(ConfigError::HorizontalReduction),
                BooleanFunction::AnyHorizontal => Some(ConfigError::HorizontalReduction),
                BooleanFunction::IsIn => Some(ConfigError::BareIsIn),
                _ => None,
            },
            _ => None,
        }
    }

    /// The predicate that this operator makes of the expression `anchor`.
    /// It has a meaning only where there is no `rejection`.
    pub open spec fn applied_to(self, anchor: Expr) -> Expr {
        match self {
            FilterOperators::PolarsOperator(op, value) => binary(anchor, op, value),
            FilterOperators::PolarsBooleanFunction(f) => match f {
                BooleanFunction::Any { ignore_nulls } => any_true(anchor, ignore_nulls),
                BooleanFunction::All { ignore_nulls } => all_true(anchor, ignore_nulls),
                BooleanFunction::IsNan => nan_mask(anchor),
                BooleanFunction::IsNotNan => not_nan_mask(anchor),
                BooleanFunction::IsNull => null_mask(anchor),
                BooleanFunction::IsNotNull => not_null_mask(anchor),
                BooleanFunction::IsFinite => finite_mask(anchor),
                BooleanFunction::IsInfinite => infinite_mask(anchor),
                _ => anchor,
            },
            FilterOperators::Contains { pattern, literal, strict } => if literal {
                containing_literal(anchor, text_literal(pattern@))
            } else {
                containing(anchor, text_literal(pattern@), strict)
            },
            FilterOperators::NotContains { pattern, literal, strict } => if literal {
                negated(containing_literal(anchor, text_literal(pattern@)))
            } else {
                negated(containing(anchor, text_literal(pattern@), strict))
            },
            FilterOperators::StartsWith(text) => starting_with(anchor, text_literal(text@)),
            FilterOperators::EndsWith(text) => ending_with(anchor, text_literal(text@)),
            FilterOperators::NotStartsWith(text) => negated(
                starting_with(anchor, text_literal(text@)),
            ),
            FilterOperators::NotEndsWith(text) => negated(
                ending_with(anchor, text_literal(text@)),
            ),
            FilterOperators::IsIn(candidates) => member_of(anchor, candidates),
        }
    }

    /// The predicate on `anchor`, or the reason why there is none.
    pub open spec fn resolved(self, anchor: Expr) -> Result<Expr, ConfigError> {
        match self.rejection() {
            Some(reason) => Err(reason),
            None => Ok(self.applied_to(anchor)),
        }
    }
}

/// A predicate on the column named `column`.
pub struct Clause {
    pub column: String,
    pub operator: FilterOperators,
}

impl Clause {
    /// The expression that this clause stands for, or the reason why it
    /// stands for none.
    pub open spec fn expr(self) -> Result<Expr, ConfigError> {
        self.operator.resolved(column(self.column@))
    }

    /// Applies the clause's operator to `expr`. The operators that make no
    /// predicate of a single column are refused: arithmetic, negation on its
    /// own, the horizontal reductions, and the boolean membership function,
    /// which carries no candidates.
    pub fn make_operation(&self, expr: Expr) -> (r: Result<Expr, ConfigError>)
        ensures
            r == self.operator.resolved(expr),
            r is Err <==> self.operator.rejection() is Some,
    {
        match &self.operator {
            FilterOperators::PolarsOperator(op, value) => {
                if op.is_arithmetic() {
                    return Err(ConfigError::ArithmeticOperator);
                }
                Ok(binary_expr(expr, *op, value.clone()))
            },
            FilterOperators::PolarsBooleanFunction(boolean_func) => {
                match boolean_func {
                    BooleanFunction::Not => Err(ConfigError::BareNot),
                    BooleanFunction::AllHorizontal => Err(ConfigError::HorizontalReduction),
                    BooleanFunction::AnyHorizontal => Err(ConfigError::HorizontalReduction),
                    BooleanFunction::IsIn => Err(ConfigError::BareIsIn),
                    BooleanFunction::Any { ignore_nulls } => Ok(any(expr, *ignore_nulls)),
                    BooleanFunction::All { ignore_nulls } => Ok(every(expr, *ignore_nulls)),
                    BooleanFunction::IsNan => Ok(is_nan(expr)),
                    BooleanFunction::IsNotNan => Ok(is_not_nan(expr)),
                    BooleanFunction::IsNull => Ok(is_null(expr)),
                    BooleanFunction::IsNotNull => Ok(is_not_null(expr)),
                    BooleanFunction::IsFinite => Ok(is_finite(expr)),
                    BooleanFunction::IsInfinite => Ok(is_infinite(expr)),
                }
            },
            FilterOperators::Contains { pattern, literal, strict } => {
                if *literal {
                    return Ok(contains_literal(expr, lit(pattern.as_str())));
                }
                Ok(contains(expr, lit(pattern.as_str()), *strict))
            },
            FilterOperators::NotContains { pattern, literal, strict } => {
                if *literal {
                    return Ok(not(contains_literal(expr, lit(pattern.as_str()))));
                }
                Ok(not(contains(expr, lit(pattern.as_str()), *strict)))
            },
            FilterOperators::StartsWith(substr) => Ok(starts_with(expr, lit(substr.as_str()))),
            FilterOperators::EndsWith(substr) => Ok(ends_with(expr, lit(substr.as_str()))),
            FilterOperators::NotStartsWith(substr) => Ok(
                not(starts_with(expr, lit(substr.as_str()))),
            ),
            FilterOperators::NotEndsWith(substr) => Ok(
                not(ends_with(expr, lit(substr.as_str()))),
            ),
            FilterOperators::IsIn(e) => Ok(is_in(expr, e.clone())),
        }
    }

    /// The clause as an expression anchored at its column. The clause is
    /// refused, and no expression is made, exactly where its operator has a
    /// `rejection`.
    pub fn make_expr(&self) -> (r: Result<Expr, ConfigError>)
        ensures
            r == self.expr(),
            r is Err <==> self.operator.rejection() is Some,
    {
        let expr = col(self.column.as_str());

        self.make_operation(expr)
    }
}

} // verus!
