//! Grouping rows and aggregating each group.

use crate::engine::expr::{agg_expr, aggregate, alias, aliased};
use crate::engine::frame::{agg, aggregated, group_by, grouped};
use crate::error::TransformError;
use crate::transform::transformer::Transformation;
use polars::prelude::{AggExpr, Expr, LazyFrame};
use vstd::prelude::*;

verus! {

/// One aggregate of a group, written under the name `new_column`.
pub struct Aggregation {
    pub new_column: String,
    pub aggregation: AggExpr,
}

impl Aggregation {
    /// The aggregate as an expression that carries its new name.
    pub open spec fn expr(self) -> Expr {
        aliased(aggregate(self.aggregation), self.new_column@)
    }
}

/// The configuration of a grouping: the keys, and the aggregates computed
/// for each group. The plan that results holds the key columns first, then
/// one column for each aggregate, in the order given.
pub struct GroupBy {
    pub grouping: Vec<Expr>,
    pub aggregations: Vec<Aggregation>,
}

impl GroupBy {
    /// The aggregates as expressions, in their order.
    pub open spec fn aggregation_exprs(self) -> Seq<Expr> {
        self.aggregations@.map_values(|a: Aggregation| a.expr())
    }

    /// Builds one named expression for each aggregate.
    pub fn make_aggregation_expr(self) -> (exprs: Vec<Expr>)
        ensures
            exprs@ == self.aggregation_exprs(),
    {
        let mut exprs: Vec<Expr> = Vec::new();
        let mut i: usize = 0;
        while i < self.aggregations.len()
            invariant
                i <= self.aggregations.len(),
                exprs@ == self.aggregation_exprs().take(i as int),
            decreases self.aggregations.len() - i,
        {
            let entry = &self.aggregations[i];
            exprs.push(alias(agg_expr(entry.aggregation.clone()), entry.new_column.as_str()));
            proof {
                assert(exprs@ == self.aggregation_exprs().take(i + 1));
            }
            i = i + 1;
        }
        proof {
            assert(self.aggregation_exprs().take(i as int) == self.aggregation_exprs());
        }
        exprs
    }
}

impl Transformation for GroupBy {
    open spec fn outcome(self, df: LazyFrame, out: Result<LazyFrame, TransformError>) -> bool {
        out == Ok::<LazyFrame, TransformError>(
            aggregated(grouped(df, self.grouping@), self.aggregation_exprs()),
        )
    }

    /// Extends the plan by the grouping and its aggregates.
    fn apply(self, df: LazyFrame) -> (out: Result<LazyFrame, TransformError>) {
        let groups = group_by(df, &self.grouping);
        Ok(agg(groups, self.make_aggregation_expr()))
    }
}

} // verus!
