//! Filtering rows by clauses joined with and / or.
//!
//! The predicate of a filter is read strictly from left to right: the main
//! clause first, then each branch joined to all that came before it. There
//! is no precedence of `and` over `or`, so the order of the branches matters.

pub mod clause;

use crate::engine::expr::{and, binary, or};
use crate::engine::frame::{filter, filtered};
use crate::error::{ConfigError, TransformError};
use crate::transform::filter::clause::Clause;
use crate::transform::transformer::Transformation;
use polars::prelude::{Expr, LazyFrame, Operator};
use vstd::prelude::*;

verus! {

/// A clause together with the connector that joins it to the predicate
/// built so far.
pub enum Branch {
    And(Clause),
    Or(Clause),
}

impl Branch {
    /// The predicate `acc` extended by this branch, or the reason why the
    /// branch's clause is refused.
    pub open spec fn joined_to(self, acc: Expr) -> Result<Expr, ConfigError> {
        match self {
            Branch::And(clause) => match clause.expr() {
                Ok(e) => Ok(binary(acc, Operator::And, e)),
                Err(reason) => Err(reason),
            },
            Branch::Or(clause) => match clause.expr() {
                Ok(e) => Ok(binary(acc, Operator::Or, e)),
                Err(reason) => Err(reason),
            },
        }
    }
}

/// The left fold of `branches` over `start`: each branch is joined to the
/// result of all branches before it, and the first refusal ends the fold.
pub open spec fn fold_branches(start: Result<Expr, ConfigError>, branches: Seq<Branch>) -> Result<
    Expr,
    ConfigError,
>
    decreases branches.len(),
{
    if branches.len() == 0 {
        start
    } else {
        match fold_branches(start, branches.drop_last()) {
            Ok(acc) => branches.last().joined_to(acc),
            Err(reason) => Err(reason),
        }
    }
}

/// Joins one branch to the predicate `expr`.
pub fn make_branch(expr: Expr, branch: &Branch) -> (r: Result<Expr, ConfigError>)
    ensures
        r == branch.joined_to(expr),
{
    match branch {
        Branch::And(clause) => match clause.make_expr() {
            Ok(e) => Ok(and(expr, e)),
            Err(reason) => Err(reason),
        },
        Branch::Or(clause) => match clause.make_expr() {
            Ok(e) => Ok(or(expr, e)),
            Err(reason) => Err(reason),
        },
    }
}

/// Keeps the rows on which a predicate is true. The predicate is the main
/// clause followed by the branches, folded from left to right.
pub struct Filter {
    pub main_clause: Clause,
    pub branches: Vec<Branch>,
}

impl Filter {
    /// The predicate of this filter, or the first refusal met when reading
    /// it from left to right.
    pub open spec fn predicate(self) -> Result<Expr, ConfigError> {
        fold_branches(self.main_clause.expr(), self.branches@)
    }

    /// Builds the predicate.
    pub fn make_filter(self) -> (r: Result<Expr, ConfigError>)
        ensures
            r == self.predicate(),
    {
        let mut acc = self.main_clause.make_expr();
        let mut i: usize = 0;
        while i < self.branches.len()
            invariant
                i <= self.branches.len(),
                acc == fold_branches(self.main_clause.expr(), self.branches@.take(i as int)),
            decreases self.branches.len() - i,
        {
            proof {
                let next = self.branches@.take(i + 1);
                assert(next.drop_last() == self.branches@.take(i as int));
                assert(next.last() == self.branches@[i as int]);
            }
            acc = match acc {
                Ok(expr) => make_branch(expr, &self.branches[i]),
                Err(reason) => Err(reason),
            };
            i = i + 1;
        }
        proof {
            assert(self.branches@.take(i as int) == self.branches@);
        }
        acc
    }
}

impl Transformation for Filter {
    open spec fn outcome(self, df: LazyFrame, out: Result<LazyFrame, TransformError>) -> bool {
        out == match self.predicate() {
            Ok(predicate) => Ok::<LazyFrame, TransformError>(filtered(df, predicate)),
            Err(reason) => Err(TransformError::Config(reason)),
        }
    }

    /// Extends the plan by the filter, unless a clause is refused.
    fn apply(self, df: LazyFrame) -> (out: Result<LazyFrame, TransformError>) {
        match self.make_filter() {
            Ok(predicate) => Ok(filter(df, predicate)),
            Err(reason) => Err(TransformError::Config(reason)),
        }
    }
}

/// A filter without branches has the predicate of its main clause alone.
pub proof fn lemma_predicate_without_branches(f: Filter)
    requires
        f.branches@.len() == 0,
    ensures
        f.predicate() == f.main_clause.expr(),
{
}

/// A filter with the single branch `And(c)` has the conjunction of its main
/// clause and `c` as its predicate, the main clause on the left; it is
/// refused where one of the two clauses is, the main clause first.
pub proof fn lemma_predicate_with_one_conjunct(f: Filter, c: Clause)
    requires
        f.branches@ == seq![Branch::And(c)],
    ensures
        f.predicate() == match (f.main_clause.expr(), c.expr()) {
            (Ok(main), Ok(other)) => Ok::<Expr, ConfigError>(binary(main, Operator::And, other)),
            (Ok(_), Err(reason)) => Err(reason),
            (Err(reason), _) => Err(reason),
        },
{
    let start = f.main_clause.expr();
    assert(f.branches@.drop_last() == Seq::<Branch>::empty());
    assert(f.branches@.last() == Branch::And(c));
    assert(fold_branches(start, f.branches@.drop_last()) == start);
}

/// The fold reads from left to right: a filter with one more branch at the
/// end joins that branch to the whole predicate of the filter without it.
pub proof fn lemma_predicate_folds_left(
    start: Result<Expr, ConfigError>,
    branches: Seq<Branch>,
    last: Branch,
)
    ensures
        fold_branches(start, branches.push(last)) == match fold_branches(start, branches) {
            Ok(acc) => last.joined_to(acc),
            Err(reason) => Err(reason),
        },
{
    assert(branches.push(last).drop_last() == branches);
    assert(branches.push(last).last() == last);
}

} // verus!
