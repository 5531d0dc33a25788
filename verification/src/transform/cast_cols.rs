//! Casting columns to other types.

use crate::engine::expr::{cast, cast_to, col, column, strict_cast, strictly_cast_to};
use crate::engine::frame::{extended, with_columns};
use crate::error::TransformError;
use crate::transform::transformer::Transformation;
use polars::prelude::{DataType, Expr, LazyFrame};
use vstd::prelude::*;

verus! {

/// For some columns the type that each is cast to. Where `strict` is set, a
/// value that the new type cannot hold makes the execution fail; else it
/// becomes null.
///
/// The targets are kept in the order in which their columns were first
/// named, and no column is named twice.
pub struct CastCols {
    dtypes: Vec<(String, DataType)>,
    strict: bool,
}

/// True where no name stands twice among the targets.
pub open spec fn distinct_columns(targets: Seq<(Seq<char>, DataType)>) -> bool {
    forall|i: int, j: int| 0 <= i < j < targets.len() ==> targets[i].0 != targets[j].0
}

/// True where `name` stands among the targets.
pub open spec fn names_column(targets: Seq<(Seq<char>, DataType)>, name: Seq<char>) -> bool {
    exists|i: int| 0 <= i < targets.len() && #[trigger] targets[i].0 == name
}

/// The expression that casts one column.
pub open spec fn cast_expr(target: (Seq<char>, DataType), strict: bool) -> Expr {
    if strict {
        strictly_cast_to(column(target.0), target.1)
    } else {
        cast_to(column(target.0), target.1)
    }
}

impl CastCols {
    /// The columns and their new types.
    pub closed spec fn targets(self) -> Seq<(Seq<char>, DataType)> {
        self.dtypes@.map_values(|entry: (String, DataType)| (entry.0@, entry.1))
    }

    /// Whether a cast that loses a value fails.
    pub closed spec fn is_strict(self) -> bool {
        self.strict
    }

    /// What every value built by `new` and `insert` meets: no column is
    /// named twice.
    pub open spec fn well_formed(self) -> bool {
        distinct_columns(self.targets())
    }

    /// The expressions that cast the columns, in the order of the targets.
    pub open spec fn exprs(self) -> Seq<Expr> {
        self.targets().map_values(
            |target: (Seq<char>, DataType)| cast_expr(target, self.is_strict()),
        )
    }

    /// A configuration that casts no column yet.
    pub fn new(strict: bool) -> (c: CastCols)
        ensures
            c.targets() == Seq::<(Seq<char>, DataType)>::empty(),
            c.is_strict() == strict,
            c.well_formed(),
    {
        let c = CastCols { dtypes: Vec::new(), strict };
        assert(c.targets() == Seq::<(Seq<char>, DataType)>::empty());
        c
    }

    /// The number of columns that are cast.
    pub fn len(&self) -> (n: usize)
        ensures
            n == self.targets().len(),
    {
        self.dtypes.len()
    }

    /// Sets the type that the column `name` is cast to. Where the column
    /// had a target already, that target is replaced in its place and the
    /// former type is returned; else the target is added at the end.
    pub fn insert(&mut self, name: String, dtype: DataType) -> (former: Option<DataType>)
        requires
            old(self).well_formed(),
        ensures
            final(self).well_formed(),
            final(self).is_strict() == old(self).is_strict(),
            forall|i: int|
                0 <= i < old(self).targets().len() && #[trigger] old(self).targets()[i].0 == name@
                    ==> former == Some(old(self).targets()[i].1) && final(self).targets() == old(
                    self,
                ).targets().update(i, (name@, dtype)),
            !names_column(old(self).targets(), name@) ==> former is None && final(self).targets()
                == old(self).targets().push((name@, dtype)),
    {
        let ghost before = self.targets();
        let mut i: usize = 0;
        while i < self.dtypes.len()
            invariant
                i <= self.dtypes.len(),
                *self == *old(self),
                before == self.targets(),
                distinct_columns(before),
                forall|k: int| 0 <= k < i ==> before[k].0 != name@,
            decreases self.dtypes.len() - i,
        {
            if self.dtypes[i].0 == name {
                assert(before[i as int].0 == name@);
                let replaced = self.dtypes.remove(i);
                self.dtypes.insert(i, (name, dtype));
                proof {
                    assert(self.targets() == before.update(i as int, (name@, dtype)));
                }
                return Some(replaced.1);
            }
            i = i + 1;
        }
        self.dtypes.push((name, dtype));
        proof {
            assert(self.targets() == before.push((name@, dtype)));
        }
        None
    }
}

impl Transformation for CastCols {
    open spec fn outcome(self, df: LazyFrame, out: Result<LazyFrame, TransformError>) -> bool {
        out == Ok::<LazyFrame, TransformError>(
            if self.targets().len() == 0 {
                df
            } else {
                extended(df, self.exprs())
            },
        )
    }

    /// Extends the plan by the casts; a configuration without targets
    /// leaves the plan as it is.
    fn apply(self, df: LazyFrame) -> (out: Result<LazyFrame, TransformError>) {
        let mut exprs: Vec<Expr> = Vec::new();
        let mut i: usize = 0;
        while i < self.dtypes.len()
            invariant
                i <= self.dtypes.len(),
                exprs@ == self.exprs().take(i as int),
            decreases self.dtypes.len() - i,
        {
            let entry = &self.dtypes[i];
            let anchor = col(entry.0.as_str());
            if self.strict {
                exprs.push(strict_cast(anchor, entry.1.clone()));
            } else {
                exprs.push(cast(anchor, entry.1.clone()));
            }
            proof {
                assert(exprs@ == self.exprs().take(i + 1));
            }
            i = i + 1;
        }
        proof {
            assert(self.exprs().take(i as int) == self.exprs());
        }
        if exprs.len() == 0 {
            Ok(df)
        } else {
            Ok(with_columns(df, exprs))
        }
    }
}

} // verus!
