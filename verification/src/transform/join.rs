//! Joining a plan with a second one.

use crate::engine::join::{
    allow_parallel, coalesce, finish, force_parallel, how, join_builder, join_nulls, join_setup,
    joined, left_on, right_on, suffix, with, JoinSetup,
};
use crate::error::{ConfigError, TransformError};
use crate::transform::transformer::Transformation;
use polars::prelude::{
    Expr, JoinCoalesce, JoinType, JoinValidation, LazyFrame, MaintainOrderJoin,
};
use vstd::prelude::*;

verus! {

/// The configuration of a join. The plan that `apply` is given stands on the
/// left, `right` on the right; `left_on` and `right_on` pair up by position.
pub struct Join<'a> {
    pub strategy: JoinType,
    pub right: Option<LazyFrame>,
    pub left_on: &'a [Expr],
    pub right_on: &'a [Expr],
    pub allow_parallel: bool,
    pub force_parallel: bool,
    pub join_nulls: bool,
    pub coalese: JoinCoalesce,
    pub suffix: Option<&'a str>,
}

impl<'a> Default for Join<'a> {
    /// A left join that still lacks its right-hand plan and its keys: no
    /// parallel evaluation, null keys match nothing, only the join keys are
    /// merged, and colliding names of the right get the suffix `_right`.
    fn default() -> (j: Join<'a>)
        ensures
            j.strategy == JoinType::Left,
            j.right is None,
            j.left_on@.len() == 0,
            j.right_on@.len() == 0,
            !j.allow_parallel,
            !j.force_parallel,
            !j.join_nulls,
            j.coalese == JoinCoalesce::JoinSpecific,
            j.suffix matches Some(s) && s@ == "_right"@,
    {
        Join {
            strategy: JoinType::Left,
            right: None,
            left_on: &[],
            right_on: &[],
            allow_parallel: false,
            force_parallel: false,
            join_nulls: false,
            coalese: JoinCoalesce::JoinSpecific,
            suffix: Some("_right"),
        }
    }
}

impl<'a> Join<'a> {
    /// The reason why no join can be built from this configuration, if
    /// there is one. A missing right-hand plan is reported before missing
    /// keys.
    pub open spec fn rejection(self) -> Option<ConfigError> {
        if self.right is None {
            Some(ConfigError::MissingRightFrame)
        } else if self.left_on@.len() == 0 || self.right_on@.len() == 0 {
            Some(ConfigError::EmptyJoinKeys)
        } else {
            None
        }
    }

    /// The settings of the join of `df` with this configuration. What the
    /// configuration does not speak of is left as the engine sets it.
    pub open spec fn setup(self, df: LazyFrame) -> JoinSetup {
        JoinSetup {
            left: df,
            right: self.right,
            how: self.strategy,
            left_on: self.left_on@,
            right_on: self.right_on@,
            allow_parallel: self.allow_parallel,
            force_parallel: self.force_parallel,
            suffix: match self.suffix {
                Some(s) => Some(s@),
                None => None,
            },
            validation: JoinValidation::ManyToMany,
            join_nulls: self.join_nulls,
            coalesce: self.coalese,
            maintain_order: MaintainOrderJoin::None,
        }
    }
}

impl<'a> Transformation for Join<'a> {
    open spec fn outcome(self, df: LazyFrame, out: Result<LazyFrame, TransformError>) -> bool {
        out == match self.rejection() {
            Some(reason) => Err::<LazyFrame, TransformError>(TransformError::Config(reason)),
            None => Ok(joined(self.setup(df))),
        }
    }

    /// Extends the plan by the join, unless the right-hand plan or the keys
    /// of one side are missing.
    fn apply(self, df: LazyFrame) -> (out: Result<LazyFrame, TransformError>) {
        let ghost setup = self.setup(df);
        let mut builder = join_builder(df);
        match self.right {
            Some(right) => {
                builder = with(builder, right);
            },
            None => {
                return Err(TransformError::Config(ConfigError::MissingRightFrame));
            },
        }

        if self.left_on.len() == 0 || self.right_on.len() == 0 {
            return Err(TransformError::Config(ConfigError::EmptyJoinKeys));
        }
        builder = how(builder, self.strategy);
        builder = left_on(builder, self.left_on);
        builder = right_on(builder, self.right_on);
        builder = allow_parallel(builder, self.allow_parallel);
        builder = force_parallel(builder, self.force_parallel);
        builder = coalesce(builder, self.coalese);
        builder = join_nulls(builder, self.join_nulls);

        if let Some(text) = self.suffix {
            builder = suffix(builder, text);
        }
        assert(join_setup(builder) == setup);
        Ok(finish(builder))
    }
}

} // verus!
