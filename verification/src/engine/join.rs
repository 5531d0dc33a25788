//! The engine's join builder.
//!
//! A builder holds the settings of a join until `finish` turns them into a
//! plan. Its fields are private to the engine, so the settings have a name
//! here, `join_setup`, and the contract of each setter says which setting it
//! replaces. The plan that `finish` returns is determined by the settings.

use polars::prelude::{
    Expr, JoinBuilder, JoinCoalesce, JoinType, JoinValidation, LazyFrame, MaintainOrderJoin,
};
use vstd::prelude::*;

verus! {

/// The settings of a join.
pub struct JoinSetup {
    /// The plan on the left.
    pub left: LazyFrame,
    /// The plan on the right, once it is given.
    pub right: Option<LazyFrame>,
    /// The kind of join.
    pub how: JoinType,
    /// The keys of the left plan.
    pub left_on: Seq<Expr>,
    /// The keys of the right plan, paired with the left ones by position.
    pub right_on: Seq<Expr>,
    /// Whether the two plans may be evaluated in parallel.
    pub allow_parallel: bool,
    /// Whether the two plans must be evaluated in parallel.
    pub force_parallel: bool,
    /// What is appended to a right-hand column name that the left plan has
    /// too; the engine uses `_right` where none is set.
    pub suffix: Option<Seq<char>>,
    /// The uniqueness check on the keys.
    pub validation: JoinValidation,
    /// Whether null keys match each other.
    pub join_nulls: bool,
    /// Which key columns are merged into one.
    pub coalesce: JoinCoalesce,
    /// Which side's row order is kept.
    pub maintain_order: MaintainOrderJoin,
}

/// The settings that a builder holds.
pub uninterp spec fn join_setup(builder: JoinBuilder) -> JoinSetup;

/// The plan that `JoinBuilder::finish` returns for the given settings.
pub uninterp spec fn joined(setup: JoinSetup) -> LazyFrame;

/// `LazyFrame::join_builder`: a builder with the plan on the left, no plan
/// on the right, no keys, and the engine's defaults: an inner join that may
/// run in parallel.
#[verifier::external_body]
pub(crate) fn join_builder(df: LazyFrame) -> (b: JoinBuilder)
    ensures
        join_setup(b) == (JoinSetup {
            left: df,
            right: None,
            how: JoinType::Inner,
            left_on: Seq::empty(),
            right_on: Seq::empty(),
            allow_parallel: true,
            force_parallel: false,
            suffix: None,
            validation: JoinValidation::ManyToMany,
            join_nulls: false,
            coalesce: JoinCoalesce::JoinSpecific,
            maintain_order: MaintainOrderJoin::None,
        }),
{
    df.join_builder()
}

/// `JoinBuilder::with`: sets the plan on the right.
#[verifier::external_body]
pub(crate) fn with(builder: JoinBuilder, other: LazyFrame) -> (b: JoinBuilder)
    ensures
        join_setup(b) == (JoinSetup { right: Some(other), ..join_setup(builder) }),
{
    builder.with(other)
}

/// `JoinBuilder::how`: sets the kind of join.
#[verifier::external_body]
pub(crate) fn how(builder: JoinBuilder, kind: JoinType) -> (b: JoinBuilder)
    ensures
        join_setup(b) == (JoinSetup { how: kind, ..join_setup(builder) }),
{
    builder.how(kind)
}

/// `JoinBuilder::left_on`: sets the keys of the left plan.
#[verifier::external_body]
pub(crate) fn left_on(builder: JoinBuilder, on: &[Expr]) -> (b: JoinBuilder)
    ensures
        join_setup(b) == (JoinSetup { left_on: on@, ..join_setup(builder) }),
{
    builder.left_on(on)
}

/// `JoinBuilder::right_on`: sets the keys of the right plan.
#[verifier::external_body]
pub(crate) fn right_on(builder: JoinBuilder, on: &[Expr]) -> (b: JoinBuilder)
    ensures
        join_setup(b) == (JoinSetup { right_on: on@, ..join_setup(builder) }),
{
    builder.right_on(on)
}

/// `JoinBuilder::allow_parallel`: sets whether the plans may run in parallel.
#[verifier::external_body]
pub(crate) fn allow_parallel(builder: JoinBuilder, allow: bool) -> (b: JoinBuilder)
    ensures
        join_setup(b) == (JoinSetup { allow_parallel: allow, ..join_setup(builder) }),
{
    builder.allow_parallel(allow)
}

/// `JoinBuilder::force_parallel`: sets whether the plans must run in parallel.
#[verifier::external_body]
pub(crate) fn force_parallel(builder: JoinBuilder, force: bool) -> (b: JoinBuilder)
    ensures
        join_setup(b) == (JoinSetup { force_parallel: force, ..join_setup(builder) }),
{
    builder.force_parallel(force)
}

/// `JoinBuilder::coalesce`: sets which key columns are merged.
#[verifier::external_body]
pub(crate) fn coalesce(builder: JoinBuilder, policy: JoinCoalesce) -> (b: JoinBuilder)
    ensures
        join_setup(b) == (JoinSetup { coalesce: policy, ..join_setup(builder) }),
{
    builder.coalesce(policy)
}

/// `JoinBuilder::join_nulls`: sets whether null keys match each other.
#[verifier::external_body]
pub(crate) fn join_nulls(builder: JoinBuilder, enabled: bool) -> (b: JoinBuilder)
    ensures
        join_setup(b) == (JoinSetup { join_nulls: enabled, ..join_setup(builder) }),
{
    builder.join_nulls(enabled)
}

/// `JoinBuilder::suffix`: sets the suffix for colliding column names.
#[verifier::external_body]
pub(crate) fn suffix(builder: JoinBuilder, text: &str) -> (b: JoinBuilder)
    ensures
        join_setup(b) == (JoinSetup { suffix: Some(text@), ..join_setup(builder) }),
{
    builder.suffix(text)
}

/// `JoinBuilder::finish`: the plan of the join. The engine aborts where no
/// right-hand plan was set, so that is required.
#[verifier::external_body]
pub(crate) fn finish(builder: JoinBuilder) -> (r: LazyFrame)
    requires
        join_setup(builder).right is Some,
    ensures
        r == joined(join_setup(builder)),
{
    builder.finish()
}

} // verus!
