//! Dropping the named columns.

use crate::engine::expr::{col, column, exclude, excluding, name_views};
use crate::engine::frame::{projected, select};
use crate::error::TransformError;
use crate::transform::transformer::Transformation;
use polars::prelude::LazyFrame;
use vstd::prelude::*;

verus! {

/// Keeps every column but the named ones, in the order that they have in
/// the plan.
pub struct ExcludeCols {
    pub columns: Vec<String>,
}

impl Transformation for ExcludeCols {
    open spec fn outcome(self, df: LazyFrame, out: Result<LazyFrame, TransformError>) -> bool {
        out == Ok::<LazyFrame, TransformError>(
            projected(df, seq![excluding(column("*"@), name_views(self.columns@))]),
        )
    }

    /// Extends the plan by the selection of all columns but the named ones.
    fn apply(self, df: LazyFrame) -> (out: Result<LazyFrame, TransformError>) {
        let exprs = vec![exclude(col("*"), self.columns)];
        assert(exprs@ == seq![excluding(column("*"@), name_views(self.columns@))]);
        Ok(select(df, exprs))
    }
}

/// Of the columns of a frame, a selection of some of them names exactly
/// those that the exclusion of all the others leaves unnamed. This speaks
/// of the two lists of names only; which columns the engine makes of them
/// is decided when the plan is executed.
pub proof fn lemma_select_names_what_exclude_leaves(
    frame_columns: Seq<Seq<char>>,
    selected: Seq<Seq<char>>,
    excluded: Seq<Seq<char>>,
)
    requires
        frame_columns.no_duplicates(),
        forall|name: Seq<char>| selected.contains(name) ==> frame_columns.contains(name),
        forall|name: Seq<char>|
            excluded.contains(name) <==> frame_columns.contains(name) && !selected.contains(
                name,
            ),
    ensures
        forall|name: Seq<char>|
            frame_columns.contains(name) ==> (selected.contains(name) <==> !excluded.contains(
                name,
            )),
        selected.to_set() == frame_columns.to_set().difference(excluded.to_set()),
{
    assert forall|name: Seq<char>|
        selected.to_set().contains(name) <==> frame_columns.to_set().difference(
            excluded.to_set(),
        ).contains(name) by {
        assert(selected.to_set().contains(name) <==> selected.contains(name));
        assert(excluded.to_set().contains(name) <==> excluded.contains(name));
        assert(frame_columns.to_set().contains(name) <==> frame_columns.contains(name));
    }
    assert(selected.to_set() =~= frame_columns.to_set().difference(excluded.to_set()));
}

} // verus!
