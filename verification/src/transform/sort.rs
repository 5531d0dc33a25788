//! Ordering the rows of a plan by some of its columns.

use crate::engine::sort::{
    default_options, sort, sort_order, sorted, with_maintain_order, with_multithreaded,
    with_nulls_last, with_nulls_last_multi, with_order_descending, with_order_descending_multi,
    SortOrder,
};
use crate::engine::expr::name_views;
use crate::error::{ConfigError, TransformError};
use crate::transform::transformer::Transformation;
use polars::prelude::{LazyFrame, SortMultipleOptions};
use vstd::prelude::*;

verus! {

/// The configuration of a sort. `by` names the sort columns, the one that
/// weighs most first. A direction and a place for nulls can each be given
/// as one flag for all columns or as a list with one flag for each column;
/// where both are given the list counts.
pub struct Sort {
    pub by: Vec<String>,
    pub descending: Option<bool>,
    pub descending_multi: Option<Vec<bool>>,
    pub nulls_last: Option<bool>,
    pub nulls_last_multi: Option<Vec<bool>>,
    pub multithreaded: Option<bool>,
    pub maintain_order: Option<bool>,
}

/// The flags that stand for a setting given as a list, as one flag, or not
/// at all: the list where there is one, else the one flag, else `false`.
pub open spec fn chosen_flags(single: Option<bool>, multi: Option<Vec<bool>>) -> Seq<bool> {
    match multi {
        Some(flags) => flags@,
        None => match single {
            Some(flag) => seq![flag],
            None => seq![false],
        },
    }
}

impl Sort {
    /// How this configuration orders the rows. The engine may use several
    /// threads unless told otherwise, and keeps the order of rows with equal
    /// keys only where asked to.
    pub open spec fn order(self) -> SortOrder {
        SortOrder {
            descending: chosen_flags(self.descending, self.descending_multi),
            nulls_last: chosen_flags(self.nulls_last, self.nulls_last_multi),
            multithreaded: match self.multithreaded {
                Some(flag) => flag,
                None => true,
            },
            maintain_order: match self.maintain_order {
                Some(flag) => flag,
                None => false,
            },
            limit: None,
        }
    }

    /// True where a list of flags is given whose length is not the number
    /// of sort columns.
    pub open spec fn miscounted(self) -> bool {
        ||| self.descending_multi matches Some(flags) && flags@.len() != self.by@.len()
        ||| self.nulls_last_multi matches Some(flags) && flags@.len() != self.by@.len()
    }

    /// The engine's options for this configuration.
    pub fn make_sort_options(&self) -> (r: SortMultipleOptions)
        ensures
            sort_order(r) == self.order(),
    {
        let mut sort_options = default_options();

        if let Some(descending) = &self.descending {
            sort_options = with_order_descending(sort_options, *descending);
        }
        if let Some(descending) = &self.descending_multi {
            sort_options = with_order_descending_multi(sort_options, descending.clone());
        }
        if let Some(nulls_last) = &self.nulls_last {
            sort_options = with_nulls_last(sort_options, *nulls_last);
        }
        if let Some(nulls_last) = &self.nulls_last_multi {
            sort_options = with_nulls_last_multi(sort_options, nulls_last.clone());
        }
        if let Some(multithreaded) = &self.multithreaded {
            sort_options = with_multithreaded(sort_options, *multithreaded);
        }
        if let Some(maintain_order) = &self.maintain_order {
            sort_options = with_maintain_order(sort_options, *maintain_order);
        }
        sort_options
    }
}

impl Default for Sort {
    /// A sort by no column yet, with several threads and without a stable
    /// order; directions and nulls are left to the engine.
    fn default() -> (s: Sort)
        ensures
            s.by@.len() == 0,
            s.descending is None,
            s.descending_multi is None,
            s.nulls_last is None,
            s.nulls_last_multi is None,
            s.multithreaded == Some(true),
            s.maintain_order == Some(false),
    {
        Sort {
            by: Vec::new(),
            descending_multi: None,
            descending: None,
            multithreaded: Some(true),
            maintain_order: Some(false),
            nulls_last: None,
            nulls_last_multi: None,
        }
    }
}

impl Transformation for Sort {
    open spec fn outcome(self, df: LazyFrame, out: Result<LazyFrame, TransformError>) -> bool {
        out == if self.miscounted() {
            Err::<LazyFrame, TransformError>(TransformError::Config(ConfigError::SortFlagCount))
        } else {
            Ok(sorted(df, name_views(self.by@), self.order()))
        }
    }

    /// Extends the plan by the sort, unless a list of flags has another
    /// length than `by`.
    fn apply(self, df: LazyFrame) -> (out: Result<LazyFrame, TransformError>) {
        if let Some(flags) = &self.descending_multi {
            if flags.len() != self.by.len() {
                return Err(TransformError::Config(ConfigError::SortFlagCount));
            }
        }
        if let Some(flags) = &self.nulls_last_multi {
            if flags.len() != self.by.len() {
                return Err(TransformError::Config(ConfigError::SortFlagCount));
            }
        }
        let sort_options = self.make_sort_options();
        Ok(sort(df, self.by, sort_options))
    }
}

} // verus!
