//! Parsing columns of text into dates, times and date-times.
//!
//! Each operation reads one source column and writes the parsed values under
//! a new name. The plan that results holds every column that was there but
//! the source columns, and then the parsed columns in the order of the
//! operations. A source column that several operations read is left out
//! once.

use crate::engine::expr::{
    alias, aliased, all, col, column, exclude, excluding, lit, parsed_date, parsed_datetime,
    parsed_time, text_literal, to_date, to_datetime, to_time,
};
use crate::engine::frame::{projected, select};
use crate::error::TransformError;
use crate::transform::transformer::Transformation;
use polars::prelude::{Expr, LazyFrame, StrptimeOptions, TimeUnit};
use std::rc::Rc;
use vstd::prelude::*;

verus! {

/// One conversion of a column of text.
pub enum ParseTextOp {
    /// Parse `column` into dates, written under `alias`.
    ToDate { column: String, options: StrptimeOptions, alias: String },
    /// Parse `column` into times of day, written under `alias`.
    ToTime { column: String, options: StrptimeOptions, alias: String },
    /// Parse `column` into date-times of the given resolution and zone,
    /// written under `alias`.
    ToDateTime {
        column: String,
        options: StrptimeOptions,
        time_unit: Option<TimeUnit>,
        time_zone: Option<String>,
        alias: String,
    },
}

/// The view of a name that may be missing.
pub open spec fn text_view(text: Option<String>) -> Option<Seq<char>> {
    match text {
        Some(t) => Some(t@),
        None => None,
    }
}

impl ParseTextOp {
    /// The name of the column that is parsed.
    pub open spec fn source(self) -> Seq<char> {
        match self {
            ParseTextOp::ToDate { column, .. } => column@,
            ParseTextOp::ToTime { column, .. } => column@,
            ParseTextOp::ToDateTime { column, .. } => column@,
        }
    }

    /// The expression that parses the source column and names the result.
    /// A date-time that the zone makes ambiguous is an error of the engine.
    pub open spec fn expr(self) -> Expr {
        match self {
            ParseTextOp::ToDate { column: source, options, alias } => aliased(
                parsed_date(column(source@), options),
                alias@,
            ),
            ParseTextOp::ToTime { column: source, options, alias } => aliased(
                parsed_time(column(source@), options),
                alias@,
            ),
            ParseTextOp::ToDateTime {
                column: source,
                options,
                time_unit,
                time_zone,
                alias,
            } => aliased(
                parsed_datetime(
                    column(source@),
                    time_unit,
                    text_view(time_zone),
                    options,
                    text_literal("raise"@),
                ),
                alias@,
            ),
        }
    }

    /// The name of the column that is parsed.
    pub fn get_col_name(&self) -> (name: String)
        ensures
            name@ == self.source(),
    {
        match self {
            Self::ToDate { column, .. } => column.clone(),
            Self::ToTime { column, .. } => column.clone(),
            Self::ToDateTime { column, .. } => column.clone(),
        }
    }

    /// Builds the expression that parses the source column.
    pub fn to_expr(&self) -> (e: Expr)
        ensures
            e == self.expr(),
    {
        match &self {
            ParseTextOp::ToDate { column, options, alias: name } => {
                alias(to_date(col(column.as_str()), options.clone()), name.as_str())
            },
            ParseTextOp::ToTime { column, options, alias: name } => {
                alias(to_time(col(column.as_str()), options.clone()), name.as_str())
            },
            ParseTextOp::ToDateTime { column, options, time_unit, time_zone, alias: name } => {
                let zone = match time_zone {
                    Some(z) => Some(z.clone()),
                    None => None,
                };
                alias(
                    to_datetime(
                        col(column.as_str()),
                        *time_unit,
                        zone,
                        options.clone(),
                        lit("raise"),
                    ),
                    name.as_str(),
                )
            },
        }
    }
}

/// The names of `names` in the order in which each occurs first.
pub open spec fn first_occurrences(names: Seq<Seq<char>>) -> Seq<Seq<char>>
    decreases names.len(),
{
    if names.len() == 0 {
        Seq::empty()
    } else {
        let before = first_occurrences(names.drop_last());
        if before.contains(names.last()) {
            before
        } else {
            before.push(names.last())
        }
    }
}

/// A name is among the first occurrences exactly if it is among the names.
pub proof fn lemma_first_occurrences_keep_every_name(names: Seq<Seq<char>>, name: Seq<char>)
    ensures
        first_occurrences(names).contains(name) <==> names.contains(name),
    decreases names.len(),
{
    if names.len() > 0 {
        let init = names.drop_last();
        let before = first_occurrences(init);
        lemma_first_occurrences_keep_every_name(init, name);
        lemma_first_occurrences_keep_every_name(init, names.last());
        if names.contains(name) {
            let i = choose|i: int| 0 <= i < names.len() && names[i] == name;
            if i < names.len() - 1 {
                assert(init[i] == name);
                assert(before.contains(name));
            }
            if !before.contains(names.last()) {
                assert(before.push(names.last())[before.len() as int] == names.last());
            }
            if before.contains(name) {
                let j = choose|j: int| 0 <= j < before.len() && before[j] == name;
                assert(before.push(names.last())[j] == name);
            }
        }
        if first_occurrences(names).contains(name) {
            let j = choose|j: int|
                0 <= j < first_occurrences(names).len() && first_occurrences(names)[j] == name;
            if j < before.len() {
                assert(before[j] == name);
                let i = choose|i: int| 0 <= i < init.len() && init[i] == name;
                assert(names[i] == name);
            } else {
                assert(names[names.len() - 1] == name);
            }
        }
    }
}

/// No name stands twice among the first occurrences.
pub proof fn lemma_first_occurrences_are_distinct(names: Seq<Seq<char>>)
    ensures
        first_occurrences(names).no_duplicates(),
    decreases names.len(),
{
    if names.len() > 0 {
        lemma_first_occurrences_are_distinct(names.drop_last());
    }
}

/// `itertools::concat` on lists: the items of the first list, then those of
/// the second, and so on.
#[verifier::external_body]
fn concat(parts: Vec<Vec<Expr>>) -> (all: Vec<Expr>)
    ensures
        all@ == parts@.map_values(|part: Vec<Expr>| part@).flatten(),
{
    itertools::concat(parts)
}

/// A list of conversions of text columns.
pub struct ParseText {
    pub cols: Vec<Rc<ParseTextOp>>,
}

impl ParseText {
    /// The source columns of the operations, in their order.
    pub open spec fn sources(self) -> Seq<Seq<char>> {
        self.cols@.map_values(|op: Rc<ParseTextOp>| (*op).source())
    }

    /// The expressions of the operations, in their order.
    pub open spec fn exprs(self) -> Seq<Expr> {
        self.cols@.map_values(|op: Rc<ParseTextOp>| (*op).expr())
    }

    /// The source columns, each once, in the order in which the operations
    /// first read them.
    pub fn get_col_names(&self) -> (names: Vec<String>)
        ensures
            names@.map_values(|name: String| name@) == first_occurrences(self.sources()),
    {
        let mut names: Vec<String> = Vec::new();
        let mut i: usize = 0;
        while i < self.cols.len()
            invariant
                i <= self.cols.len(),
                names@.map_values(|name: String| name@) == first_occurrences(
                    self.sources().take(i as int),
                ),
            decreases self.cols.len() - i,
        {
            let name = self.cols[i].get_col_name();
            let ghost seen = names@.map_values(|name: String| name@);
            let mut known = false;
            let mut j: usize = 0;
            while j < names.len()
                invariant
                    j <= names.len(),
                    seen == names@.map_values(|name: String| name@),
                    known <==> exists|k: int| 0 <= k < j && seen[k] == name@,
                decreases names.len() - j,
            {
                if names[j] == name {
                    known = true;
                    assert(seen[j as int] == name@);
                }
                j = j + 1;
            }
            proof {
                let next = self.sources().take(i + 1);
                assert(next.drop_last() == self.sources().take(i as int));
                assert(next.last() == name@);
                assert(known <==> seen.contains(name@));
            }
            if !known {
                names.push(name);
                proof {
                    assert(names@.map_values(|name: String| name@) == seen.push(name@));
                }
            }
            i = i + 1;
        }
        proof {
            assert(self.sources().take(i as int) == self.sources());
        }
        names
    }

    /// The expressions of the operations, in their order.
    pub fn get_exprs(self) -> (exprs: Vec<Expr>)
        ensures
            exprs@ == self.exprs(),
    {
        let mut exprs: Vec<Expr> = Vec::new();
        let mut i: usize = 0;
        while i < self.cols.len()
            invariant
                i <= self.cols.len(),
                exprs@ == self.exprs().take(i as int),
            decreases self.cols.len() - i,
        {
            exprs.push(self.cols[i].to_expr());
            proof {
                assert(exprs@ == self.exprs().take(i + 1));
            }
            i = i + 1;
        }
        proof {
            assert(self.exprs().take(i as int) == self.exprs());
        }
        exprs
    }
}

impl Transformation for ParseText {
    open spec fn outcome(self, df: LazyFrame, out: Result<LazyFrame, TransformError>) -> bool {
        out == Ok::<LazyFrame, TransformError>(
            projected(
                df,
                seq![excluding(column("*"@), first_occurrences(self.sources()))] + self.exprs(),
            ),
        )
    }

    /// Extends the plan by the conversions: all columns but the sources,
    /// then the parsed columns.
    fn apply(self, df: LazyFrame) -> (out: Result<LazyFrame, TransformError>) {
        let kept = exclude(all(), self.get_col_names());
        let ghost parsed = self.exprs();
        let exprs = self.get_exprs();
        let mut head: Vec<Expr> = Vec::new();
        head.push(kept);
        let mut parts: Vec<Vec<Expr>> = Vec::new();
        parts.push(head);
        parts.push(exprs);
        proof {
            let lists = parts@.map_values(|part: Vec<Expr>| part@);
            assert(lists == seq![seq![kept], parsed]);
            assert(lists.drop_first() == seq![parsed]);
            assert(lists.drop_first().drop_first() == Seq::<Seq<Expr>>::empty());
            reveal_with_fuel(Seq::flatten, 3);
            assert(lists.flatten() == seq![kept] + parsed);
        }
        Ok(select(df, concat(parts)))
    }
}

} // verus!
