use std::rc::Rc;

use chrono::NaiveDate;
use dias::error::{ConfigError, TransformError};
use dias::transform::cast_cols::CastCols;
use dias::transform::count_rows::CountRows;
use dias::transform::exclude_cols::ExcludeCols;
use dias::transform::filter::clause::{Clause, FilterOperators};
use dias::transform::filter::{Branch, Filter};
use dias::transform::join::Join;
use dias::transform::pipeline::{apply_all, Step};
use dias::transform::reverse_rows::ReverseRows;
use dias::transform::select_cols::SelectCols;
use dias::transform::sort::Sort;
use dias::transform::text::{ParseText, ParseTextOp};
use dias::transform::transformer::Transformation;
use dias::transform::transpose::Transpose;
use polars::prelude::{
    col, lit, BooleanFunction, Column, DataFrame, DataType, IntoLazy, JoinCoalesce, JoinType,
    Operator, StrptimeOptions,
};

fn frame(columns: Vec<Column>) -> DataFrame {
    DataFrame::new(columns).unwrap()
}

fn run<T: Transformation>(step: T, df: DataFrame) -> DataFrame {
    step.apply(df.lazy()).unwrap().collect().unwrap()
}

fn names(df: &DataFrame) -> Vec<String> {
    df.get_column_names().into_iter().map(|name| name.to_string()).collect()
}

fn four_columns() -> DataFrame {
    frame(vec![
        Column::new("col1".into(), &[1, 5]),
        Column::new("col2".into(), &[2, 6]),
        Column::new("col3".into(), &[3, 7]),
        Column::new("col4".into(), &[4, 8]),
    ])
}

#[test]
fn select_keeps_the_listed_order() {
    let step = SelectCols { columns: vec![String::from("col4"), String::from("col2")] };
    let result = run(step, four_columns());
    assert_eq!(names(&result), vec!["col4", "col2"]);
    assert_eq!(
        result,
        frame(vec![Column::new("col4".into(), &[4, 8]), Column::new("col2".into(), &[2, 6])])
    );
}

#[test]
fn exclude_keeps_the_frame_order() {
    let step = ExcludeCols { columns: vec![String::from("col3"), String::from("col1")] };
    let result = run(step, four_columns());
    assert_eq!(names(&result), vec!["col2", "col4"]);
}

#[test]
fn select_and_exclude_of_the_rest_keep_the_same_columns() {
    let selected = run(
        SelectCols { columns: vec![String::from("col4"), String::from("col2")] },
        four_columns(),
    );
    let left = run(
        ExcludeCols { columns: vec![String::from("col1"), String::from("col3")] },
        four_columns(),
    );
    let mut selected_names = names(&selected);
    let mut left_names = names(&left);
    selected_names.sort();
    left_names.sort();
    assert_eq!(selected_names, left_names);
    assert_eq!(selected_names, vec!["col2", "col4"]);
}

#[test]
fn select_of_a_missing_column_fails_when_executed() {
    let step = SelectCols { columns: vec![String::from("nowhere")] };
    let plan = step.apply(four_columns().lazy()).unwrap();
    assert!(plan.collect().is_err());
}

#[test]
fn count_of_an_empty_frame_is_zero() {
    let empty = frame(vec![Column::new("col1".into(), Vec::<i32>::new())]);
    let result = run(CountRows {}, empty);
    assert_eq!(names(&result), vec!["Row Count"]);
    assert_eq!(result.height(), 1);
    let count = result.column("Row Count").unwrap().as_materialized_series().sum::<i64>().unwrap();
    assert_eq!(count, 0);
}

#[test]
fn count_is_one_row_with_one_column() {
    let result = run(CountRows {}, four_columns());
    assert_eq!(result.shape(), (1, 1));
    let count = result.column("Row Count").unwrap().as_materialized_series().sum::<i64>().unwrap();
    assert_eq!(count, 2);
}

#[test]
fn reverse_twice_gives_the_rows_back() {
    let df = frame(vec![
        Column::new("a".into(), [Some(1), None, Some(3), Some(4)]),
        Column::new("b".into(), ["w", "x", "y", "z"]),
    ]);
    let once = run(ReverseRows {}, df.clone());
    assert_eq!(
        once,
        frame(vec![
            Column::new("a".into(), [Some(4), Some(3), None, Some(1)]),
            Column::new("b".into(), ["z", "y", "x", "w"]),
        ])
    );
    let twice = run(ReverseRows {}, once);
    assert_eq!(twice, df);
}

#[test]
fn transpose_twice_gives_the_text_back() {
    let df = frame(vec![
        Column::new("a".into(), &["a1", "a2", "a3", "a4"]),
        Column::new("b".into(), &["b1", "b2", "b3", "b4"]),
    ]);
    let once = run(Transpose {}, df.clone());
    assert_eq!(names(&once), vec!["column_0", "column_1", "column_2", "column_3"]);
    let twice = run(Transpose {}, once);
    assert_eq!(names(&twice), vec!["column_0", "column_1"]);
    assert_eq!(twice, df);
}

#[test]
fn transpose_hands_on_the_engine_error() {
    let empty = frame(vec![Column::new("a".into(), Vec::<i32>::new())]);
    match (Transpose {}).apply(empty.lazy()) {
        Err(TransformError::Engine(_)) => {},
        _ => panic!("expected the error of the engine"),
    }
    let broken = four_columns().lazy().select([col("nowhere")]);
    match (Transpose {}).apply(broken) {
        Err(TransformError::Engine(_)) => {},
        _ => panic!("expected the error of the engine"),
    }
}

#[test]
fn date_only_parse_of_a_date_time_text() {
    let step = ParseText {
        cols: vec![Rc::new(ParseTextOp::ToDate {
            column: String::from("string"),
            alias: String::from("Date"),
            options: StrptimeOptions {
                format: Some("%Y-%m-%d %H:%M:%S".into()),
                ..Default::default()
            },
        })],
    };
    let df = frame(vec![Column::new("string".into(), &["2020-01-01 16:50:03"])]);
    let expected = frame(vec![Column::new(
        "Date".into(),
        &[NaiveDate::from_ymd_opt(2020, 1, 1).unwrap()],
    )]);
    assert_eq!(run(step, df), expected);
}

#[test]
fn date_time_parse_of_a_date_time_text() {
    let step = ParseText {
        cols: vec![Rc::new(ParseTextOp::ToDateTime {
            column: String::from("string"),
            alias: String::from("DateTime"),
            options: StrptimeOptions {
                format: Some("%Y-%m-%d %H:%M:%S".into()),
                ..Default::default()
            },
            time_unit: None,
            time_zone: None,
        })],
    };
    let df = frame(vec![Column::new("string".into(), &["2020-01-01 16:50:03"])]);
    let expected = frame(vec![Column::new(
        "DateTime".into(),
        &[NaiveDate::from_ymd_opt(2020, 1, 1).unwrap().and_hms_opt(16, 50, 3).unwrap()],
    )]);
    assert_eq!(run(step, df), expected);
}

#[test]
fn parse_keeps_the_other_columns_and_drops_a_source_once() {
    let options = || StrptimeOptions { format: Some("%Y-%m-%d %H:%M:%S".into()), ..Default::default() };
    let step = ParseText {
        cols: vec![
            Rc::new(ParseTextOp::ToDate {
                column: String::from("string"),
                alias: String::from("Date"),
                options: options(),
            }),
            Rc::new(ParseTextOp::ToTime {
                column: String::from("string"),
                alias: String::from("Time"),
                options: options(),
            }),
        ],
    };
    let df = frame(vec![
        Column::new("id".into(), &[7]),
        Column::new("string".into(), &["2020-01-01 16:50:03"]),
        Column::new("kept".into(), &["x"]),
    ]);
    let result = run(step, df);
    assert_eq!(names(&result), vec!["id", "kept", "Date", "Time"]);
}

#[test]
fn parse_of_other_text_fails_when_executed() {
    let step = ParseText {
        cols: vec![Rc::new(ParseTextOp::ToDate {
            column: String::from("string"),
            alias: String::from("Date"),
            options: StrptimeOptions { format: Some("%Y-%m-%d".into()), ..Default::default() },
        })],
    };
    let df = frame(vec![Column::new("string".into(), &["no date"])]);
    assert!(step.apply(df.lazy()).unwrap().collect().is_err());
}

#[test]
fn strict_cast_fails_where_a_loose_one_gives_null() {
    let df = || frame(vec![Column::new("a".into(), &[1, 1000])]);
    let mut loose = CastCols::new(false);
    loose.insert(String::from("a"), DataType::Int8);
    let result = run(loose, df());
    assert_eq!(result, frame(vec![Column::new("a".into(), &[Some(1i8), None])]));
    let mut strict = CastCols::new(true);
    strict.insert(String::from("a"), DataType::Int8);
    assert!(strict.apply(df().lazy()).unwrap().collect().is_err());
}

#[test]
fn filter_keeps_only_rows_that_are_true() {
    let df = frame(vec![Column::new("a".into(), [Some(1), None, Some(3)])]);
    let step = Filter {
        main_clause: Clause {
            column: String::from("a"),
            operator: FilterOperators::PolarsOperator(Operator::NotEq, lit(1)),
        },
        branches: vec![],
    };
    assert_eq!(run(step, df), frame(vec![Column::new("a".into(), [Some(3)])]));
}

#[test]
fn filter_branches_do_not_group_by_precedence() {
    let df = frame(vec![
        Column::new("a".into(), [true, true, false, false]),
        Column::new("b".into(), [true, false, true, false]),
        Column::new("c".into(), [false, false, false, false]),
    ]);
    let is_true = |name: &str| Clause {
        column: String::from(name),
        operator: FilterOperators::PolarsOperator(Operator::Eq, lit(true)),
    };
    // (a or b) and c keeps nothing; a or (b and c) would keep the rows where a holds.
    let step = Filter {
        main_clause: is_true("a"),
        branches: vec![Branch::Or(is_true("b")), Branch::And(is_true("c"))],
    };
    assert_eq!(run(step, df.clone()).height(), 0);
    let step = Filter {
        main_clause: is_true("c"),
        branches: vec![Branch::And(is_true("b")), Branch::Or(is_true("a"))],
    };
    assert_eq!(run(step, df).height(), 2);
}

#[test]
fn filter_by_a_boolean_function() {
    let df = frame(vec![Column::new("a".into(), [Some(1), None, Some(3)])]);
    let step = Filter {
        main_clause: Clause {
            column: String::from("a"),
            operator: FilterOperators::PolarsBooleanFunction(BooleanFunction::IsNull),
        },
        branches: vec![],
    };
    assert_eq!(run(step, df).height(), 1);
}

#[test]
fn join_suffix_marks_colliding_columns() {
    let left = || {
        frame(vec![Column::new("k".into(), &[1, 2]), Column::new("v".into(), &["a", "b"])])
    };
    let right = || {
        frame(vec![Column::new("k".into(), &[1, 2]), Column::new("v".into(), &["c", "d"])])
    };
    let step = Join {
        right: Some(right().lazy()),
        left_on: &[col("k")],
        right_on: &[col("k")],
        ..Default::default()
    };
    assert_eq!(names(&run(step, left())), vec!["k", "v", "v_right"]);
    let step = Join {
        right: Some(right().lazy()),
        left_on: &[col("k")],
        right_on: &[col("k")],
        suffix: Some("_other"),
        ..Default::default()
    };
    assert_eq!(names(&run(step, left())), vec!["k", "v", "v_other"]);
    let step = Join {
        right: Some(right().lazy()),
        left_on: &[col("k")],
        right_on: &[col("k")],
        coalese: JoinCoalesce::KeepColumns,
        ..Default::default()
    };
    assert_eq!(names(&run(step, left())), vec!["k", "v", "k_right", "v_right"]);
}

#[test]
fn join_strategy_and_null_keys() {
    let left =
        || frame(vec![Column::new("k".into(), [Some(1), None, Some(3)])]);
    let right = || {
        frame(vec![
            Column::new("k".into(), [Some(1), None]),
            Column::new("w".into(), ["x", "y"]),
        ])
    };
    let step = Join {
        strategy: JoinType::Inner,
        right: Some(right().lazy()),
        left_on: &[col("k")],
        right_on: &[col("k")],
        ..Default::default()
    };
    assert_eq!(run(step, left()).height(), 1);
    let step = Join {
        strategy: JoinType::Inner,
        right: Some(right().lazy()),
        left_on: &[col("k")],
        right_on: &[col("k")],
        join_nulls: true,
        ..Default::default()
    };
    assert_eq!(run(step, left()).height(), 2);
    let step = Join {
        right: Some(right().lazy()),
        left_on: &[col("k")],
        right_on: &[col("k")],
        ..Default::default()
    };
    assert_eq!(run(step, left()).height(), 3);
}

#[test]
fn sort_by_one_flag_for_all_columns() {
    let df = frame(vec![
        Column::new("a".into(), [1, 2, 2]),
        Column::new("b".into(), [1, 2, 3]),
    ]);
    let step = Sort {
        by: vec![String::from("a"), String::from("b")],
        descending: Some(true),
        ..Default::default()
    };
    assert_eq!(
        run(step, df),
        frame(vec![Column::new("a".into(), [2, 2, 1]), Column::new("b".into(), [3, 2, 1])])
    );
}

#[test]
fn pipeline_applies_the_steps_in_order() {
    let df = frame(vec![
        Column::new("a".into(), [3, 1, 2, 4]),
        Column::new("b".into(), ["w", "x", "y", "z"]),
    ]);
    let steps = vec![
        Step::Filter(Filter {
            main_clause: Clause {
                column: String::from("a"),
                operator: FilterOperators::PolarsOperator(Operator::Lt, lit(4)),
            },
            branches: vec![],
        }),
        Step::Sort(Sort { by: vec![String::from("a")], ..Default::default() }),
        Step::ReverseRows(ReverseRows {}),
        Step::SelectCols(SelectCols { columns: vec![String::from("b")] }),
    ];
    let result = apply_all(steps, df.lazy()).unwrap().collect().unwrap();
    assert_eq!(result, frame(vec![Column::new("b".into(), ["w", "y", "x"])]));
}

#[test]
fn pipeline_order_matters() {
    let df = || frame(vec![Column::new("a".into(), [1, 2, 3])]);
    let count_then_reverse =
        vec![Step::CountRows(CountRows {}), Step::ExcludeCols(ExcludeCols { columns: vec![] })];
    let result = apply_all(count_then_reverse, df().lazy()).unwrap().collect().unwrap();
    assert_eq!(names(&result), vec!["Row Count"]);
    let exclude_then_count = vec![
        Step::ExcludeCols(ExcludeCols { columns: vec![String::from("Row Count")] }),
        Step::CountRows(CountRows {}),
    ];
    let result = apply_all(exclude_then_count, df().lazy()).unwrap().collect().unwrap();
    assert_eq!(result.shape(), (1, 1));
}

#[test]
fn pipeline_without_steps_returns_the_plan() {
    let df = four_columns();
    let result = apply_all(Vec::<Step>::new(), df.clone().lazy()).unwrap().collect().unwrap();
    assert_eq!(result, df);
    assert_eq!(names(&result), names(&df));
}

#[test]
fn pipeline_ends_at_the_first_error() {
    let steps = vec![
        Step::ReverseRows(ReverseRows {}),
        Step::Join(Join::default()),
        Step::Sort(Sort {
            by: vec![String::from("col1")],
            descending_multi: Some(vec![]),
            ..Default::default()
        }),
    ];
    match apply_all(steps, four_columns().lazy()) {
        Err(TransformError::Config(reason)) => assert_eq!(reason, ConfigError::MissingRightFrame),
        _ => panic!("expected the error of the join"),
    }
}

#[test]
fn pipeline_of_steps_of_one_kind() {
    let df = frame(vec![Column::new("a".into(), [1, 2, 3])]);
    let steps = vec![ReverseRows {}, ReverseRows {}, ReverseRows {}];
    let result = apply_all(steps, df.lazy()).unwrap().collect().unwrap();
    assert_eq!(result, frame(vec![Column::new("a".into(), [3, 2, 1])]));
}

#[test]
fn pipeline_with_a_transposition_executes_there() {
    let df = frame(vec![Column::new("a".into(), &["x", "y"]), Column::new("b".into(), &["1", "2"])]);
    let steps = vec![Step::Transpose(Transpose {}), Step::ReverseRows(ReverseRows {})];
    let result = apply_all(steps, df.lazy()).unwrap().collect().unwrap();
    assert_eq!(
        result,
        frame(vec![
            Column::new("column_0".into(), &["1", "x"]),
            Column::new("column_1".into(), &["2", "y"]),
        ])
    );
    let mut cast = CastCols::new(true);
    cast.insert(String::from("a"), DataType::Int8);
    let failing = vec![Step::CastCols(cast), Step::Transpose(Transpose {})];
    let df = frame(vec![Column::new("a".into(), &[1, 1000])]);
    match apply_all(failing, df.lazy()) {
        Err(TransformError::Engine(_)) => {},
        _ => panic!("expected the error of the engine"),
    }
}

#[test]
fn join_with_unpaired_keys_fails_when_executed() {
    let right = frame(vec![Column::new("k".into(), &[1]), Column::new("l".into(), &[1])]);
    let left = frame(vec![Column::new("k".into(), &[1]), Column::new("l".into(), &[1])]);
    let step = Join {
        right: Some(right.lazy()),
        left_on: &[col("k"), col("l")],
        right_on: &[col("k")],
        ..Default::default()
    };
    let plan = step.apply(left.lazy()).unwrap();
    assert!(plan.collect().is_err());
}
