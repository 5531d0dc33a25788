//! The transformations: each is a configuration that extends a plan by one step.

pub mod cast_cols;
pub mod count_rows;
pub mod exclude_cols;
pub mod filter;
pub mod group_by;
pub mod join;
pub mod pipeline;
pub mod reverse_rows;
pub mod select_cols;
pub mod sort;
pub mod text;
pub mod transformer;
pub mod transpose;
