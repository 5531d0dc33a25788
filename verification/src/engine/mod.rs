//! The query engine as this library sees it: its types, and one trusted
//! contract for each plan-building call that the transformations make.
//!
//! Nothing here is proved. Every contract restates what the engine's source
//! shows of the call it stands for; the transformations are verified against
//! these contracts.

pub mod expr;
pub mod frame;
pub mod join;
pub mod sort;
pub mod types;
