//! Declarative building blocks for lazy query plans over tabular data.

pub mod engine;
pub mod error;
pub mod transform;
