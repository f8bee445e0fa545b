//! Typed column values, tuple schemas, rows and single-column predicates
//! of a small relational engine, with machine-checked contracts.

pub mod common;
pub mod downcast;
pub mod table;
