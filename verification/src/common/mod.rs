//! Values, their types, and the operators that compare them.

pub mod error;
pub mod field;
pub mod fit;
pub mod int_field;
pub mod page_id;
pub mod predicate;
pub mod string_field;
pub mod text;
pub mod ty;
pub mod wire;
