//! Schemas, rows and the addresses of rows.

pub mod record_id;
pub mod tuple;
pub mod tuple_desc;
