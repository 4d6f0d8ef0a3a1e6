//! The data that flows through row materialization: schema columns, statement
//! literals, typed values and rows.
pub mod literal;
pub mod row;
pub mod row_lemmas;
pub mod schema;
pub mod value;

pub use literal::{Literal, LiteralView, Real};
pub use row::{collect, first_failure, Row, RowError, RowErrorView};
pub use schema::{Column, ColumnSpecification, ColumnSpecificationView, SqlType};
pub use value::{Value, ValueError, ValueView};
