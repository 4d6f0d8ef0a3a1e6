//! Row materialization for an embedded SQL engine.
//!
//! A table's schema, the optional column list of an `INSERT` statement and the
//! literal values of that statement are reconciled into one typed [`Row`], or
//! into a typed failure that names the column at fault.
pub mod data;
pub mod result;

pub use data::{
    Column, ColumnSpecification, ColumnSpecificationView, Literal, LiteralView, Real, Row,
    RowError, RowErrorView, SqlType, Value, ValueError, ValueView,
};
pub use result::{Error, ErrorView};
