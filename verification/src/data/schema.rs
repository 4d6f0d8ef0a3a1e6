//! Schema columns as a statement parser hands them over.
use vstd::prelude::*;

verus! {

/// The SQL type a column was declared with. Widths and precisions are kept as
/// declared; they play no part in row materialization.
#[derive(Debug, Clone, Copy, PartialEq, Eq)]
pub enum SqlType {
    Bool,
    Char(u16),
    Varchar(u16),
    Int(u16),
    UnsignedInt(u16),
    Bigint(u16),
    UnsignedBigint(u16),
    Tinyint(u16),
    UnsignedTinyint(u16),
    Blob,
    Longblob,
    Mediumblob,
    Tinyblob,
    Double,
    Float,
    Real,
    Tinytext,
    Mediumtext,
    Longtext,
    Text,
    Date,
    DateTime(u16),
    Timestamp,
    Binary(u16),
    Varbinary(u16),
    Enum,
    Decimal(u8, u8),
}

/// A column as a statement refers to it: by name.
#[derive(Debug, PartialEq, Eq)]
pub struct Column {
    pub name: String,
}

impl DeepView for Column {
    type V = Seq<char>;

    /// A column reference is modelled by the characters of its name.
    open spec fn deep_view(&self) -> Seq<char> {
        self.name@
    }
}

impl Clone for Column {
    /// The copy bears the same name.
    fn clone(&self) -> (copy: Self)
        ensures
            copy.deep_view() == self.deep_view(),
    {
        Column { name: self.name.clone() }
    }
}

/// One column of a table's schema: its name and its declared type. The order
/// of the specifications in a schema is the order of the values in a row.
#[derive(Debug, PartialEq, Eq)]
pub struct ColumnSpecification {
    pub column: Column,
    pub sql_type: SqlType,
}

/// Mathematical model of a [`ColumnSpecification`].
pub struct ColumnSpecificationView {
    pub name: Seq<char>,
    pub sql_type: SqlType,
}

impl DeepView for ColumnSpecification {
    type V = ColumnSpecificationView;

    open spec fn deep_view(&self) -> ColumnSpecificationView {
        ColumnSpecificationView { name: self.column.name@, sql_type: self.sql_type }
    }
}

impl Clone for ColumnSpecification {
    /// The copy declares the same column.
    fn clone(&self) -> (copy: Self)
        ensures
            copy.deep_view() == self.deep_view(),
    {
        ColumnSpecification { column: self.column.clone(), sql_type: self.sql_type }
    }
}

} // verus!
