//! Typed runtime values and the coercion of literals into them.
use vstd::prelude::*;

use crate::data::literal::{Literal, LiteralView};
use crate::data::schema::SqlType;
use crate::result::{outcome, Error, ErrorView};

verus! {

/// Why a literal could not be coerced to a declared type.
#[derive(Debug, Clone, Copy, PartialEq, Eq)]
pub enum ValueError {
    /// The declared type offers no coercion for the literal at hand.
    SqlTypeNotSupported,
    /// Literals of this form are coerced to no type at all.
    LiteralNotSupported,
}

/// A typed value as a row stores it.
#[derive(Debug, PartialEq, Eq)]
pub enum Value {
    I64(i64),
    String(String),
}

/// Mathematical model of a [`Value`].
pub enum ValueView {
    I64(i64),
    String(Seq<char>),
}

impl DeepView for Value {
    type V = ValueView;

    open spec fn deep_view(&self) -> ValueView {
        match self {
            Value::I64(v) => ValueView::I64(*v),
            Value::String(s) => ValueView::String(s@),
        }
    }
}

impl Clone for Value {
    /// The copy denotes the same value.
    fn clone(&self) -> (copy: Self)
        ensures
            copy.deep_view() == self.deep_view(),
    {
        match self {
            Value::I64(v) => Value::I64(*v),
            Value::String(s) => Value::String(s.clone()),
        }
    }
}

impl Value {
    /// The coercion table. Integer literals become 64-bit integers in `INT`
    /// columns, string literals become strings in `TEXT` columns, and nothing
    /// is widened or truncated. A literal of any other form is rejected
    /// whatever the declared type; an integer or string literal is rejected
    /// by every other declared type.
    pub open spec fn coerce(sql_type: SqlType, literal: LiteralView) -> Result<
        ValueView,
        ValueError,
    > {
        match literal {
            LiteralView::Integer(v) => match sql_type {
                SqlType::Int(_) => Ok(ValueView::I64(v)),
                _ => Err(ValueError::SqlTypeNotSupported),
            },
            LiteralView::String(s) => match sql_type {
                SqlType::Text => Ok(ValueView::String(s)),
                _ => Err(ValueError::SqlTypeNotSupported),
            },
            _ => Err(ValueError::LiteralNotSupported),
        }
    }

    /// What [`Value::new`] returns: the coerced value, or the coercion error
    /// as an [`Error`], not wrapped any further.
    pub open spec fn typed(sql_type: SqlType, literal: LiteralView) -> Result<ValueView, ErrorView> {
        match Self::coerce(sql_type, literal) {
            Ok(value) => Ok(value),
            Err(error) => Err(ErrorView::Value(error)),
        }
    }

    /// Coerces `literal` to the declared type `sql_type`.
    pub fn new(sql_type: SqlType, literal: Literal) -> (r: Result<Value, Error>)
        ensures
            outcome(r) == Self::typed(sql_type, literal.deep_view()),
    {
        match literal {
            Literal::Integer(v) => match sql_type {
                SqlType::Int(_) => Ok(Value::I64(v)),
                _ => Err(Error::Value(ValueError::SqlTypeNotSupported)),
            },
            Literal::String(s) => match sql_type {
                SqlType::Text => Ok(Value::String(s)),
                _ => Err(Error::Value(ValueError::SqlTypeNotSupported)),
            },
            _ => Err(Error::Value(ValueError::LiteralNotSupported)),
        }
    }
}

} // verus!
