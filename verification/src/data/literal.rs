//! Literal values as they are written in a statement, before any typing.
use vstd::prelude::*;

verus! {

/// A fixed-point number written as `integral.fractional`.
#[derive(Debug, Clone, Copy, PartialEq, Eq)]
pub struct Real {
    pub integral: i32,
    pub fractional: i32,
}

/// An untyped value taken from the values list of a statement.
#[derive(Debug, PartialEq, Eq)]
pub enum Literal {
    Null,
    Integer(i64),
    UnsignedInteger(u64),
    FixedPoint(Real),
    String(String),
    Blob(Vec<u8>),
    CurrentTime,
    CurrentDate,
    CurrentTimestamp,
    Placeholder,
}

/// Mathematical model of a [`Literal`]: text and bytes become sequences.
pub enum LiteralView {
    Null,
    Integer(i64),
    UnsignedInteger(u64),
    FixedPoint(Real),
    String(Seq<char>),
    Blob(Seq<u8>),
    CurrentTime,
    CurrentDate,
    CurrentTimestamp,
    Placeholder,
}

impl DeepView for Literal {
    type V = LiteralView;

    open spec fn deep_view(&self) -> LiteralView {
        match self {
            Literal::Null => LiteralView::Null,
            Literal::Integer(v) => LiteralView::Integer(*v),
            Literal::UnsignedInteger(v) => LiteralView::UnsignedInteger(*v),
            Literal::FixedPoint(v) => LiteralView::FixedPoint(*v),
            Literal::String(s) => LiteralView::String(s@),
            Literal::Blob(b) => LiteralView::Blob(b@),
            Literal::CurrentTime => LiteralView::CurrentTime,
            Literal::CurrentDate => LiteralView::CurrentDate,
            Literal::CurrentTimestamp => LiteralView::CurrentTimestamp,
            Literal::Placeholder => LiteralView::Placeholder,
        }
    }
}

impl Clone for Literal {
    /// The copy denotes the same literal.
    fn clone(&self) -> (copy: Self)
        ensures
            copy.deep_view() == self.deep_view(),
    {
        match self {
            Literal::Null => Literal::Null,
            Literal::Integer(v) => Literal::Integer(*v),
            Literal::UnsignedInteger(v) => Literal::UnsignedInteger(*v),
            Literal::FixedPoint(v) => Literal::FixedPoint(*v),
            Literal::String(s) => Literal::String(s.clone()),
            Literal::Blob(b) => Literal::Blob(b.clone()),
            Literal::CurrentTime => Literal::CurrentTime,
            Literal::CurrentDate => Literal::CurrentDate,
            Literal::CurrentTimestamp => Literal::CurrentTimestamp,
            Literal::Placeholder => Literal::Placeholder,
        }
    }
}

} // verus!
