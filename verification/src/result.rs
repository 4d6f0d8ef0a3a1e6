//! The error type shared by every fallible operation of the crate.
use vstd::prelude::*;
use vstd::std_specs::convert::FromSpecImpl;

use crate::data::row::{RowError, RowErrorView};
use crate::data::value::ValueError;

verus! {

/// Any failure of the crate. Each component keeps its own error enum and is
/// folded in here unchanged, so its kind stays visible to callers.
#[derive(Debug, PartialEq, Eq)]
pub enum Error {
    Row(RowError),
    Value(ValueError),
}

/// Mathematical model of an [`Error`].
pub enum ErrorView {
    Row(RowErrorView),
    Value(ValueError),
}

impl DeepView for Error {
    type V = ErrorView;

    open spec fn deep_view(&self) -> ErrorView {
        match self {
            Error::Row(error) => ErrorView::Row(error.deep_view()),
            Error::Value(error) => ErrorView::Value(*error),
        }
    }
}

/// Model of a fallible result: the model of the value or of the error.
pub open spec fn outcome<T: DeepView>(r: Result<T, Error>) -> Result<T::V, ErrorView> {
    match r {
        Ok(value) => Ok(value.deep_view()),
        Err(error) => Err(error.deep_view()),
    }
}

impl From<RowError> for Error {
    fn from(error: RowError) -> (r: Error) {
        Error::Row(error)
    }
}

impl FromSpecImpl<RowError> for Error {
    open spec fn obeys_from_spec() -> bool {
        true
    }

    open spec fn from_spec(error: RowError) -> Error {
        Error::Row(error)
    }
}

impl From<ValueError> for Error {
    fn from(error: ValueError) -> (r: Error) {
        Error::Value(error)
    }
}

impl FromSpecImpl<ValueError> for Error {
    open spec fn obeys_from_spec() -> bool {
        true
    }

    open spec fn from_spec(error: ValueError) -> Error {
        Error::Value(error)
    }
}

} // verus!
