use vstd::prelude::*;

verus! {

/// Errors that the rule functions report.
#[derive(Debug, Clone, PartialEq, Eq)]
pub enum Error {
    /// A value could not be read as the kind of value the function expects.
    ParseError(String),
}

/// Mathematical model of an [`Error`]: the variant and its message as characters.
pub enum ErrorModel {
    ParseError(Seq<char>),
}

impl View for Error {
    type V = ErrorModel;

    open spec fn view(&self) -> ErrorModel {
        match self {
            Error::ParseError(msg) => ErrorModel::ParseError(msg@),
        }
    }
}

} // verus!
