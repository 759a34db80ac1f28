//! Errors of the command line's own making.

use vstd::prelude::*;
use vstd::string::StringExecFns;

verus! {

/// An error that the toolkit reports about what it was asked to do.
#[derive(Debug, Clone)]
pub enum OTKError {
    /// An argument does not have the form it should have.
    ParseError(String),
    /// What was asked for is not supported.
    UnimplementedError(String),
    /// Arguments that do not go together, or a value that cannot be used.
    InvalidArgumentError(String),
}

/// The value of an [`OTKError`].
pub enum OTKFault {
    ParseError(Seq<char>),
    UnimplementedError(Seq<char>),
    InvalidArgumentError(Seq<char>),
}

impl View for OTKError {
    type V = OTKFault;

    open spec fn view(&self) -> OTKFault {
        match self {
            OTKError::ParseError(detail) => OTKFault::ParseError(detail@),
            OTKError::UnimplementedError(detail) => OTKFault::UnimplementedError(detail@),
            OTKError::InvalidArgumentError(detail) => OTKFault::InvalidArgumentError(detail@),
        }
    }
}

impl OTKFault {
    /// The words that report the fault: its kind, then its detail.
    pub open spec fn text(self) -> Seq<char> {
        match self {
            OTKFault::ParseError(detail) => "Parsing Error: "@ + detail,
            OTKFault::UnimplementedError(detail) => "Unimplemented: "@ + detail,
            OTKFault::InvalidArgumentError(detail) => "Invalid argument: "@ + detail,
        }
    }
}

impl OTKError {
    /// The words that report the error.
    pub fn message(&self) -> (text: String)
        ensures
            text@ == self@.text(),
    {
        match self {
            OTKError::ParseError(detail) => String::from_str("Parsing Error: ").concat(
                detail.as_str(),
            ),
            OTKError::UnimplementedError(detail) => String::from_str("Unimplemented: ").concat(
                detail.as_str(),
            ),
            OTKError::InvalidArgumentError(detail) => String::from_str(
                "Invalid argument: ",
            ).concat(detail.as_str()),
        }
    }
}

} // verus!
