//! The errors that a call can end in.

use vstd::prelude::*;
use vstd::string::*;

verus! {

/// Why a call failed.
#[derive(Debug, Clone, PartialEq)]
pub enum SignalWireError {
    /// The request never reached the server, or no response arrived.
    HttpError(String),
    /// The server answered 401.
    Unauthorized,
    /// The server answered 404 for a resource addressed by its identifier.
    NotFound(String),
    /// Any other failure: an error status, or a body that could not be read or parsed.
    Unexpected(String),
}

/// A `SignalWireError` with its texts as sequences of characters.
pub enum ErrorView {
    HttpError(Seq<char>),
    Unauthorized,
    NotFound(Seq<char>),
    Unexpected(Seq<char>),
}

impl ErrorView {
    /// The text shown for the error.
    pub open spec fn message(self) -> Seq<char> {
        match self {
            ErrorView::HttpError(detail) => "HTTP request failed with status: "@ + detail,
            ErrorView::Unauthorized => "Unauthorized access"@,
            ErrorView::NotFound(detail) => "Resource not found: "@ + detail,
            ErrorView::Unexpected(detail) => "Unexpected error: "@ + detail,
        }
    }
}

impl View for SignalWireError {
    type V = ErrorView;

    open spec fn view(&self) -> ErrorView {
        match self {
            SignalWireError::HttpError(detail) => ErrorView::HttpError(detail@),
            SignalWireError::Unauthorized => ErrorView::Unauthorized,
            SignalWireError::NotFound(detail) => ErrorView::NotFound(detail@),
            SignalWireError::Unexpected(detail) => ErrorView::Unexpected(detail@),
        }
    }
}

impl SignalWireError {
    /// The text shown for the error.
    pub fn to_string(&self) -> (text: String)
        ensures
            text@ == self@.message(),
    {
        match self {
            SignalWireError::HttpError(detail) => String::from_str(
                "HTTP request failed with status: ",
            ).concat(detail.as_str()),
            SignalWireError::Unauthorized => String::from_str("Unauthorized access"),
            SignalWireError::NotFound(detail) => String::from_str("Resource not found: ").concat(
                detail.as_str(),
            ),
            SignalWireError::Unexpected(detail) => String::from_str("Unexpected error: ").concat(
                detail.as_str(),
            ),
        }
    }
}

} // verus!
