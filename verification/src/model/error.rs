//! What goes wrong, and how it is reported to a caller.

use vstd::prelude::*;
use vstd::string::*;

verus! {

/// Why an operation was refused.
#[derive(Debug, PartialEq)]
pub enum ApiError {
    /// A fault of the store. The text is all that a caller is told.
    InternalError(String),
    /// The caller's input broke a rule; the text says which.
    InputFailedValidation(String),
    /// No route matches the path held here.
    PathNotFound(String),
}

/// An error as contracts speak of it.
pub enum ApiErrorView {
    InternalError(Seq<char>),
    InputFailedValidation(Seq<char>),
    PathNotFound(Seq<char>),
}

/// An error as it is reported: a status code and a reason.
#[derive(Debug, PartialEq)]
pub struct ErrorResponse {
    pub status: u16,
    pub reason: String,
}

impl View for ApiError {
    type V = ApiErrorView;

    open spec fn view(&self) -> ApiErrorView {
        match self {
            ApiError::InternalError(reason) => ApiErrorView::InternalError(reason@),
            ApiError::InputFailedValidation(reason) => ApiErrorView::InputFailedValidation(
                reason@,
            ),
            ApiError::PathNotFound(path) => ApiErrorView::PathNotFound(path@),
        }
    }
}

/// The one thing a caller is told of a fault of the store.
pub open spec fn internal_error() -> ApiErrorView {
    ApiErrorView::InternalError("Internal Error"@)
}

impl ApiErrorView {
    /// The status code that reports the error.
    pub open spec fn status(self) -> int {
        match self {
            ApiErrorView::InternalError(_) => 500,
            ApiErrorView::InputFailedValidation(_) => 400,
            ApiErrorView::PathNotFound(_) => 404,
        }
    }

    /// The reason that the caller is given.
    pub open spec fn reason(self) -> Seq<char> {
        match self {
            ApiErrorView::InternalError(reason) => reason,
            ApiErrorView::InputFailedValidation(reason) => reason,
            ApiErrorView::PathNotFound(path) => "Requested path '"@ + path + "' not found"@,
        }
    }
}

impl ApiError {
    /// The error for a fault of the store, which tells the caller nothing
    /// of the fault.
    pub fn internal() -> (error: ApiError)
        ensures
            error@ == internal_error(),
    {
        ApiError::InternalError(String::from_str("Internal Error"))
    }

    /// The status code and the reason that report this error.
    pub fn into_response(self) -> (response: ErrorResponse)
        ensures
            response.status == self@.status(),
            response.reason@ == self@.reason(),
    {
        match self {
            ApiError::InternalError(public_reason) => ErrorResponse {
                status: 500,
                reason: public_reason,
            },
            ApiError::InputFailedValidation(public_reason) => ErrorResponse {
                status: 400,
                reason: public_reason,
            },
            ApiError::PathNotFound(path) => {
                let mut public_reason = String::from_str("Requested path '");
                public_reason.append(path.as_str());
                public_reason.append("' not found");
                ErrorResponse { status: 404, reason: public_reason }
            },
        }
    }
}

} // verus!
