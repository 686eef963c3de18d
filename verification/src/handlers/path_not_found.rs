//! The answer to a path that no route matches.

use vstd::prelude::*;

use crate::model::error::{ApiError, ApiErrorView};

verus! {

/// The error that reports `path` as not found.
pub fn handler_404(path: String) -> (error: ApiError)
    ensures
        error@ == ApiErrorView::PathNotFound(path@),
{
    ApiError::PathNotFound(path)
}

} // verus!
