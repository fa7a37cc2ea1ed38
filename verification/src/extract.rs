//! Errors for request bodies and query strings that cannot be read, kept inside the error
//! catalogue rather than answered as plain text.

use vstd::prelude::*;

use crate::error::{details_view, ApiError, DetailEntry, DetailValueView};
use crate::error_codes::ErrorCode;

verus! {

broadcast use vstd::string::group_string_axioms;

/// The details `{"reason": reason}`.
pub open spec fn reason_details(reason: Seq<char>) -> Seq<(Seq<char>, DetailValueView)> {
    seq![("reason"@, DetailValueView::Text(reason))]
}

fn reason_detail(reason: &str) -> (details: Vec<DetailEntry>)
    ensures
        details_view(details@) == reason_details(reason@),
{
    let mut details: Vec<DetailEntry> = Vec::new();
    details.push(crate::error::text_entry("reason", reason));
    proof {
        assert(details_view(details@) =~= reason_details(reason@));
    }
    details
}

/// The error for a request body that cannot be read: well-formed JSON that does not fit the
/// expected shape is unprocessable; anything else is a validation error.
pub fn body_rejection_error(is_data_error: bool, reason: &str) -> (e: ApiError)
    ensures
        e.is_detailed(
            if is_data_error {
                ErrorCode::UnprocessableEntity
            } else {
                ErrorCode::ValidationError
            },
            "request body could not be read"@,
            reason_details(reason@),
        ),
{
    let code = if is_data_error {
        ErrorCode::UnprocessableEntity
    } else {
        ErrorCode::ValidationError
    };
    ApiError::with_details(
        code,
        String::from_str("request body could not be read"),
        reason_detail(reason),
    )
}

/// The error for a query string that cannot be read.
pub fn query_rejection_error(reason: &str) -> (e: ApiError)
    ensures
        e.is_detailed(
            ErrorCode::InvalidParameter,
            "query parameters could not be read"@,
            reason_details(reason@),
        ),
{
    ApiError::with_details(
        ErrorCode::InvalidParameter,
        String::from_str("query parameters could not be read"),
        reason_detail(reason),
    )
}

} // verus!
