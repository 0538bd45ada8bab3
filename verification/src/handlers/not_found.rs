use crate::models::error::{ErrorResponse, ErrorResponseView, NOT_FOUND};
use vstd::prelude::*;

verus! {

/// What is sent for a request to a path that the service does not have.
pub open spec fn endpoint_not_found() -> ErrorResponseView {
    ErrorResponseView { error: "Endpoint not found"@, status_code: 404 }
}

/// The answer to a request that no route takes.
pub fn not_found() -> (r: ErrorResponse)
    ensures
        r@ == endpoint_not_found(),
        r.well_formed(),
{
    ErrorResponse { error: String::from_str("Endpoint not found"), status_code: NOT_FOUND }
}

} // verus!
