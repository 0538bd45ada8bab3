use vstd::prelude::*;

verus! {

/// HTTP status 404.
pub const NOT_FOUND: u16 = 404;

/// HTTP status 500.
pub const INTERNAL_SERVER_ERROR: u16 = 500;

/// What a caller is told when a request fails: a message for a human and the
/// HTTP status that classifies the failure.
#[derive(Debug, Clone, PartialEq, Eq)]
pub struct ErrorResponse {
    pub error: String,
    pub status_code: u16,
}

/// The mathematical content of an [`ErrorResponse`].
pub struct ErrorResponseView {
    pub error: Seq<char>,
    pub status_code: int,
}

impl View for ErrorResponse {
    type V = ErrorResponseView;

    open spec fn view(&self) -> ErrorResponseView {
        ErrorResponseView { error: self.error@, status_code: self.status_code as int }
    }
}

impl ErrorResponse {
    /// The status is one that HTTP can carry: three decimal digits.
    pub open spec fn well_formed(&self) -> bool {
        100 <= self.status_code <= 999
    }
}

/// An error that knows how to present itself to the caller.
pub trait CustomError {
    /// What the caller is told of this error.
    spec fn response(&self) -> ErrorResponseView;

    /// Presents this error to the caller.
    fn error(&self) -> (r: ErrorResponse)
        ensures
            r@ == self.response(),
            r.well_formed(),
    ;
}

} // verus!
