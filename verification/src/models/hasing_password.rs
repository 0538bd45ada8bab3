use super::error::{CustomError, ErrorResponse, ErrorResponseView, INTERNAL_SERVER_ERROR};
use vstd::prelude::*;

verus! {

/// Why a password could not be hashed.
#[derive(Debug, Clone, Copy, PartialEq, Eq)]
pub enum Error {
    PasswordHashing,
}

impl View for Error {
    type V = Error;

    open spec fn view(&self) -> Error {
        *self
    }
}

impl CustomError for Error {
    /// The one message that there is, and status 500.
    open spec fn response(&self) -> ErrorResponseView {
        ErrorResponseView { error: "Password hashing failed"@, status_code: 500 }
    }

    fn error(&self) -> (r: ErrorResponse) {
        match self {
            Error::PasswordHashing => ErrorResponse {
                error: String::from_str("Password hashing failed"),
                status_code: INTERNAL_SERVER_ERROR,
            },
        }
    }
}

} // verus!
