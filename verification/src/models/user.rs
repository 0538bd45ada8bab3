use super::error::{CustomError, ErrorResponse, ErrorResponseView, INTERNAL_SERVER_ERROR};
use crate::decimal::{append_decimal, decimal};
use vstd::prelude::*;

verus! {

/// HTTP status 201, with which a registered user is reported.
pub const CREATED: u16 = 201;

/// A request to register: the name to register under and the password in
/// plain text.
#[derive(Debug, Clone, PartialEq, Eq)]
pub struct UserRegistration {
    pub username: String,
    pub password: String,
}

/// The mathematical content of a [`UserRegistration`].
pub struct UserRegistrationView {
    pub username: Seq<char>,
    pub password: Seq<char>,
}

impl View for UserRegistration {
    type V = UserRegistrationView;

    open spec fn view(&self) -> UserRegistrationView {
        UserRegistrationView { username: self.username@, password: self.password@ }
    }
}

/// A registered user as callers see it: no password, no digest.
#[derive(Debug, Clone, PartialEq, Eq)]
pub struct User {
    pub id: i32,
    pub username: String,
}

/// The mathematical content of a [`User`].
pub struct UserView {
    pub id: i32,
    pub username: Seq<char>,
}

impl View for User {
    type V = UserView;

    open spec fn view(&self) -> UserView {
        UserView { id: self.id, username: self.username@ }
    }
}

/// Why a registration failed.
#[derive(Debug, Clone, PartialEq, Eq)]
pub enum Error {
    /// The row with this identifier could not be read back.
    NotFound(i32),
    /// The store did not take the new row.
    Inserting,
    /// The password could not be hashed.
    PasswordHashing,
    /// A user of this name is registered already.
    AlreadyExists(String),
}

/// The mathematical content of an [`Error`].
pub enum ErrorView {
    NotFound(i32),
    Inserting,
    PasswordHashing,
    AlreadyExists(Seq<char>),
}

impl View for Error {
    type V = ErrorView;

    open spec fn view(&self) -> ErrorView {
        match self {
            Error::NotFound(id) => ErrorView::NotFound(*id),
            Error::Inserting => ErrorView::Inserting,
            Error::PasswordHashing => ErrorView::PasswordHashing,
            Error::AlreadyExists(username) => ErrorView::AlreadyExists(username@),
        }
    }
}

impl ErrorView {
    /// The message that tells a human of this error.
    pub open spec fn message(self) -> Seq<char> {
        match self {
            ErrorView::NotFound(id) => "User not found: "@ + decimal(id as int),
            ErrorView::Inserting => "User creation failed"@,
            ErrorView::PasswordHashing => "Password hashing failed"@,
            ErrorView::AlreadyExists(username) => "Username already exists: "@ + username,
        }
    }

    /// What the caller is told of this error: its message, and status 500
    /// whatever the error is.
    pub open spec fn response(self) -> ErrorResponseView {
        ErrorResponseView { error: self.message(), status_code: 500 }
    }
}

impl CustomError for Error {
    open spec fn response(&self) -> ErrorResponseView {
        self@.response()
    }

    fn error(&self) -> (r: ErrorResponse) {
        match self {
            Error::NotFound(id) => {
                let mut error = String::from_str("User not found: ");
                append_decimal(&mut error, *id as i64);
                ErrorResponse { error, status_code: INTERNAL_SERVER_ERROR }
            },
            Error::Inserting => ErrorResponse {
                error: String::from_str("User creation failed"),
                status_code: INTERNAL_SERVER_ERROR,
            },
            Error::PasswordHashing => ErrorResponse {
                error: String::from_str("Password hashing failed"),
                status_code: INTERNAL_SERVER_ERROR,
            },
            Error::AlreadyExists(username) => {
                let mut error = String::from_str("Username already exists: ");
                error.append(username.as_str());
                ErrorResponse { error, status_code: INTERNAL_SERVER_ERROR }
            },
        }
    }
}

} // verus!
