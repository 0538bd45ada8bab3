use crate::models::error::{CustomError, ErrorResponse, ErrorResponseView};
use crate::models::user::{Error, ErrorView, User, UserView, CREATED};
use crate::views::result_view;
use vstd::prelude::*;

verus! {

/// What is sent for the outcome of a registration: the user, or what its
/// error says of itself.
pub open spec fn registration_answer(outcome: Result<UserView, ErrorView>) -> Result<
    UserView,
    ErrorResponseView,
> {
    match outcome {
        Ok(user) => Ok(user),
        Err(e) => Err(e.response()),
    }
}

/// The HTTP status with which an answer goes out: 201 with a user, and with
/// an error the status that it carries.
pub open spec fn answer_status(answer: Result<UserView, ErrorResponseView>) -> int {
    match answer {
        Ok(_) => 201,
        Err(response) => response.status_code,
    }
}

/// Decides what the caller is sent for the outcome of a registration: the
/// user as it is, or what the error says of itself.
pub fn registration(outcome: Result<User, Error>) -> (r: Result<User, ErrorResponse>)
    ensures
        result_view(r) == registration_answer(result_view(outcome)),
        r matches Err(response) ==> response.well_formed(),
{
    match outcome {
        Ok(user) => Ok(user),
        Err(e) => Err(e.error()),
    }
}

/// The HTTP status with which `answer` goes out.
pub fn registration_status(answer: &Result<User, ErrorResponse>) -> (status: u16)
    ensures
        status == answer_status(result_view(*answer)),
{
    match answer {
        Ok(_) => CREATED,
        Err(response) => response.status_code,
    }
}

/// A registered user is answered with 201, and a registration that failed
/// with 500, whatever its error.
pub proof fn lemma_registration_status(outcome: Result<UserView, ErrorView>)
    ensures
        answer_status(registration_answer(outcome)) == if outcome is Ok {
            201int
        } else {
            500int
        },
{
}

} // verus!
