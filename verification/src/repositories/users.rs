use crate::entities::user::{User, UserView};
use crate::models::user::{Error, ErrorView};
use crate::views::result_view;
use vstd::prelude::*;

verus! {

/// The statement that stores a new row and hands it back. Its four
/// parameters are the name, the digest, and the instants of creation and of
/// the last update; the identifier is the store's to assign.
pub const INSERT_USER: &'static str =
    "INSERT INTO users (username, password, created_at, updated_at) VALUES ($1, $2, $3, $4) RETURNING *;";

/// The statement that reads the row of an identifier, its one parameter.
pub const SELECT_USER_BY_ID: &'static str = "SELECT * FROM users WHERE id = $1;";

/// The statement that reads the row of a name, its one parameter.
pub const SELECT_USER_BY_USERNAME: &'static str = "SELECT * FROM users WHERE username = $1;";

/// Why a statement that should give one row gave none.
#[derive(Debug, Clone, Copy, PartialEq, Eq, Structural)]
pub enum StoreFailure {
    /// The statement ran and no row matched.
    RowNotFound,
    /// Anything else: the store was not reached, refused the statement, or
    /// sent what could not be read.
    Other,
}

impl View for StoreFailure {
    type V = StoreFailure;

    open spec fn view(&self) -> StoreFailure {
        *self
    }
}

/// What inserting reports of what the insert statement gave: the identifier
/// of the row that came back, and `Inserting` where no row came back or the
/// row has no identifier.
pub open spec fn inserted(fetched: Result<UserView, StoreFailure>) -> Result<i32, ErrorView> {
    match fetched {
        Ok(row) => match row.id {
            Some(id) => Ok(id),
            None => Err(ErrorView::Inserting),
        },
        Err(_) => Err(ErrorView::Inserting),
    }
}

/// What selecting by identifier reports of what the select statement gave:
/// the row, and `NotFound` with the identifier where no row came back,
/// whatever the reason.
pub open spec fn selected_by_id(id: i32, fetched: Result<UserView, StoreFailure>) -> Result<
    UserView,
    ErrorView,
> {
    match fetched {
        Ok(row) => Ok(row),
        Err(_) => Err(ErrorView::NotFound(id)),
    }
}

/// Decides what inserting a user reports, from what the insert statement
/// gave.
pub fn inserting(fetched: Result<User, StoreFailure>) -> (r: Result<i32, Error>)
    ensures
        result_view(r) == inserted(result_view(fetched)),
{
    match fetched {
        Ok(user) => match user.id {
            Some(id) => Ok(id),
            None => Err(Error::Inserting),
        },
        Err(_) => Err(Error::Inserting),
    }
}

/// Decides what selecting the user of `id` reports, from what the select
/// statement gave.
pub fn selecting_by_id(id: i32, fetched: Result<User, StoreFailure>) -> (r: Result<User, Error>)
    ensures
        result_view(r) == selected_by_id(id, result_view(fetched)),
{
    match fetched {
        Ok(user) => Ok(user),
        Err(_) => Err(Error::NotFound(id)),
    }
}

} // verus!
