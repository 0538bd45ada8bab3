use super::timestamp::Timestamp;
use crate::models;
use vstd::prelude::*;

verus! {

/// A row of the `users` table. `id` is absent until the store has assigned
/// one; `password` holds the digest, never the plain text.
#[derive(Debug, Clone, PartialEq)]
pub struct User {
    pub id: Option<i32>,
    pub username: String,
    pub password: String,
    pub created_at: Timestamp,
    pub updated_at: Timestamp,
}

/// The mathematical content of a [`User`] row.
pub struct UserView {
    pub id: Option<i32>,
    pub username: Seq<char>,
    pub password: Seq<char>,
    pub created_at: Timestamp,
    pub updated_at: Timestamp,
}

impl View for User {
    type V = UserView;

    open spec fn view(&self) -> UserView {
        UserView {
            id: self.id,
            username: self.username@,
            password: self.password@,
            created_at: self.created_at,
            updated_at: self.updated_at,
        }
    }
}

impl UserView {
    /// The row that is handed to the store for a new user: no identifier
    /// yet, and the two instants as given.
    pub open spec fn fresh(
        username: Seq<char>,
        password: Seq<char>,
        created_at: Timestamp,
        updated_at: Timestamp,
    ) -> UserView {
        UserView { id: None, username, password, created_at, updated_at }
    }

    /// What callers are shown of a row that has its identifier.
    pub open spec fn model(self) -> models::user::UserView
        recommends
            self.id is Some,
    {
        models::user::UserView { id: self.id->0, username: self.username }
    }
}

impl User {
    /// A row for a new user, not stored yet, with the two instants as
    /// given.
    pub fn with_instants(
        username: String,
        password: String,
        created_at: Timestamp,
        updated_at: Timestamp,
    ) -> (user: User)
        ensures
            user@ == UserView::fresh(username@, password@, created_at, updated_at),
    {
        User { id: None, username, password, created_at, updated_at }
    }

    /// A row for a new user, not stored yet. With `is_auto_time` both
    /// instants are read from the system clock, first that of creation and
    /// then that of the last update; without it both are the Unix epoch,
    /// whatever the clock says.
    pub fn new(username: String, password: String, is_auto_time: bool) -> (user: User)
        ensures
            user@ == UserView::fresh(username@, password@, user.created_at, user.updated_at),
            is_auto_time ==> user.created_at.is_clock_reading()
                && user.updated_at.is_clock_reading(),
            !is_auto_time ==> user.created_at == Timestamp::unix_epoch() && user.updated_at
                == Timestamp::unix_epoch(),
    {
        let created_at = if is_auto_time {
            Timestamp::now()
        } else {
            Timestamp::epoch()
        };
        let updated_at = if is_auto_time {
            Timestamp::now()
        } else {
            Timestamp::epoch()
        };
        User::with_instants(username, password, created_at, updated_at)
    }

    /// What callers are shown of this row: its identifier and its name. The
    /// row must have its identifier.
    pub fn to_model(&self) -> (model: models::user::User)
        requires
            self.id is Some,
        ensures
            model@ == self@.model(),
    {
        models::user::User { id: self.id.unwrap(), username: self.username.clone() }
    }
}

} // verus!
