use super::users::StoreFailure;
use crate::entities::user::UserView;
use vstd::prelude::*;

verus! {

/// The `users` table as mathematics: its rows by their identifiers. It
/// stands for a store that keeps its word and that nothing else writes to
/// meanwhile; the store itself is not part of this library.
pub struct UsersTable {
    pub rows: Map<i32, UserView>,
}

impl UsersTable {
    /// Every row carries the identifier that it is kept under.
    pub open spec fn well_formed(self) -> bool {
        forall|id: i32| self.rows.dom().contains(id) ==> (#[trigger] self.rows[id]).id == Some(id)
    }

    /// No two rows have one name.
    pub open spec fn names_are_unique(self) -> bool {
        forall|a: i32, b: i32|
            self.rows.dom().contains(a) && self.rows.dom().contains(b) && (
            #[trigger] self.rows[a]).username == (#[trigger] self.rows[b]).username ==> a == b
    }

    /// The row of `id` has the name `username`.
    pub open spec fn names(self, id: i32, username: Seq<char>) -> bool {
        self.rows.dom().contains(id) && self.rows[id].username == username
    }

    /// Some row has the name `username`.
    pub open spec fn has_name(self, username: Seq<char>) -> bool {
        exists|id: i32| self.names(id, username)
    }

    /// What `SELECT * FROM users WHERE username = $1` gives: a row of that
    /// name, or `RowNotFound` where there is none.
    pub open spec fn select_by_username(self, username: Seq<char>) -> Result<UserView, StoreFailure> {
        if self.has_name(username) {
            Ok(self.rows[choose|id: i32| self.names(id, username)])
        } else {
            Err(StoreFailure::RowNotFound)
        }
    }

    /// What `SELECT * FROM users WHERE id = $1` gives: the row of that
    /// identifier, or `RowNotFound` where there is none.
    pub open spec fn select_by_id(self, id: i32) -> Result<UserView, StoreFailure> {
        if self.rows.dom().contains(id) {
            Ok(self.rows[id])
        } else {
            Err(StoreFailure::RowNotFound)
        }
    }

    /// The row that the table keeps for `row` under the identifier `id`.
    pub open spec fn stored(id: i32, row: UserView) -> UserView {
        UserView {
            id: Some(id),
            username: row.username,
            password: row.password,
            created_at: row.created_at,
            updated_at: row.updated_at,
        }
    }

    /// The table after `INSERT INTO users ... RETURNING *` of `row`, where
    /// the store assigns it the identifier `id`. What the statement gives is
    /// the row as it is kept.
    pub open spec fn insert(self, id: i32, row: UserView) -> UsersTable {
        UsersTable { rows: self.rows.insert(id, Self::stored(id, row)) }
    }
}

} // verus!
