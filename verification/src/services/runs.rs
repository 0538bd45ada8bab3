use super::users::{ActionView, RegistrationView, ReplyView};
use crate::entities::timestamp::Timestamp;
use crate::entities::user::UserView as UserEntityView;
use crate::models::user::{ErrorView, UserRegistrationView, UserView};
use crate::repositories::hasing_password::{is_digest, lemma_digest_is_not_password, phc_prefix};
use crate::repositories::table::UsersTable;
use crate::repositories::users::{inserted, selected_by_id, StoreFailure};
use vstd::prelude::*;

verus! {

/// A run of a registration: the states that it passes through and the
/// replies that take it from each to the next.
pub open spec fn is_run(states: Seq<RegistrationView>, replies: Seq<ReplyView>) -> bool {
    &&& states.len() == replies.len() + 1
    &&& forall|i: int|
        0 <= i < replies.len() ==> states[i].steps_to(#[trigger] replies[i], states[i + 1])
}

/// A run of the registration of `user`, from its beginning.
pub open spec fn is_run_of(
    user: UserRegistrationView,
    is_auto_time_needed: bool,
    states: Seq<RegistrationView>,
    replies: Seq<ReplyView>,
) -> bool {
    is_run(states, replies) && states[0] == RegistrationView::start(user, is_auto_time_needed)
}

/// How far a registration has come: the place of its pending action in the
/// order in which a registration makes its calls.
pub open spec fn progress(action: ActionView) -> int {
    match action {
        ActionView::SelectByUsername(_) => 0,
        ActionView::Hash(_) => 1,
        ActionView::Insert(_) => 2,
        ActionView::SelectById(_) => 3,
        ActionView::Finish(_) => 4,
    }
}

/// A step keeps the request and the choice of the clock.
pub proof fn lemma_step_keeps_request(
    before: RegistrationView,
    reply: ReplyView,
    after: RegistrationView,
)
    requires
        before.steps_to(reply, after),
    ensures
        after.user == before.user,
        after.is_auto_time_needed == before.is_auto_time_needed,
{
}

/// A step keeps a registration well formed.
pub proof fn lemma_step_keeps_well_formed(
    before: RegistrationView,
    reply: ReplyView,
    after: RegistrationView,
)
    requires
        before.well_formed(),
        before.steps_to(reply, after),
    ensures
        after.well_formed(),
{
}

/// The calls of a registration come in one order and each at most once: a
/// step leaves the pending action as it is, or moves on to the call that
/// follows it, or ends the registration.
pub proof fn lemma_step_order(before: RegistrationView, reply: ReplyView, after: RegistrationView)
    requires
        before.steps_to(reply, after),
    ensures
        after.pending == before.pending || after.finished() || progress(after.pending) == progress(
            before.pending,
        ) + 1,
{
}

/// Nothing follows the end: a registration that is over stays as it is,
/// whatever reply it is given.
pub proof fn lemma_finish_is_final(
    before: RegistrationView,
    reply: ReplyView,
    after: RegistrationView,
)
    requires
        before.finished(),
        before.steps_to(reply, after),
    ensures
        after == before,
{
}

/// In a run, every state from one that is over onwards is that state.
pub proof fn lemma_run_stays_finished(
    states: Seq<RegistrationView>,
    replies: Seq<ReplyView>,
    from: int,
    at: int,
)
    requires
        is_run(states, replies),
        0 <= from <= at < states.len(),
        states[from].finished(),
    ensures
        states[at] == states[from],
    decreases at - from,
{
    if from < at {
        lemma_run_stays_finished(states, replies, from, at - 1);
        assert(states[at - 1].steps_to(replies[at - 1], states[at - 1 + 1]));
    }
}

/// Every state of a run of a registration, from its beginning, is well
/// formed.
pub proof fn lemma_run_is_well_formed(
    user: UserRegistrationView,
    is_auto_time_needed: bool,
    states: Seq<RegistrationView>,
    replies: Seq<ReplyView>,
    at: int,
)
    requires
        is_run_of(user, is_auto_time_needed, states, replies),
        0 <= at < states.len(),
    ensures
        states[at].well_formed(),
        states[at].user == user,
        states[at].is_auto_time_needed == is_auto_time_needed,
    decreases at,
{
    if 0 < at {
        lemma_run_is_well_formed(user, is_auto_time_needed, states, replies, at - 1);
        assert(states[at - 1].steps_to(replies[at - 1], states[at - 1 + 1]));
    }
}

/// A name that is taken is refused, and nothing is stored: where the store
/// answers the first call with a row of the name asked for, the registration
/// ends at once with `AlreadyExists` and that name, and in the whole run no
/// digest and no insert is ever asked for.
pub proof fn lemma_taken_name_is_refused(
    user: UserRegistrationView,
    is_auto_time_needed: bool,
    row: UserEntityView,
    states: Seq<RegistrationView>,
    replies: Seq<ReplyView>,
)
    requires
        is_run_of(user, is_auto_time_needed, states, replies),
        replies.len() >= 1,
        replies[0] == ReplyView::SelectedByUsername(Ok(row)),
        row.username == user.username,
    ensures
        forall|i: int|
            1 <= i < states.len() ==> (#[trigger] states[i]).pending == ActionView::Finish(
                Err(ErrorView::AlreadyExists(user.username)),
            ),
        forall|i: int|
            0 <= i < states.len() ==> !((#[trigger] states[i]).pending is Hash) && !(
            states[i].pending is Insert),
{
    assert(states[0].steps_to(replies[0], states[1]));
    assert forall|i: int| 1 <= i < states.len() implies (#[trigger] states[i]).pending
        == ActionView::Finish(Err(ErrorView::AlreadyExists(user.username))) by {
        lemma_run_stays_finished(states, replies, 1, i);
    }
}

/// A name that is free is registered: where the store finds no row of the
/// name, the password is hashed, the store takes the new row and assigns it
/// a positive identifier, and the row read back under that identifier
/// carries it and the name, the registration makes exactly these four calls
/// in this order and ends with the user of that identifier and that name.
pub proof fn lemma_free_name_is_registered(
    user: UserRegistrationView,
    is_auto_time_needed: bool,
    failure: StoreFailure,
    digest: Seq<char>,
    id: i32,
    row: UserEntityView,
    states: Seq<RegistrationView>,
    replies: Seq<ReplyView>,
)
    requires
        is_run_of(user, is_auto_time_needed, states, replies),
        replies == seq![
            ReplyView::SelectedByUsername(Err(failure)),
            ReplyView::Hashed(Ok(digest)),
            ReplyView::Inserted(Ok(id)),
            ReplyView::SelectedById(Ok(row)),
        ],
        id > 0,
        row.id == Some(id),
        row.username == user.username,
    ensures
        states[0].pending == ActionView::SelectByUsername(user.username),
        states[1].pending == ActionView::Hash(user.password),
        states[2].pending matches ActionView::Insert(new) && new.id is None && new.username
            == user.username && new.password == digest,
        states[3].pending == ActionView::SelectById(id),
        states[4].pending == ActionView::Finish(Ok(UserView { id, username: user.username })),
        states[4].pending matches ActionView::Finish(Ok(registered)) && registered.id > 0,
{
    assert(states[0].steps_to(replies[0], states[1]));
    assert(states[1].steps_to(replies[1], states[2]));
    assert(states[2].steps_to(replies[2], states[3]));
    assert(states[3].steps_to(replies[3], states[4]));
}

/// Without the clock, the row that is stored carries the Unix epoch: in a
/// run of a registration that does not ask for the time of the clock, every
/// row handed to the store has the epoch as its instant of creation and of
/// its last update, whatever the clock read during the run.
pub proof fn lemma_fixed_time_rows_carry_epoch(
    user: UserRegistrationView,
    states: Seq<RegistrationView>,
    replies: Seq<ReplyView>,
    at: int,
)
    requires
        is_run_of(user, false, states, replies),
        0 <= at < states.len(),
    ensures
        states[at].pending matches ActionView::Insert(row) ==> row.created_at
            == Timestamp::unix_epoch() && row.updated_at == Timestamp::unix_epoch(),
{
    lemma_run_is_well_formed(user, false, states, replies, at);
}

/// The row that is stored holds the digest, as the hashing provider gave
/// it, under the name of the request, and no identifier: in a run, a row
/// handed to the store has the request's name, and its password is the
/// digest of the reply that led to it.
pub proof fn lemma_stored_row_holds_digest(
    user: UserRegistrationView,
    is_auto_time_needed: bool,
    states: Seq<RegistrationView>,
    replies: Seq<ReplyView>,
    at: int,
)
    requires
        is_run_of(user, is_auto_time_needed, states, replies),
        0 <= at < replies.len(),
        states[at].pending is Hash,
        states[at + 1].pending is Insert,
    ensures
        replies[at] matches ReplyView::Hashed(Ok(digest)) && states[at + 1].pending
            matches ActionView::Insert(row) && row.id is None && row.username == user.username
            && row.password == digest,
{
    lemma_run_is_well_formed(user, is_auto_time_needed, states, replies, at);
    assert(states[at].steps_to(replies[at], states[at + 1]));
}

/// The plain text is not stored: where the hashing provider answers with the
/// Argon2id digest of the request's password under some salt, the row
/// handed to the store holds that digest and not the password, unless the
/// password itself begins as every digest does.
pub proof fn lemma_stored_password_is_not_plain(
    user: UserRegistrationView,
    is_auto_time_needed: bool,
    states: Seq<RegistrationView>,
    replies: Seq<ReplyView>,
    at: int,
    digest: Seq<char>,
    salt: Seq<char>,
)
    requires
        is_run_of(user, is_auto_time_needed, states, replies),
        0 <= at < replies.len(),
        states[at].pending is Hash,
        replies[at] == ReplyView::Hashed(Ok(digest)),
        is_digest(digest, user.password, salt),
        !phc_prefix().is_prefix_of(user.password),
    ensures
        states[at + 1].pending matches ActionView::Insert(row) && row.password == digest
            && row.password != user.password,
{
    lemma_run_is_well_formed(user, is_auto_time_needed, states, replies, at);
    assert(states[at].steps_to(replies[at], states[at + 1]));
    lemma_digest_is_not_password(digest, user.password, salt);
}

/// A failed insert ends the registration, and the row is never read back:
/// where the store refuses the new row with the error `e`, the registration
/// ends at once with `e`, and no later state of the run asks for
/// `SelectById`.
pub proof fn lemma_failed_insert_is_final(
    states: Seq<RegistrationView>,
    replies: Seq<ReplyView>,
    at: int,
    e: ErrorView,
    later: int,
)
    requires
        is_run(states, replies),
        0 <= at < replies.len(),
        states[at].pending is Insert,
        replies[at] == ReplyView::Inserted(Err(e)),
        at < later < states.len(),
    ensures
        states[later].pending == ActionView::Finish(Err(e)),
{
    assert(states[at].steps_to(replies[at], states[at + 1]));
    lemma_run_stays_finished(states, replies, at + 1, later);
}

/// An insert that gives no row, or a row without an identifier, ends the
/// registration with `Inserting`.
pub proof fn lemma_insert_without_identifier_is_inserting(
    before: RegistrationView,
    fetched: Result<UserEntityView, StoreFailure>,
    after: RegistrationView,
)
    requires
        before.pending is Insert,
        fetched matches Ok(row) ==> row.id is None,
        before.steps_to(ReplyView::Inserted(inserted(fetched)), after),
    ensures
        after.pending == ActionView::Finish(Err(ErrorView::Inserting)),
{
}

/// A row that cannot be read back ends the registration with `NotFound` and
/// the identifier that was asked for, which is the one that the store
/// assigned.
pub proof fn lemma_row_not_read_back_is_not_found(
    before: RegistrationView,
    id: i32,
    failure: StoreFailure,
    after: RegistrationView,
)
    requires
        before.pending == ActionView::SelectById(id),
        before.steps_to(ReplyView::SelectedById(selected_by_id(id, Err(failure))), after),
    ensures
        after.pending == ActionView::Finish(Err(ErrorView::NotFound(id))),
{
}

/// What the store answers to the call that `action` asks of it, where it
/// holds `table` and assigns `id` to a new row; `None` for an action that
/// asks nothing of the store.
pub open spec fn store_reply(table: UsersTable, action: ActionView, id: i32) -> Option<ReplyView> {
    match action {
        ActionView::SelectByUsername(username) => Some(
            ReplyView::SelectedByUsername(table.select_by_username(username)),
        ),
        ActionView::Insert(row) => Some(
            ReplyView::Inserted(inserted(Ok(UsersTable::stored(id, row)))),
        ),
        ActionView::SelectById(wanted) => Some(
            ReplyView::SelectedById(selected_by_id(wanted, table.select_by_id(wanted))),
        ),
        ActionView::Hash(_) => None,
        ActionView::Finish(_) => None,
    }
}

/// What the store holds after the call that `action` asks of it: one row
/// more after `Insert`, and what it held after any other.
pub open spec fn store_after(table: UsersTable, action: ActionView, id: i32) -> UsersTable {
    match action {
        ActionView::Insert(row) => table.insert(id, row),
        _ => table,
    }
}

/// A registration for a name that the table has is refused with
/// `AlreadyExists` and that name after its first call, which is a look for
/// the name and leaves the table as it is.
pub proof fn lemma_name_in_table_is_refused(
    table: UsersTable,
    user: UserRegistrationView,
    is_auto_time_needed: bool,
    id: i32,
    before: RegistrationView,
    after: RegistrationView,
)
    requires
        table.has_name(user.username),
        before == RegistrationView::start(user, is_auto_time_needed),
        store_reply(table, before.pending, id) matches Some(reply) && before.steps_to(reply, after),
    ensures
        after.pending == ActionView::Finish(Err(ErrorView::AlreadyExists(user.username))),
        store_after(table, before.pending, id) == table,
{
}

/// A registration for a name that the table lacks adds one row and gives
/// its user. Where the digest is `digest` and the store assigns the new row
/// the identifier `id`, positive and not in use, the registration looks for
/// the name, asks for the digest, stores the row and reads it back, and ends
/// with the user of `id` and the request's name; the table then holds the
/// row of that name and digest under `id` and is otherwise as it was, so
/// that names that were unique still are.
pub proof fn lemma_name_not_in_table_is_registered(
    table: UsersTable,
    user: UserRegistrationView,
    is_auto_time_needed: bool,
    digest: Seq<char>,
    id: i32,
    states: Seq<RegistrationView>,
    replies: Seq<ReplyView>,
)
    requires
        table.well_formed(),
        !table.has_name(user.username),
        id > 0,
        !table.rows.dom().contains(id),
        is_run_of(user, is_auto_time_needed, states, replies),
        replies.len() == 4,
        Some(replies[0]) == store_reply(table, states[0].pending, id),
        replies[1] == ReplyView::Hashed(Ok(digest)),
        Some(replies[2]) == store_reply(table, states[2].pending, id),
        Some(replies[3]) == store_reply(
            store_after(table, states[2].pending, id),
            states[3].pending,
            id,
        ),
    ensures
        states[0].pending == ActionView::SelectByUsername(user.username),
        states[1].pending == ActionView::Hash(user.password),
        states[2].pending matches ActionView::Insert(row) && row.username == user.username
            && row.password == digest && row.id is None,
        states[3].pending == ActionView::SelectById(id),
        states[4].pending == ActionView::Finish(Ok(UserView { id, username: user.username })),
        ({
            let stored = store_after(table, states[2].pending, id);
            &&& stored.well_formed()
            &&& stored.rows.dom() == table.rows.dom().insert(id)
            &&& stored.names(id, user.username)
            &&& stored.rows[id].password == digest
            &&& forall|other: i32|
                table.rows.dom().contains(other) ==> stored.rows[other] == table.rows[other]
            &&& table.names_are_unique() ==> stored.names_are_unique()
        }),
{
    assert(states[0].steps_to(replies[0], states[1]));
    assert(states[1].steps_to(replies[1], states[2]));
    assert(states[2].steps_to(replies[2], states[3]));
    assert(states[3].steps_to(replies[3], states[4]));
    let stored = store_after(table, states[2].pending, id);
    assert(stored.rows.dom() =~= table.rows.dom().insert(id));
    if table.names_are_unique() {
        assert forall|a: i32, b: i32|
            stored.rows.dom().contains(a) && stored.rows.dom().contains(b) && (
            #[trigger] stored.rows[a]).username == (#[trigger] stored.rows[b]).username implies a
            == b by {
            if a != id && b != id {
                assert(table.rows[a].username == table.rows[b].username);
            } else if a != id {
                assert(table.names(a, user.username));
            } else if b != id {
                assert(table.names(b, user.username));
            }
        }
    }
}

} // verus!
