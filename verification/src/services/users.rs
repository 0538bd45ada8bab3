use crate::entities::timestamp::Timestamp;
use crate::entities::user::{User as UserEntity, UserView as UserEntityView};
use crate::models::hasing_password::Error as HashingError;
use crate::models::user::{Error, ErrorView, User, UserRegistration, UserRegistrationView, UserView};
use crate::repositories::users::StoreFailure;
use crate::views::result_view;
use vstd::prelude::*;

verus! {

/// What a registration asks of its surroundings next. The first four are
/// calls to make, on the user store or on the hashing provider; the last
/// says that the registration is over, and how it ended.
#[derive(Debug, PartialEq)]
pub enum Action {
    /// Look for the row of this name in the store.
    SelectByUsername(String),
    /// Hash this password.
    Hash(String),
    /// Store this row.
    Insert(UserEntity),
    /// Read the row of this identifier back from the store.
    SelectById(i32),
    /// Nothing more: this is the outcome.
    Finish(Result<User, Error>),
}

/// The mathematical content of an [`Action`].
pub enum ActionView {
    SelectByUsername(Seq<char>),
    Hash(Seq<char>),
    Insert(UserEntityView),
    SelectById(i32),
    Finish(Result<UserView, ErrorView>),
}

impl View for Action {
    type V = ActionView;

    open spec fn view(&self) -> ActionView {
        match self {
            Action::SelectByUsername(username) => ActionView::SelectByUsername(username@),
            Action::Hash(password) => ActionView::Hash(password@),
            Action::Insert(user) => ActionView::Insert(user@),
            Action::SelectById(id) => ActionView::SelectById(*id),
            Action::Finish(result) => ActionView::Finish(result_view(*result)),
        }
    }
}

/// What came of the call that an [`Action`] asked for.
#[derive(Debug, PartialEq)]
pub enum Reply {
    /// The store's answer to `SelectByUsername`.
    SelectedByUsername(Result<UserEntity, StoreFailure>),
    /// The hashing provider's answer to `Hash`.
    Hashed(Result<String, HashingError>),
    /// The store's answer to `Insert`: the identifier that it assigned.
    Inserted(Result<i32, Error>),
    /// The store's answer to `SelectById`.
    SelectedById(Result<UserEntity, Error>),
}

/// The mathematical content of a [`Reply`].
pub enum ReplyView {
    SelectedByUsername(Result<UserEntityView, StoreFailure>),
    Hashed(Result<Seq<char>, HashingError>),
    Inserted(Result<i32, ErrorView>),
    SelectedById(Result<UserEntityView, ErrorView>),
}

impl View for Reply {
    type V = ReplyView;

    open spec fn view(&self) -> ReplyView {
        match self {
            Reply::SelectedByUsername(found) => ReplyView::SelectedByUsername(result_view(*found)),
            Reply::Hashed(hashed) => ReplyView::Hashed(result_view(*hashed)),
            Reply::Inserted(inserted) => ReplyView::Inserted(result_view(*inserted)),
            Reply::SelectedById(fetched) => ReplyView::SelectedById(result_view(*fetched)),
        }
    }
}

/// One registration under way: the request, whether the new row is stamped
/// with the time of the clock, and the action that is waited for.
#[derive(Debug, PartialEq)]
pub struct Registration {
    user: UserRegistration,
    is_auto_time_needed: bool,
    pending: Action,
}

/// The mathematical content of a [`Registration`].
pub struct RegistrationView {
    pub user: UserRegistrationView,
    pub is_auto_time_needed: bool,
    pub pending: ActionView,
}

impl View for Registration {
    type V = RegistrationView;

    closed spec fn view(&self) -> RegistrationView {
        RegistrationView {
            user: self.user@,
            is_auto_time_needed: self.is_auto_time_needed,
            pending: self.pending@,
        }
    }
}

impl RegistrationView {
    /// A registration at its beginning: it asks whether the name is taken.
    pub open spec fn start(user: UserRegistrationView, is_auto_time_needed: bool) -> RegistrationView {
        RegistrationView {
            user,
            is_auto_time_needed,
            pending: ActionView::SelectByUsername(user.username),
        }
    }

    /// The row that is stored for this registration once its password has
    /// been hashed to `digest`. It is stamped with the two instants read from
    /// the clock where the registration asks for that, and with the Unix
    /// epoch twice where it does not.
    pub open spec fn new_row(self, digest: Seq<char>, created_at: Timestamp, updated_at: Timestamp)
        -> UserEntityView {
        if self.is_auto_time_needed {
            UserEntityView::fresh(self.user.username, digest, created_at, updated_at)
        } else {
            UserEntityView::fresh(
                self.user.username,
                digest,
                Timestamp::unix_epoch(),
                Timestamp::unix_epoch(),
            )
        }
    }

    /// The action that follows the pending one on `reply`, where the clock
    /// reads `created_at` and then `updated_at`.
    ///
    /// - A row found under the name ends the registration with
    ///   `AlreadyExists` and the row's name. Any failure to find one, of
    ///   whatever kind, counts as "the name is free": the password is hashed
    ///   next.
    /// - A digest is stored next, in a new row; a failure to hash ends the
    ///   registration with `PasswordHashing`.
    /// - An identifier is read back next; a failure to insert ends the
    ///   registration with the store's error.
    /// - The row read back ends the registration with what callers are shown
    ///   of it; a failure to read it ends the registration with the store's
    ///   error.
    /// - A reply to a call that is not the pending one changes nothing, and
    ///   nothing follows `Finish`.
    pub open spec fn next_action(
        self,
        reply: ReplyView,
        created_at: Timestamp,
        updated_at: Timestamp,
    ) -> ActionView {
        match self.pending {
            ActionView::SelectByUsername(_) => match reply {
                ReplyView::SelectedByUsername(Ok(row)) => ActionView::Finish(
                    Err(ErrorView::AlreadyExists(row.username)),
                ),
                ReplyView::SelectedByUsername(Err(_)) => ActionView::Hash(self.user.password),
                _ => self.pending,
            },
            ActionView::Hash(_) => match reply {
                ReplyView::Hashed(Ok(digest)) => ActionView::Insert(
                    self.new_row(digest, created_at, updated_at),
                ),
                ReplyView::Hashed(Err(_)) => ActionView::Finish(Err(ErrorView::PasswordHashing)),
                _ => self.pending,
            },
            ActionView::Insert(_) => match reply {
                ReplyView::Inserted(Ok(id)) => ActionView::SelectById(id),
                ReplyView::Inserted(Err(e)) => ActionView::Finish(Err(e)),
                _ => self.pending,
            },
            ActionView::SelectById(_) => match reply {
                ReplyView::SelectedById(Ok(row)) => ActionView::Finish(Ok(row.model())),
                ReplyView::SelectedById(Err(e)) => ActionView::Finish(Err(e)),
                _ => self.pending,
            },
            ActionView::Finish(_) => self.pending,
        }
    }

    /// The registration after `reply`, where the clock reads `created_at`
    /// and then `updated_at`: the same request with the next action pending.
    pub open spec fn next(self, reply: ReplyView, created_at: Timestamp, updated_at: Timestamp)
        -> RegistrationView {
        RegistrationView {
            user: self.user,
            is_auto_time_needed: self.is_auto_time_needed,
            pending: self.next_action(reply, created_at, updated_at),
        }
    }

    /// `reply` can take this registration to `after`: there are readings of
    /// the clock with which it does.
    pub open spec fn steps_to(self, reply: ReplyView, after: RegistrationView) -> bool {
        exists|created_at: Timestamp, updated_at: Timestamp|
            created_at.is_clock_reading() && updated_at.is_clock_reading() && after
                == #[trigger] self.next(reply, created_at, updated_at)
    }

    /// `reply` is one that this registration can take. The one reply that it
    /// cannot is a row without an identifier in answer to `SelectById`: what
    /// callers are shown of a row includes its identifier.
    pub open spec fn accepts(self, reply: ReplyView) -> bool {
        self.pending is SelectById ==> (reply matches ReplyView::SelectedById(Ok(row))
            ==> row.id is Some)
    }

    /// The registration is over.
    pub open spec fn finished(self) -> bool {
        self.pending is Finish
    }

    /// What holds of every registration, from its beginning to its end: a
    /// pending call is made with what the request holds. The name looked for
    /// is the request's name, the password to hash is the request's
    /// password, and the row to store has the request's name, no identifier
    /// and, as its two instants, readings of the clock where the
    /// registration asks for the time of the clock, and the Unix epoch where
    /// it does not.
    pub open spec fn well_formed(self) -> bool {
        match self.pending {
            ActionView::SelectByUsername(username) => username == self.user.username,
            ActionView::Hash(password) => password == self.user.password,
            ActionView::Insert(row) => {
                &&& row.id is None
                &&& row.username == self.user.username
                &&& self.is_auto_time_needed ==> row.created_at.is_clock_reading()
                    && row.updated_at.is_clock_reading()
                &&& !self.is_auto_time_needed ==> row.created_at == Timestamp::unix_epoch()
                    && row.updated_at == Timestamp::unix_epoch()
            },
            ActionView::SelectById(_) => true,
            ActionView::Finish(_) => true,
        }
    }
}

impl Registration {
    #[verifier::type_invariant]
    spec fn inv(self) -> bool {
        self@.well_formed()
    }

    /// Begins the registration of `user`. With `is_auto_time_needed` the new
    /// row will carry the time of the clock, without it the Unix epoch.
    pub fn start(user: &UserRegistration, is_auto_time_needed: bool) -> (r: Registration)
        ensures
            r@ == RegistrationView::start(user@, is_auto_time_needed),
    {
        Registration {
            user: UserRegistration {
                username: user.username.clone(),
                password: user.password.clone(),
            },
            is_auto_time_needed,
            pending: Action::SelectByUsername(user.username.clone()),
        }
    }

    /// The action that this registration waits for.
    pub fn pending(&self) -> (action: &Action)
        ensures
            action@ == self@.pending,
            self@.well_formed(),
    {
        proof {
            use_type_invariant(self);
        }
        &self.pending
    }

    /// Whether the registration is over.
    pub fn finished(&self) -> (b: bool)
        ensures
            b == self@.finished(),
    {
        match &self.pending {
            Action::Finish(_) => true,
            _ => false,
        }
    }

    /// Whether `reply` is one that this registration can take.
    pub fn accepts(&self, reply: &Reply) -> (b: bool)
        ensures
            b == self@.accepts(reply@),
    {
        match &self.pending {
            Action::SelectById(_) => match reply {
                Reply::SelectedById(Ok(row)) => row.id.is_some(),
                _ => true,
            },
            _ => true,
        }
    }

    /// Takes the reply to the pending action and decides what comes next.
    pub fn step(self, reply: Reply) -> (r: Registration)
        requires
            self@.accepts(reply@),
        ensures
            self@.steps_to(reply@, r@),
            !self@.is_auto_time_needed ==> r@ == self@.next(
                reply@,
                Timestamp::unix_epoch(),
                Timestamp::unix_epoch(),
            ),
            r@.well_formed(),
    {
        proof {
            use_type_invariant(&self);
        }
        let ghost before = self@;
        let Registration { user, is_auto_time_needed, pending } = self;
        let ghost mut created_at = Timestamp::unix_epoch();
        let ghost mut updated_at = Timestamp::unix_epoch();
        let pending = match pending {
            Action::SelectByUsername(username) => match reply {
                Reply::SelectedByUsername(Ok(row)) => Action::Finish(
                    Err(Error::AlreadyExists(row.username)),
                ),
                Reply::SelectedByUsername(Err(_)) => Action::Hash(user.password.clone()),
                _ => Action::SelectByUsername(username),
            },
            Action::Hash(password) => match reply {
                Reply::Hashed(Ok(digest)) => {
                    let row = UserEntity::new(user.username.clone(), digest, is_auto_time_needed);
                    proof {
                        created_at = row.created_at;
                        updated_at = row.updated_at;
                    }
                    Action::Insert(row)
                },
                Reply::Hashed(Err(_)) => Action::Finish(Err(Error::PasswordHashing)),
                _ => Action::Hash(password),
            },
            Action::Insert(row) => match reply {
                Reply::Inserted(Ok(id)) => Action::SelectById(id),
                Reply::Inserted(Err(e)) => Action::Finish(Err(e)),
                _ => Action::Insert(row),
            },
            Action::SelectById(id) => match reply {
                Reply::SelectedById(Ok(row)) => Action::Finish(Ok(row.to_model())),
                Reply::SelectedById(Err(e)) => Action::Finish(Err(e)),
                _ => Action::SelectById(id),
            },
            Action::Finish(result) => Action::Finish(result),
        };
        let r = Registration { user, is_auto_time_needed, pending };
        assert(created_at.is_clock_reading() && updated_at.is_clock_reading() && r@
            == before.next(reply@, created_at, updated_at));
        r
    }

    /// The outcome of the registration, once it is over.
    pub fn into_result(self) -> (r: Option<Result<User, Error>>)
        ensures
            match r {
                Some(result) => self@.pending == ActionView::Finish(result_view(result)),
                None => !self@.finished(),
            },
    {
        match self.pending {
            Action::Finish(result) => Some(result),
            _ => None,
        }
    }
}

} // verus!
