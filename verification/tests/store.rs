use rust_backend_template::entities::timestamp::Timestamp;
use rust_backend_template::entities::user::User as UserEntity;
use rust_backend_template::models::user::{Error, User, UserRegistration};
use rust_backend_template::repositories::hasing_password::HashingPasswordImpl;
use rust_backend_template::repositories::users::{inserting, selecting_by_id, StoreFailure};
use rust_backend_template::services::users::{Action, Registration, Reply};

/// A table of users in memory, which assigns identifiers from 1 upwards.
struct Table {
    rows: Vec<UserEntity>,
    inserts: usize,
}

impl Table {
    fn new() -> Table {
        Table { rows: vec![], inserts: 0 }
    }

    fn select_by_username(&self, username: &str) -> Result<UserEntity, StoreFailure> {
        match self.rows.iter().find(|row| row.username == username) {
            Some(row) => Ok(row.clone()),
            None => Err(StoreFailure::RowNotFound),
        }
    }

    fn select_by_id(&self, id: i32) -> Result<UserEntity, StoreFailure> {
        match self.rows.iter().find(|row| row.id == Some(id)) {
            Some(row) => Ok(row.clone()),
            None => Err(StoreFailure::RowNotFound),
        }
    }

    fn insert(&mut self, user: &UserEntity) -> Result<UserEntity, StoreFailure> {
        self.inserts += 1;
        let row = UserEntity { id: Some(self.rows.len() as i32 + 1), ..user.clone() };
        self.rows.push(row.clone());
        Ok(row)
    }
}

fn register(table: &mut Table, username: &str, password: &str) -> Result<User, Error> {
    let req = UserRegistration { username: username.to_string(), password: password.to_string() };
    let mut registration = Registration::start(&req, false);
    loop {
        let reply = match registration.pending() {
            Action::SelectByUsername(username) => {
                Reply::SelectedByUsername(table.select_by_username(username))
            }
            Action::Hash(password) => {
                Reply::Hashed(HashingPasswordImpl::creation().hasing(password.clone()))
            }
            Action::Insert(user) => Reply::Inserted(inserting(table.insert(user))),
            Action::SelectById(id) => {
                Reply::SelectedById(selecting_by_id(*id, table.select_by_id(*id)))
            }
            Action::Finish(_) => break,
        };
        assert!(registration.accepts(&reply));
        registration = registration.step(reply);
    }
    registration.into_result().unwrap()
}

#[test]
fn free_name_is_registered_in_an_empty_table() {
    let mut table = Table::new();
    let user = register(&mut table, "test", "123456");
    assert_eq!(user, Ok(User { id: 1, username: "test".to_string() }));
    assert_eq!(table.inserts, 1);
    assert_eq!(table.rows.len(), 1);
    assert_eq!(table.rows[0].id, Some(1));
    assert_eq!(table.rows[0].username, "test");
    assert_ne!(table.rows[0].password, "123456");
    assert!(table.rows[0].password.starts_with("$argon2id$v=19$m=19456,t=2,p=1$"));
    assert_eq!(table.rows[0].created_at, Timestamp { secs: 0, nanos: 0 });
    assert_eq!(table.rows[0].updated_at, Timestamp { secs: 0, nanos: 0 });
}

#[test]
fn taken_name_is_refused_and_the_table_stays_as_it_is() {
    let mut table = Table::new();
    assert_eq!(
        register(&mut table, "test", "123456"),
        Ok(User { id: 1, username: "test".to_string() })
    );
    let before = table.rows.clone();
    assert_eq!(
        register(&mut table, "test", "another"),
        Err(Error::AlreadyExists("test".to_string()))
    );
    assert_eq!(table.inserts, 1);
    assert_eq!(table.rows, before);
}

#[test]
fn names_stay_unique_and_identifiers_positive() {
    let mut table = Table::new();
    let names = ["ann", "bob", "ann", "cid", "bob", "ann", "dee"];
    let mut registered = 0;
    for name in names {
        match register(&mut table, name, "123456") {
            Ok(user) => {
                registered += 1;
                assert_eq!(user.username, name);
                assert_eq!(user.id, registered);
                assert!(user.id > 0);
            }
            Err(e) => assert_eq!(e, Error::AlreadyExists(name.to_string())),
        }
    }
    assert_eq!(registered, 4);
    assert_eq!(table.rows.len(), 4);
    for (i, a) in table.rows.iter().enumerate() {
        for b in &table.rows[i + 1..] {
            assert_ne!(a.username, b.username);
            assert_ne!(a.id, b.id);
        }
    }
    let digests: Vec<&String> = table.rows.iter().map(|row| &row.password).collect();
    assert_ne!(digests[0], digests[1]);
    assert_ne!(digests[1], digests[2]);
    assert_ne!(digests[2], digests[3]);
}
