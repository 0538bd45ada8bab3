use chrono::TimeZone;
use rust_backend_template::entities::timestamp::Timestamp;
use rust_backend_template::entities::user::User as UserEntity;
use rust_backend_template::models::user::User;

#[test]
fn epoch_is_second_zero() {
    assert_eq!(Timestamp::epoch(), Timestamp { secs: 0, nanos: 0 });
}

#[test]
fn epoch_is_midnight_of_the_first_day_of_1970() {
    let t = chrono::Utc.with_ymd_and_hms(1970, 1, 1, 0, 0, 0).unwrap();
    let epoch = Timestamp::epoch();
    assert_eq!(epoch.secs, t.timestamp());
    assert_eq!(epoch.nanos, t.timestamp_subsec_nanos());
    let back = chrono::DateTime::from_timestamp(epoch.secs, epoch.nanos).unwrap();
    assert_eq!(back.naive_utc(), t.naive_utc());
    assert_eq!(back.to_rfc3339(), "1970-01-01T00:00:00+00:00");
}

#[test]
fn now_is_the_time_of_the_clock() {
    let before = chrono::Utc::now();
    let now = Timestamp::now();
    let after = chrono::Utc::now();
    let read = chrono::DateTime::from_timestamp(now.secs, now.nanos).unwrap();
    assert!(before <= read && read <= after);
    assert!(now.secs > 1_600_000_000);
    assert!(now.nanos < 1_000_000_000);
}

#[test]
fn new_row_without_clock_carries_the_epoch() {
    let user = UserEntity::new("test".to_string(), "xxxxx".to_string(), false);
    assert_eq!(
        user,
        UserEntity {
            id: None,
            username: "test".to_string(),
            password: "xxxxx".to_string(),
            created_at: Timestamp { secs: 0, nanos: 0 },
            updated_at: Timestamp { secs: 0, nanos: 0 },
        }
    );
}

#[test]
fn new_row_with_clock_carries_the_time() {
    let before = chrono::Utc::now();
    let user = UserEntity::new("test".to_string(), "xxxxx".to_string(), true);
    let after = chrono::Utc::now();
    assert_eq!(user.id, None);
    assert_eq!(user.username, "test");
    assert_eq!(user.password, "xxxxx");
    let created =
        chrono::DateTime::from_timestamp(user.created_at.secs, user.created_at.nanos).unwrap();
    let updated =
        chrono::DateTime::from_timestamp(user.updated_at.secs, user.updated_at.nanos).unwrap();
    assert!(before <= created && created <= updated && updated <= after);
}

#[test]
fn model_shows_identifier_and_name() {
    let user = UserEntity {
        id: Some(1),
        username: "test".to_string(),
        password: "xxxxx".to_string(),
        created_at: Timestamp { secs: 0, nanos: 0 },
        updated_at: Timestamp { secs: 3, nanos: 4 },
    };
    assert_eq!(user.to_model(), User { id: 1, username: "test".to_string() });
    let other = UserEntity { id: Some(-9), username: String::new(), ..user };
    assert_eq!(other.to_model(), User { id: -9, username: String::new() });
}

#[test]
fn row_with_given_instants_carries_them() {
    let created_at = Timestamp { secs: 1_700_000_000, nanos: 5 };
    let updated_at = Timestamp { secs: 1_700_000_001, nanos: 999_999_999 };
    let user =
        UserEntity::with_instants("test".to_string(), "xxxxx".to_string(), created_at, updated_at);
    assert_eq!(
        user,
        UserEntity {
            id: None,
            username: "test".to_string(),
            password: "xxxxx".to_string(),
            created_at,
            updated_at,
        }
    );
}

#[test]
fn new_row_with_clock_reads_within_a_second() {
    let user = UserEntity::new("test".to_string(), "xxxxx".to_string(), true);
    assert!(user.created_at.nanos < 1_000_000_000);
    assert!(user.updated_at.nanos < 1_000_000_000);
}
