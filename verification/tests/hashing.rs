use argon2::password_hash::{PasswordHash, PasswordHasher, PasswordVerifier, SaltString};
use argon2::Argon2;
use rust_backend_template::models::hasing_password::Error;
use rust_backend_template::repositories::hasing_password::HashingPasswordImpl;

const PREFIX: &str = "$argon2id$v=19$m=19456,t=2,p=1$";
const SALT: &str = "c29tZXNhbHQxMjM0NTY3OA";

fn verifies(password: &str, digest: &str) -> bool {
    let parsed = PasswordHash::new(digest).unwrap();
    Argon2::default().verify_password(password.as_bytes(), &parsed).is_ok()
}

#[test]
fn digest_is_a_phc_string_that_verifies() {
    let digest = HashingPasswordImpl::creation().hasing("123456".to_string()).unwrap();
    assert!(digest.starts_with(PREFIX));
    let fields: Vec<&str> = digest.split('$').collect();
    assert_eq!(fields.len(), 6);
    assert_eq!(fields[0], "");
    assert_eq!(fields[1], "argon2id");
    assert_eq!(fields[2], "v=19");
    assert_eq!(fields[3], "m=19456,t=2,p=1");
    assert_eq!(fields[4].len(), 22);
    assert_eq!(fields[5].len(), 43);
    assert!(verifies("123456", &digest));
    assert!(!verifies("1234567", &digest));
}

#[test]
fn digest_is_not_the_password() {
    let digest = HashingPasswordImpl::creation().hasing("123456".to_string()).unwrap();
    assert_ne!(digest, "123456");
    let again = HashingPasswordImpl::creation().hasing(digest.clone()).unwrap();
    assert_ne!(again, digest);
}

#[test]
fn same_password_twice_gives_two_digests() {
    let hasher = HashingPasswordImpl::creation();
    let first = hasher.hasing("123456".to_string()).unwrap();
    let second = hasher.hasing("123456".to_string()).unwrap();
    assert_ne!(first, second);
    assert!(verifies("123456", &first));
    assert!(verifies("123456", &second));
}

#[test]
fn digest_under_a_given_salt_is_what_argon2_computes() {
    let hasher = HashingPasswordImpl::creation();
    let digest = hasher.hasing_with_salt("123456", SALT).unwrap();

    let salt = SaltString::from_b64(SALT).unwrap();
    let expected = Argon2::default().hash_password(b"123456", &salt).unwrap().to_string();
    assert_eq!(digest, expected);

    assert!(digest.starts_with(&format!("{}{}$", PREFIX, SALT)));
    assert_eq!(digest.len(), PREFIX.len() + SALT.len() + 1 + 43);
    assert_ne!(digest, "123456");
    assert_ne!(digest, SALT);
    assert!(verifies("123456", &digest));
}

#[test]
fn digest_depends_on_password_and_salt_alone() {
    let hasher = HashingPasswordImpl::creation();
    let first = hasher.hasing_with_salt("123456", SALT).unwrap();
    let second = hasher.hasing_with_salt("123456", SALT).unwrap();
    assert_eq!(first, second);

    let other_password = hasher.hasing_with_salt("1234567", SALT).unwrap();
    assert_ne!(first, other_password);

    let other_salt = hasher.hasing_with_salt("123456", "YW5vdGhlcnNhbHQxMjM0NQ").unwrap();
    assert_ne!(first, other_salt);
    assert!(other_salt.starts_with(&format!("{}YW5vdGhlcnNhbHQxMjM0NQ$", PREFIX)));
}

#[test]
fn empty_password_is_hashed() {
    let digest = HashingPasswordImpl::creation().hasing(String::new()).unwrap();
    assert!(digest.starts_with(PREFIX));
    assert!(verifies("", &digest));
}

#[test]
fn salt_that_argon2_refuses_gives_password_hashing() {
    let hasher = HashingPasswordImpl::creation();
    assert_eq!(hasher.hasing_with_salt("123456", ""), Err(Error::PasswordHashing));
    assert_eq!(hasher.hasing_with_salt("123456", "abc"), Err(Error::PasswordHashing));
    assert_eq!(hasher.hasing_with_salt("123456", "not$base64"), Err(Error::PasswordHashing));
    assert_eq!(hasher.hasing_with_salt("123456", "c2hvcnQ"), Err(Error::PasswordHashing));
}

#[test]
fn salt_made_for_a_call_is_sixteen_bytes_in_base64() {
    let hasher = HashingPasswordImpl::creation();
    for _ in 0..8 {
        let digest = hasher.hasing("123456".to_string()).unwrap();
        let fields: Vec<&str> = digest.split('$').collect();
        let salt = fields[4];
        assert_eq!(salt.len(), 22);
        assert!(salt
            .chars()
            .all(|c| c.is_ascii_alphanumeric() || c == '+' || c == '/'));
        assert!(matches!(salt.chars().last(), Some('A' | 'Q' | 'g' | 'w')));
        assert_eq!(hasher.hasing_with_salt("123456", salt), Ok(digest));
    }
}
