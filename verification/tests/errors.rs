use rust_backend_template::handlers::not_found::not_found;
use rust_backend_template::handlers::users::{registration, registration_status};
use rust_backend_template::models::error::{
    CustomError, ErrorResponse, INTERNAL_SERVER_ERROR, NOT_FOUND,
};
use rust_backend_template::models::hasing_password::Error as HashingError;
use rust_backend_template::models::user::{Error, User, CREATED};

#[test]
fn status_codes() {
    assert_eq!(CREATED, 201);
    assert_eq!(NOT_FOUND, 404);
    assert_eq!(INTERNAL_SERVER_ERROR, 500);
}

#[test]
fn not_found_names_the_identifier() {
    assert_eq!(
        Error::NotFound(12).error(),
        ErrorResponse { error: "User not found: 12".to_string(), status_code: 500 }
    );
    assert_eq!(Error::NotFound(0).error().error, "User not found: 0");
    assert_eq!(Error::NotFound(-5).error().error, "User not found: -5");
    assert_eq!(Error::NotFound(i32::MAX).error().error, "User not found: 2147483647");
    assert_eq!(Error::NotFound(i32::MIN).error().error, "User not found: -2147483648");
}

#[test]
fn inserting_says_creation_failed() {
    assert_eq!(
        Error::Inserting.error(),
        ErrorResponse { error: "User creation failed".to_string(), status_code: 500 }
    );
}

#[test]
fn password_hashing_says_hashing_failed() {
    assert_eq!(
        Error::PasswordHashing.error(),
        ErrorResponse { error: "Password hashing failed".to_string(), status_code: 500 }
    );
    assert_eq!(
        HashingError::PasswordHashing.error(),
        ErrorResponse { error: "Password hashing failed".to_string(), status_code: 500 }
    );
}

#[test]
fn already_exists_names_the_user() {
    assert_eq!(
        Error::AlreadyExists("test".to_string()).error(),
        ErrorResponse { error: "Username already exists: test".to_string(), status_code: 500 }
    );
    assert_eq!(
        Error::AlreadyExists(String::new()).error().error,
        "Username already exists: "
    );
}

#[test]
fn unknown_endpoint_is_answered_with_404() {
    assert_eq!(
        not_found(),
        ErrorResponse { error: "Endpoint not found".to_string(), status_code: 404 }
    );
}

#[test]
fn registered_user_is_sent_as_it_is() {
    let user = User { id: 1, username: "test".to_string() };
    assert_eq!(registration(Ok(user.clone())), Ok(user));
}

#[test]
fn failed_registration_is_sent_as_its_error_says() {
    assert_eq!(
        registration(Err(Error::AlreadyExists("test".to_string()))),
        Err(ErrorResponse {
            error: "Username already exists: test".to_string(),
            status_code: 500
        })
    );
    assert_eq!(
        registration(Err(Error::NotFound(3))),
        Err(ErrorResponse { error: "User not found: 3".to_string(), status_code: 500 })
    );
    assert_eq!(
        registration(Err(Error::Inserting)),
        Err(ErrorResponse { error: "User creation failed".to_string(), status_code: 500 })
    );
    assert_eq!(
        registration(Err(Error::PasswordHashing)),
        Err(ErrorResponse { error: "Password hashing failed".to_string(), status_code: 500 })
    );
}

#[test]
fn registered_user_goes_out_with_201() {
    let answer = registration(Ok(User { id: 1, username: "test".to_string() }));
    assert_eq!(registration_status(&answer), 201);
    assert_eq!(registration_status(&answer), CREATED);
}

#[test]
fn failed_registration_goes_out_with_500() {
    for e in [
        Error::AlreadyExists("test".to_string()),
        Error::NotFound(3),
        Error::Inserting,
        Error::PasswordHashing,
    ] {
        assert_eq!(registration_status(&registration(Err(e))), 500);
    }
}

#[test]
fn error_goes_out_with_the_status_that_it_carries() {
    assert_eq!(registration_status(&Err(not_found())), 404);
    let teapot = ErrorResponse { error: "short and stout".to_string(), status_code: 418 };
    assert_eq!(registration_status(&Err(teapot)), 418);
}
