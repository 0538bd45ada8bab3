pub mod error;
pub mod hasing_password;
pub mod user;
