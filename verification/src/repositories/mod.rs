pub mod hasing_password;
pub mod table;
pub mod users;
