pub mod not_found;
pub mod users;
