pub mod timestamp;
pub mod user;
