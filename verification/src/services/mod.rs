pub mod runs;
pub mod users;
