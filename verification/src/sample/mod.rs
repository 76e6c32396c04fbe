pub mod student;
pub mod user;
