pub mod place;
pub mod user;
