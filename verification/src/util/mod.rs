pub mod clock;
pub mod ident;
pub mod jwt;
