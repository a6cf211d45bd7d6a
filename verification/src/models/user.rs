use vstd::prelude::*;

verus! {

/// A point in time as the storage layer keeps it: seconds since the Unix
/// epoch and the nanoseconds within that second.
#[derive(Clone, Copy, Debug, PartialEq, Eq, Structural)]
pub struct Timestamp {
    pub seconds: i64,
    pub nanos: u32,
}

/// A stored account. `password` holds the encoded hash, never the plaintext.
#[derive(Clone, Debug)]
pub struct User {
    pub id: u128,
    pub username: String,
    pub email: String,
    pub password: String,
    pub created_at: Timestamp,
    pub updated_at: Timestamp,
}

/// An account to be stored. `password` holds the encoded hash.
#[derive(Clone, Debug)]
pub struct NewUser {
    pub username: String,
    pub email: String,
    pub password: String,
}

/// The fields of an account to overwrite; `None` leaves a field as it is.
#[derive(Clone, Debug)]
pub struct UpdateUser {
    pub id: u128,
    pub username: Option<String>,
    pub email: Option<String>,
    pub password: Option<String>,
}

} // verus!
