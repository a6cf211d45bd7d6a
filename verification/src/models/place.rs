use crate::models::user::Timestamp;
use vstd::prelude::*;

verus! {

/// A stored place.
#[derive(Clone, Debug)]
pub struct Place {
    pub id: u128,
    pub name: String,
    pub info: String,
    pub created_by: u128,
    pub created_at: Timestamp,
    pub updated_at: Timestamp,
}

/// A place to be stored, with the account that creates it.
#[derive(Clone, Debug)]
pub struct NewPlace {
    pub name: String,
    pub info: String,
    pub created_by: u128,
}

} // verus!
