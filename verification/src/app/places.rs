use crate::models::place::{NewPlace, Place};
use crate::util::jwt::Claims;
use vstd::prelude::*;

verus! {

/// What a client is shown of a place.
#[derive(Clone, Debug)]
pub struct PlaceResponse {
    pub name: String,
    pub info: String,
}

/// The body of a request to create a place.
#[derive(Clone, Debug)]
pub struct CreatePlace {
    pub name: String,
    pub info: String,
}

/// The query of a request to list places.
#[derive(Clone, Copy, Debug, PartialEq, Eq, Structural)]
pub struct GetPlacesQuery {
    pub offset: Option<usize>,
    pub limit: Option<usize>,
}

/// Which rows a listing asks the storage layer for.
#[derive(Clone, Copy, Debug, PartialEq, Eq, Structural)]
pub enum Listing {
    /// Every row from this offset on.
    From(i64),
    /// The first rows, up to this many.
    First(i64),
}

/// A count as the storage layer takes it: itself where it fits 63 bits, and
/// wrapped round to the negative numbers where it does not.
pub open spec fn signed_spec(n: usize) -> int {
    if n <= i64::MAX {
        n as int
    } else {
        n - 0x1_0000_0000_0000_0000
    }
}

/// The rows that a query asks for: a limit, where one is given, replaces the
/// offset; without one the listing starts at the offset, or at the first row.
pub open spec fn listing_spec(query: GetPlacesQuery) -> Listing {
    match query.limit {
        Some(n) => Listing::First(signed_spec(n) as i64),
        None => match query.offset {
            Some(k) => Listing::From(signed_spec(k) as i64),
            None => Listing::From(0),
        },
    }
}

pub fn to_signed(n: usize) -> (r: i64)
    ensures
        r == signed_spec(n),
{
    let wide: u64 = n as u64;
    if wide <= 0x7fff_ffff_ffff_ffffu64 {
        wide as i64
    } else {
        let over: u64 = wide - 0x8000_0000_0000_0000u64;
        i64::MIN + over as i64
    }
}

impl PlaceResponse {
    pub open spec fn shows(&self, place: Place) -> bool {
        self.name@ == place.name@ && self.info@ == place.info@
    }

    /// Keeps the name and the description of a place.
    pub fn from(place: Place) -> (r: PlaceResponse)
        ensures
            r.shows(place),
    {
        PlaceResponse { name: place.name, info: place.info }
    }
}

impl GetPlacesQuery {
    /// Turns the query into the rows to ask for.
    pub fn listing(&self) -> (r: Listing)
        ensures
            r == listing_spec(*self),
    {
        match self.limit {
            Some(n) => Listing::First(to_signed(n)),
            None => match self.offset {
                Some(k) => Listing::From(to_signed(k)),
                None => Listing::From(0),
            },
        }
    }
}

impl CreatePlace {
    /// The place to store for this request, created by the subject of the
    /// caller's claims.
    pub fn into_new_place(self, claims: Claims) -> (r: NewPlace)
        ensures
            r.name@ == self.name@,
            r.info@ == self.info@,
            r.created_by == claims.id,
    {
        NewPlace { name: self.name, info: self.info, created_by: claims.id }
    }
}

/// Shows each of the places listed, in the order given.
pub fn show_places(places: Vec<Place>) -> (r: Vec<PlaceResponse>)
    ensures
        r@.len() == places@.len(),
        forall|i: int| 0 <= i < r@.len() ==> (#[trigger] r@[i]).shows(places@[i]),
{
    let mut out: Vec<PlaceResponse> = Vec::new();
    let mut i: usize = 0;
    while i < places.len()
        invariant
            i <= places@.len(),
            out@.len() == i,
            forall|j: int| 0 <= j < i ==> (#[trigger] out@[j]).shows(places@[j]),
        decreases places@.len() - i,
    {
        let place = &places[i];
        out.push(PlaceResponse { name: place.name.clone(), info: place.info.clone() });
        i += 1;
    }
    out
}

} // verus!
