use vstd::prelude::*;

verus! {

/// The 128-bit value that `Uuid::parse_str` reads from `text`; `None` where it
/// refuses the text.
pub uninterp spec fn uuid_value(text: Seq<char>) -> Option<u128>;

/// The hyphenated lower-case text that the `uuid` crate prints for `value`.
pub uninterp spec fn uuid_text(value: u128) -> Seq<char>;

/// Calls `Uuid::parse_str` and `Uuid::as_u128`. The parser takes the simple,
/// hyphenated and URN forms; what it yields depends on the text alone.
#[verifier::external_body]
pub(crate) fn parse_uuid(text: &str) -> (r: Option<u128>)
    ensures
        r == uuid_value(text@),
{
    uuid::Uuid::parse_str(text).ok().map(|u| u.as_u128())
}

/// Calls `Uuid::from_u128`, `Uuid::to_hyphenated` and the adapter's
/// `to_string`. The second clause is the crate's round trip: the hyphenated
/// form is one of the forms that `Uuid::parse_str` takes, and parsing it gives
/// the value back.
#[verifier::external_body]
pub(crate) fn print_uuid(value: u128) -> (r: String)
    ensures
        r@ == uuid_text(value),
        uuid_value(r@) == Some(value),
{
    uuid::Uuid::from_u128(value).to_hyphenated().to_string()
}

} // verus!
