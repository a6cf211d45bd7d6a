use crate::models::user::User;
use crate::result::Error;
use crate::util::clock::unix_now;
use crate::util::jwt::{
    decode_at, issue_at, issue_spec, token_header, verdict, verify_at, Claims, Rejection,
    SessionConfig, TokenData,
};
use vstd::prelude::*;

verus! {

/// The caller that a request has been bound to.
#[derive(Clone, Copy, Debug, PartialEq, Eq, Structural)]
pub struct AuthenticatedIdentity {
    pub subject_id: u128,
}

/// What the guard does with a request to a protected route.
#[derive(Clone, Copy, Debug, PartialEq, Eq, Structural)]
pub enum GuardDecision {
    /// Hand the request to its handler, bound to this identity.
    Proceed(AuthenticatedIdentity),
    /// Answer `Unauthorized`; the handler never sees the request.
    Reject,
}

/// Issues a session token for the one it is called on.
pub trait GenerateJwt {
    /// The subject that the token will stand for.
    spec fn subject(&self) -> u128;

    /// A token for this subject as of the second `now`, or an internal error
    /// where signing fails or the expiry does not fit the clock.
    fn generate_jwt(&self, config: &SessionConfig, now: i64) -> (r: Result<String, Error>)
        ensures
            r is Ok <==> issue_spec(self.subject(), config.secret(), config.lifetime(), now)
                is Some,
            r matches Ok(t) ==> issue_spec(self.subject(), config.secret(), config.lifetime(), now)
                == Some(t@),
            r matches Ok(t) ==> verdict(t@, config.secret(), now) == Ok::<Claims, Rejection>(
                Claims { id: self.subject(), exp: (now + config.lifetime()) as i64 },
            ),
            r matches Err(e) ==> e == Error::Internal,
    ;
}

impl GenerateJwt for User {
    open spec fn subject(&self) -> u128 {
        self.id
    }

    fn generate_jwt(&self, config: &SessionConfig, now: i64) -> (r: Result<String, Error>) {
        issue_at(self.id, config, now)
    }
}

/// Reads the claims out of a session token.
pub trait DecodeJwt {
    /// The text of the token.
    spec fn text(&self) -> Seq<char>;

    /// The header and the claims of this token as of the second `now`, or an
    /// authorization error where the token is invalid, incomplete or expired.
    fn decode_jwt(&self, config: &SessionConfig, now: i64) -> (r: Result<TokenData, Error>)
        ensures
            r is Ok <==> verdict(self.text(), config.secret(), now) is Ok,
            r matches Ok(d) ==> verdict(self.text(), config.secret(), now) == Ok::<
                Claims,
                Rejection,
            >(d.claims) && token_header(self.text(), config.secret()) == Some(d.header.texts()),
            r matches Err(e) ==> e == Error::Authorization,
    ;
}

impl DecodeJwt for &str {
    open spec fn text(&self) -> Seq<char> {
        self@
    }

    fn decode_jwt(&self, config: &SessionConfig, now: i64) -> (r: Result<TokenData, Error>) {
        match decode_at(*self, config, now) {
            Ok(data) => Ok(data),
            Err(_) => Err(Error::Authorization),
        }
    }
}

/// The claims that a request's authorization header yields at the second
/// `now`: those of the token it holds, if it holds one that is valid and not
/// expired.
pub open spec fn header_claims(header: Option<Seq<char>>, secret: Seq<u8>, now: i64) -> Option<
    Claims,
> {
    match header {
        None => None,
        Some(token) => match verdict(token, secret, now) {
            Ok(claims) => Some(claims),
            Err(_) => None,
        },
    }
}

/// The guard's decision on a request at the second `now`: it proceeds, bound
/// to the subject of its token, exactly when its header yields claims.
pub open spec fn guard_spec(header: Option<Seq<char>>, secret: Seq<u8>, now: i64) -> GuardDecision {
    match header_claims(header, secret, now) {
        Some(claims) => GuardDecision::Proceed(AuthenticatedIdentity { subject_id: claims.id }),
        None => GuardDecision::Reject,
    }
}

/// The view of an optional header.
pub open spec fn header_view(header: Option<&str>) -> Option<Seq<char>> {
    match header {
        Some(h) => Some(h@),
        None => None,
    }
}

/// Extracts the claims from the authorization header of a request, as of the
/// second `now`. `None` stands for a request to be answered `Unauthorized`.
pub fn claims_from_header(header: Option<&str>, config: &SessionConfig, now: i64) -> (r: Option<
    Claims,
>)
    ensures
        r == header_claims(header_view(header), config.secret(), now),
{
    match header {
        None => None,
        Some(token) => match token.decode_jwt(config, now) {
            Ok(data) => Some(data.claims),
            Err(_) => None,
        },
    }
}

/// Decides on a request to a protected route, as of the second `now`.
pub fn authorize_at(header: Option<&str>, config: &SessionConfig, now: i64) -> (d: GuardDecision)
    ensures
        d == guard_spec(header_view(header), config.secret(), now),
{
    match claims_from_header(header, config, now) {
        Some(claims) => GuardDecision::Proceed(AuthenticatedIdentity { subject_id: claims.id }),
        None => GuardDecision::Reject,
    }
}

/// Decides on a request to a protected route, as of now by the system clock.
pub fn authorize(header: Option<&str>, config: &SessionConfig) -> (d: GuardDecision)
    ensures
        exists|now: i64| d == #[trigger] guard_spec(header_view(header), config.secret(), now),
        header is None ==> d == GuardDecision::Reject,
{
    let now = unix_now();
    authorize_at(header, config, now)
}

/// The guard turns away a request without a header, one whose token is
/// invalid or incomplete, and one whose token has expired; it lets a request
/// proceed exactly when its token is accepted, and binds it to the subject of
/// that token.
pub proof fn law_guard(header: Option<Seq<char>>, secret: Seq<u8>, now: i64)
    ensures
        header is None ==> guard_spec(header, secret, now) == GuardDecision::Reject,
        header matches Some(token) ==> (verdict(token, secret, now) is Err ==> guard_spec(
            header,
            secret,
            now,
        ) == GuardDecision::Reject),
        header matches Some(token) ==> (verdict(token, secret, now) matches Ok(claims)
            ==> guard_spec(header, secret, now) == GuardDecision::Proceed(
            AuthenticatedIdentity { subject_id: claims.id },
        )),
        guard_spec(header, secret, now) is Proceed ==> header is Some && verdict(
            header->0,
            secret,
            now,
        ) is Ok,
{
}

} // verus!
