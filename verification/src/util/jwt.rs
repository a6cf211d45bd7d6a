use crate::result::Error;
use crate::util::clock::unix_now;
use crate::util::ident::{parse_uuid, print_uuid, uuid_text, uuid_value};
use jsonwebtoken::errors::Error as JwtError;
use vstd::prelude::*;

verus! {

/// The error type of the `jsonwebtoken` crate. Nothing is read from it: every
/// failure of the token crate is one rejection.
#[verifier::external_type_specification]
#[verifier::external_body]
pub struct ExJwtError(JwtError);

/// The token that `jsonwebtoken::encode` builds with the default header for a
/// claims object of two members, `subject_key` holding the text `subject` and
/// `expiry_key` holding the number `expires_at`, signed with `secret`.
pub uninterp spec fn jwt_encoding(
    subject_key: Seq<char>,
    subject: Seq<char>,
    expiry_key: Seq<char>,
    expires_at: i64,
    secret: Seq<u8>,
) -> Seq<char>;

/// What `jsonwebtoken::decode` finds in `token` under `secret` when it checks
/// shape, algorithm and signature but no time. First the claims: the text
/// under `subject_key` and the integer under `expiry_key`, each `None` where
/// the member is missing or of another type. Then the header, but for its
/// algorithm: `typ`, `cty`, `jku`, `kid`, `x5u` and `x5t`. `None` as a whole
/// where the token is refused.
pub uninterp spec fn jwt_decoding(
    token: Seq<char>,
    secret: Seq<u8>,
    subject_key: Seq<char>,
    expiry_key: Seq<char>,
) -> Option<
    (
        (Option<Seq<char>>, Option<i64>),
        (
            Option<Seq<char>>,
            Option<Seq<char>>,
            Option<Seq<char>>,
            Option<Seq<char>>,
            Option<Seq<char>>,
            Option<Seq<char>>,
        ),
    ),
>;

/// The header of a token, but for its algorithm: tokens are accepted under
/// HS256 alone.
#[derive(Clone, Debug)]
pub struct Header {
    pub typ: Option<String>,
    pub cty: Option<String>,
    pub jku: Option<String>,
    pub kid: Option<String>,
    pub x5u: Option<String>,
    pub x5t: Option<String>,
}

/// The members of the header that tokens are issued with: the type `JWT` and
/// nothing else.
pub open spec fn default_header() -> (
    Option<Seq<char>>,
    Option<Seq<char>>,
    Option<Seq<char>>,
    Option<Seq<char>>,
    Option<Seq<char>>,
    Option<Seq<char>>,
) {
    (Some("JWT"@), None, None, None, None, None)
}

/// The view of an optional text.
pub open spec fn opt_text(text: Option<String>) -> Option<Seq<char>> {
    match text {
        Some(s) => Some(s@),
        None => None,
    }
}

impl Header {
    /// The six members as texts, in the order `typ`, `cty`, `jku`, `kid`,
    /// `x5u`, `x5t`.
    pub open spec fn texts(&self) -> (
        Option<Seq<char>>,
        Option<Seq<char>>,
        Option<Seq<char>>,
        Option<Seq<char>>,
        Option<Seq<char>>,
        Option<Seq<char>>,
    ) {
        (
            opt_text(self.typ),
            opt_text(self.cty),
            opt_text(self.jku),
            opt_text(self.kid),
            opt_text(self.x5u),
            opt_text(self.x5t),
        )
    }
}

/// Calls `jsonwebtoken::encode` with `Header::default()` (HS256) and an HMAC
/// key made of `secret`, on a JSON object with the two members in the order
/// given. The result is a function of the arguments alone, so it has a name.
/// With a key of the header's family, a header and an object of a text and an
/// integer, none of the steps of `encode` has an error to report, so the call
/// succeeds. The last clause is the crate's round trip: a token it has just
/// signed is accepted under the same secret and holds the two values it was
/// made from, under the default header, whose one member besides the
/// algorithm is the type `JWT`.
#[verifier::external_body]
fn sign_claims(
    subject_key: &str,
    subject: &str,
    expiry_key: &str,
    expires_at: i64,
    secret: &[u8],
) -> (r: Result<String, JwtError>)
    ensures
        r is Ok,
        r matches Ok(t) ==> t@ == jwt_encoding(
            subject_key@,
            subject@,
            expiry_key@,
            expires_at,
            secret@,
        ),
        r matches Ok(t) ==> subject_key@ != expiry_key@ ==> jwt_decoding(
            t@,
            secret@,
            subject_key@,
            expiry_key@,
        ) == Some(((Some(subject@), Some(expires_at)), default_header())),
{
    let mut claims = serde_json::Map::new();
    claims.insert(subject_key.to_owned(), serde_json::Value::from(subject));
    claims.insert(expiry_key.to_owned(), serde_json::Value::from(expires_at));
    let key = jsonwebtoken::EncodingKey::from_secret(secret);
    jsonwebtoken::encode(&jsonwebtoken::Header::default(), &claims, &key)
}

/// Calls `jsonwebtoken::decode` with an HMAC key made of `secret` and the
/// default validation (HS256 only) with its expiry check switched off. The
/// crate still reads the system clock, and stops the program where the clock
/// stands before 1970, but compares nothing with it: what comes back depends
/// on the token and the secret alone. From the claims object the wrapper hands
/// out the text under `subject_key` and the integer under `expiry_key`, and
/// from the header its six optional members.
#[verifier::external_body]
fn read_claims(token: &str, secret: &[u8], subject_key: &str, expiry_key: &str) -> (r: Result<
    ((Option<String>, Option<i64>), Header),
    JwtError,
>)
    ensures
        r is Ok <==> jwt_decoding(token@, secret@, subject_key@, expiry_key@) is Some,
        r matches Ok(c) ==> jwt_decoding(token@, secret@, subject_key@, expiry_key@) == Some(
            ((opt_text(c.0.0), c.0.1), c.1.texts()),
        ),
{
    let mut validation = jsonwebtoken::Validation::default();
    validation.validate_exp = false;
    let key = jsonwebtoken::DecodingKey::from_secret(secret);
    let data = jsonwebtoken::decode::<serde_json::Value>(token, &key, &validation)?;
    let subject = data.claims.get(subject_key).and_then(serde_json::Value::as_str);
    let expires_at = data.claims.get(expiry_key).and_then(serde_json::Value::as_i64);
    let h = data.header;
    let header = Header { typ: h.typ, cty: h.cty, jku: h.jku, kid: h.kid, x5u: h.x5u, x5t: h.x5t };
    Ok(((subject.map(str::to_owned), expires_at), header))
}

/// What a session token carries: whom it stands for and until when.
#[derive(Clone, Copy, Debug, PartialEq, Eq, Structural)]
pub struct Claims {
    /// The subject, as the 128-bit value of its UUID.
    pub id: u128,
    /// The second, counted from the Unix epoch, from which on the token is
    /// no longer accepted.
    pub exp: i64,
}

/// Why a token was turned away. Callers treat all three alike; the reason is
/// for the log.
#[derive(Clone, Copy, Debug, PartialEq, Eq, Structural)]
pub enum Rejection {
    /// Not three well-formed segments, another algorithm, or a signature that
    /// does not match the secret.
    Invalid,
    /// Signed by us, but the subject or the expiry is missing or unreadable.
    Incomplete,
    /// The expiry is not in the future.
    Expired,
}

/// The secret that signs tokens and the number of seconds a token lives.
pub struct SessionConfig {
    secret: Vec<u8>,
    lifetime: i64,
}

/// Seconds in a day.
pub const SECONDS_PER_DAY: i64 = 86_400;

/// The member of the claims object that holds the subject.
pub open spec fn subject_key_spec() -> Seq<char> {
    "id"@
}

/// The member of the claims object that holds the expiry.
pub open spec fn expiry_key_spec() -> Seq<char> {
    "exp"@
}

pub fn subject_key() -> (k: &'static str)
    ensures
        k@ == subject_key_spec(),
{
    "id"
}

pub fn expiry_key() -> (k: &'static str)
    ensures
        k@ == expiry_key_spec(),
{
    "exp"
}

/// The two members of the claims object have different names.
pub proof fn lemma_keys_differ()
    ensures
        subject_key_spec() != expiry_key_spec(),
{
    reveal_strlit("id");
    reveal_strlit("exp");
    assert(subject_key_spec().len() == 2);
    assert(expiry_key_spec().len() == 3);
}

/// The token for `claims` under `secret`.
pub open spec fn token_for(claims: Claims, secret: Seq<u8>) -> Seq<char> {
    jwt_encoding(subject_key_spec(), uuid_text(claims.id), expiry_key_spec(), claims.exp, secret)
}

/// What stands in a token, read without regard to time: the subject where the
/// subject member is the text of a UUID, and the expiry where the expiry member
/// is an integer. `None` where the token is not one that `secret` signed.
pub open spec fn token_content(token: Seq<char>, secret: Seq<u8>) -> Option<
    (Option<u128>, Option<i64>),
> {
    match jwt_decoding(token, secret, subject_key_spec(), expiry_key_spec()) {
        None => None,
        Some(((subject, expires_at), _)) => Some(
            (
                match subject {
                    Some(text) => uuid_value(text),
                    None => None,
                },
                expires_at,
            ),
        ),
    }
}

/// The header of a token that `secret` signed, but for its algorithm.
pub open spec fn token_header(token: Seq<char>, secret: Seq<u8>) -> Option<
    (
        Option<Seq<char>>,
        Option<Seq<char>>,
        Option<Seq<char>>,
        Option<Seq<char>>,
        Option<Seq<char>>,
        Option<Seq<char>>,
    ),
> {
    match jwt_decoding(token, secret, subject_key_spec(), expiry_key_spec()) {
        None => None,
        Some((_, header)) => Some(header),
    }
}

/// A token taken apart: its header and its claims.
#[derive(Clone, Debug)]
pub struct TokenData {
    pub header: Header,
    pub claims: Claims,
}

/// `r` is what taking `token` apart at the second `now` gives: the claims of
/// the verdict together with the header of the token, or the rejection of
/// the verdict.
pub open spec fn decoded(
    r: Result<TokenData, Rejection>,
    token: Seq<char>,
    secret: Seq<u8>,
    now: i64,
) -> bool {
    match verdict(token, secret, now) {
        Ok(claims) => {
            &&& r matches Ok(data)
            &&& data.claims == claims
            &&& token_header(token, secret) == Some(data.header.texts())
        },
        Err(rejection) => r matches Err(e) && e == rejection,
    }
}

/// The verdict on the content of a signed token at the second `now`: it must
/// name a subject and an expiry, and the expiry must lie after `now`.
pub open spec fn judge_spec(subject: Option<u128>, expires_at: Option<i64>, now: i64) -> Result<
    Claims,
    Rejection,
> {
    if subject is None || expires_at is None {
        Err(Rejection::Incomplete)
    } else if expires_at->0 <= now {
        Err(Rejection::Expired)
    } else {
        Ok(Claims { id: subject->0, exp: expires_at->0 })
    }
}

/// The verdict on a token at the second `now`.
pub open spec fn verdict(token: Seq<char>, secret: Seq<u8>, now: i64) -> Result<Claims, Rejection> {
    match token_content(token, secret) {
        None => Err(Rejection::Invalid),
        Some((subject, expires_at)) => judge_spec(subject, expires_at, now),
    }
}

/// Judges the content of a token whose signature has been checked.
pub fn judge(subject: Option<u128>, expires_at: Option<i64>, now: i64) -> (r: Result<
    Claims,
    Rejection,
>)
    ensures
        r == judge_spec(subject, expires_at, now),
{
    match (subject, expires_at) {
        (Some(id), Some(exp)) => {
            if exp <= now {
                Err(Rejection::Expired)
            } else {
                Ok(Claims { id, exp })
            }
        },
        _ => Err(Rejection::Incomplete),
    }
}

impl SessionConfig {
    /// The signing secret.
    pub closed spec fn secret(&self) -> Seq<u8> {
        self.secret@
    }

    /// The seconds between issue and expiry.
    pub closed spec fn lifetime(&self) -> int {
        self.lifetime as int
    }

    /// A token must expire after it is issued.
    #[verifier::type_invariant]
    pub closed spec fn wf(&self) -> bool {
        self.lifetime > 0
    }


    /// A configuration with the given secret and lifetime in seconds; `None`
    /// where the lifetime is not positive.
    pub fn new(secret: Vec<u8>, lifetime_seconds: i64) -> (r: Option<SessionConfig>)
        ensures
            r is Some <==> lifetime_seconds > 0,
            r matches Some(c) ==> c.wf() && c.secret() == secret@ && c.lifetime()
                == lifetime_seconds,
    {
        if lifetime_seconds > 0 {
            Some(SessionConfig { secret, lifetime: lifetime_seconds })
        } else {
            None
        }
    }

    /// A configuration whose tokens live for `days` days; `None` where that is
    /// not a positive number of seconds that fits the clock.
    pub fn with_days(secret: Vec<u8>, days: i64) -> (r: Option<SessionConfig>)
        ensures
            r is Some <==> 0 < days * SECONDS_PER_DAY <= i64::MAX,
            r matches Some(c) ==> c.wf() && c.secret() == secret@ && c.lifetime() == days
                * SECONDS_PER_DAY,
    {
        match days.checked_mul(SECONDS_PER_DAY) {
            Some(seconds) => Self::new(secret, seconds),
            None => None,
        }
    }

    /// A second copy of the configuration.
    pub fn duplicate(&self) -> (r: SessionConfig)
        ensures
            r.secret() == self.secret(),
            r.lifetime() == self.lifetime(),
    {
        proof {
            use_type_invariant(self);
        }
        SessionConfig { secret: self.secret.clone(), lifetime: self.lifetime }
    }

    pub fn lifetime_seconds(&self) -> (s: i64)
        ensures
            s == self.lifetime(),
    {
        self.lifetime
    }
}

/// The expiry of a token issued at `now`, `None` where it does not fit the
/// clock.
pub open spec fn expiry_spec(now: i64, lifetime: int) -> Option<i64> {
    if now + lifetime <= i64::MAX {
        Some((now + lifetime) as i64)
    } else {
        None
    }
}

/// What issuing a token for `id` at `now` gives: the signed token for the
/// subject and the expiry, or nothing where the expiry does not fit the
/// clock.
pub open spec fn issue_spec(id: u128, secret: Seq<u8>, lifetime: int, now: i64) -> Option<
    Seq<char>,
> {
    match expiry_spec(now, lifetime) {
        Some(exp) => Some(token_for(Claims { id, exp }, secret)),
        None => None,
    }
}

/// Issues a token for `id` as of the second `now`.
pub fn issue_at(id: u128, config: &SessionConfig, now: i64) -> (r: Result<String, Error>)
    ensures
        config.lifetime() > 0,
        r is Ok <==> issue_spec(id, config.secret(), config.lifetime(), now) is Some,
        r matches Ok(t) ==> issue_spec(id, config.secret(), config.lifetime(), now) == Some(t@),
        r matches Err(e) ==> e == Error::Internal,
        r matches Ok(t) ==> verdict(t@, config.secret(), now) == Ok::<Claims, Rejection>(
            Claims { id, exp: (now + config.lifetime()) as i64 },
        ),
        r matches Ok(t) ==> token_header(t@, config.secret()) == Some(default_header()),
{
    proof {
        use_type_invariant(config);
    }
    let exp = match now.checked_add(config.lifetime) {
        Some(exp) => exp,
        None => { return Err(Error::Internal); },
    };
    let subject = print_uuid(id);
    proof {
        lemma_keys_differ();
    }
    match sign_claims(subject_key(), subject.as_str(), expiry_key(), exp, config.secret.as_slice()) {
        Ok(token) => Ok(token),
        Err(_) => Err(Error::Internal),
    }
}

/// Issues a token for `id` as of now by the system clock.
pub fn issue(id: u128, config: &SessionConfig) -> (r: Result<String, Error>)
    ensures
        r matches Err(e) ==> e == Error::Internal,
        r matches Ok(t) ==> exists|now: i64|
            #[trigger] issue_spec(id, config.secret(), config.lifetime(), now) == Some(t@)
                && verdict(t@, config.secret(), now) == Ok::<Claims, Rejection>(
                Claims { id, exp: (now + config.lifetime()) as i64 },
            ),
{
    let now = unix_now();
    issue_at(id, config, now)
}

/// Takes a token apart as of the second `now`.
pub fn decode_at(token: &str, config: &SessionConfig, now: i64) -> (r: Result<
    TokenData,
    Rejection,
>)
    ensures
        decoded(r, token@, config.secret(), now),
{
    match read_claims(token, config.secret.as_slice(), subject_key(), expiry_key()) {
        Err(_) => Err(Rejection::Invalid),
        Ok(((subject, expires_at), header)) => {
            let id = match subject {
                Some(text) => parse_uuid(text.as_str()),
                None => None,
            };
            match judge(id, expires_at, now) {
                Ok(claims) => Ok(TokenData { header, claims }),
                Err(rejection) => Err(rejection),
            }
        },
    }
}

/// Checks a token as of the second `now`.
pub fn verify_at(token: &str, config: &SessionConfig, now: i64) -> (r: Result<Claims, Rejection>)
    ensures
        r == verdict(token@, config.secret(), now),
{
    match decode_at(token, config, now) {
        Ok(data) => Ok(data.claims),
        Err(rejection) => Err(rejection),
    }
}

/// Checks a token as of now by the system clock.
pub fn verify(token: &str, config: &SessionConfig) -> (r: Result<Claims, Rejection>)
    ensures
        exists|now: i64| r == #[trigger] verdict(token@, config.secret(), now),
{
    let now = unix_now();
    verify_at(token, config, now)
}

/// A token is accepted only before its expiry: whatever its signature, one
/// whose expiry is `now` or earlier is rejected, and the claims of one that is
/// accepted expire after `now`.
pub proof fn law_expired_is_rejected(token: Seq<char>, secret: Seq<u8>, now: i64)
    ensures
        verdict(token, secret, now) matches Ok(claims) ==> claims.exp > now,
        token_content(token, secret) matches Some((_, Some(exp))) && exp <= now ==> verdict(
            token,
            secret,
            now,
        ) is Err,
{
}

/// A token that is accepted at one second is accepted at every earlier one,
/// with the same claims.
pub proof fn law_accepted_earlier(token: Seq<char>, secret: Seq<u8>, now: i64, earlier: i64)
    requires
        earlier <= now,
        verdict(token, secret, now) is Ok,
    ensures
        verdict(token, secret, earlier) == verdict(token, secret, now),
{
}

} // verus!
