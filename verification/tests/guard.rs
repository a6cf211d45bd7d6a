use restful_image::app::{access, routes, Access, Handler, Method};
use restful_image::auth::{
    authorize, authorize_at, claims_from_header, AuthenticatedIdentity, DecodeJwt, GenerateJwt,
    GuardDecision,
};
use restful_image::middleware::auth::Auth;
use restful_image::models::user::{Timestamp, User};
use restful_image::result::Error;
use restful_image::util::jwt::{issue_at, Claims, SessionConfig};

const ALICE: u128 = 0x67e55044_10b1_426f_9247_bb680e5fe0c8;
const NOW: i64 = 1_600_000_000;

fn config(secret: &str) -> SessionConfig {
    SessionConfig::new(secret.as_bytes().to_vec(), 86_400).unwrap()
}

fn alice() -> User {
    let at = Timestamp { seconds: 1_500_000_000, nanos: 0 };
    User {
        id: ALICE,
        username: String::from("alice"),
        email: String::from("alice@example.com"),
        password: String::from("$argon2$ver=2$c29tZXNhbHRzb21lc2FsdA$aGFzaA"),
        created_at: at,
        updated_at: at,
    }
}

#[test]
fn guard_rejects_missing_header() {
    assert_eq!(authorize_at(None, &config("secret"), NOW), GuardDecision::Reject);
    assert_eq!(authorize(None, &config("secret")), GuardDecision::Reject);
    assert_eq!(claims_from_header(None, &config("secret"), NOW), None);
}

#[test]
fn guard_rejects_garbage_header() {
    let cfg = config("secret");
    assert_eq!(authorize_at(Some("garbage"), &cfg, NOW), GuardDecision::Reject);
    assert_eq!(authorize_at(Some(""), &cfg, NOW), GuardDecision::Reject);
    assert_eq!(authorize(Some("a.b.c"), &cfg), GuardDecision::Reject);
}

#[test]
fn guard_rejects_expired_token() {
    let cfg = config("secret");
    let token = issue_at(ALICE, &cfg, NOW).unwrap();
    assert_eq!(authorize_at(Some(&token), &cfg, NOW + 86_400), GuardDecision::Reject);
    assert_eq!(authorize(Some(&token), &cfg), GuardDecision::Reject);
}

#[test]
fn guard_rejects_token_of_other_secret() {
    let token = issue_at(ALICE, &config("other"), NOW).unwrap();
    assert_eq!(authorize_at(Some(&token), &config("secret"), NOW), GuardDecision::Reject);
}

#[test]
fn guard_accepts_fresh_token_and_binds_subject() {
    let cfg = config("secret");
    let token = issue_at(ALICE, &cfg, NOW).unwrap();
    let bound = GuardDecision::Proceed(AuthenticatedIdentity { subject_id: ALICE });
    assert_eq!(authorize_at(Some(&token), &cfg, NOW), bound);
    assert_eq!(authorize_at(Some(&token), &cfg, NOW + 86_399), bound);
    assert_eq!(
        claims_from_header(Some(&token), &cfg, NOW),
        Some(Claims { id: ALICE, exp: NOW + 86_400 })
    );
}

#[test]
fn user_generates_token_that_decodes_to_its_id() {
    let cfg = config("secret");
    let token = alice().generate_jwt(&cfg, NOW).unwrap();
    assert_eq!(token, issue_at(ALICE, &cfg, NOW).unwrap());
    let data = token.as_str().decode_jwt(&cfg, NOW).unwrap();
    assert_eq!(data.claims, Claims { id: ALICE, exp: NOW + 86_400 });
    assert_eq!(data.header.typ.as_deref(), Some("JWT"));
    assert!(data.header.kid.is_none() && data.header.cty.is_none());
    assert!(matches!(token.as_str().decode_jwt(&cfg, NOW + 86_400), Err(Error::Authorization)));
    assert!(matches!("garbage".decode_jwt(&cfg, NOW), Err(Error::Authorization)));
    assert!(matches!(alice().generate_jwt(&cfg, i64::MAX), Err(Error::Internal)));
}

#[test]
fn middleware_screens_requests() {
    let cfg = config("secret");
    let token = issue_at(ALICE, &cfg, NOW).unwrap();
    let auth = Auth { config: cfg };
    let middleware = auth.new_transform("service");
    assert_eq!(auth.new_transform(7).service, 7);
    assert_eq!(middleware.service, "service");
    assert_eq!(middleware.screen(None, NOW), GuardDecision::Reject);
    assert_eq!(middleware.screen(Some("garbage"), NOW), GuardDecision::Reject);
    assert_eq!(
        middleware.screen(Some(&token), NOW),
        GuardDecision::Proceed(AuthenticatedIdentity { subject_id: ALICE })
    );
    assert_eq!(middleware.screen(Some(&token), NOW + 86_400), GuardDecision::Reject);
}

#[test]
fn open_routes_bypass_the_guard() {
    let cfg = config("secret");
    for handler in [Handler::Api, Handler::Register, Handler::Login, Handler::ListPlaces] {
        assert!(!handler.is_protected());
        assert_eq!(access(handler, None, &cfg, NOW), Access::Open);
        assert_eq!(access(handler, Some("garbage"), &cfg, NOW), Access::Open);
    }
}

#[test]
fn protected_routes_need_a_token() {
    let cfg = config("secret");
    let token = issue_at(ALICE, &cfg, NOW).unwrap();
    for handler in [Handler::GetCurrent, Handler::Update, Handler::CreatePlace] {
        assert!(handler.is_protected());
        assert_eq!(access(handler, None, &cfg, NOW), Access::Unauthorized);
        assert_eq!(access(handler, Some("garbage"), &cfg, NOW), Access::Unauthorized);
        assert_eq!(access(handler, Some(&token), &cfg, NOW + 86_400), Access::Unauthorized);
        assert_eq!(
            access(handler, Some(&token), &cfg, NOW),
            Access::Bound(AuthenticatedIdentity { subject_id: ALICE })
        );
    }
}

#[test]
fn routing_table() {
    let table = routes();
    let rows: Vec<(Method, &str, Handler)> =
        table.iter().map(|r| (r.method, r.path, r.handler)).collect();
    assert_eq!(
        rows,
        vec![
            (Method::Get, "/", Handler::Api),
            (Method::Post, "/api/v1/users", Handler::Register),
            (Method::Post, "/api/v1/users/login", Handler::Login),
            (Method::Get, "/api/v1/user", Handler::GetCurrent),
            (Method::Put, "/api/v1/user", Handler::Update),
            (Method::Post, "/api/v1/place", Handler::CreatePlace),
            (Method::Get, "/api/v1/places", Handler::ListPlaces),
        ]
    );
}
