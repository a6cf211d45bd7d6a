use restful_image::password::{hash, needs_upgrade, verify, PWD_ALGORITHM, PWD_SCHEME_VERSION};
use restful_image::phc::{is_supported, Family};
use restful_image::result::Error;

const SALT: &str = "c29tZXNhbHRzb21lc2FsdA";
const DIGEST: &str = "aGFzaGhhc2hoYXNoaGFzaGhhc2hoYXNoaGFzaGhhc2g";

fn stored(params: &str) -> String {
    format!("$argon2${}${}${}", params, SALT, DIGEST)
}

fn keyed(params: &str) -> String {
    format!("$pbkdf2${}$c2FsdHNhbHQ${}", params, DIGEST)
}

#[test]
fn password_verifies_against_its_own_hash() {
    let h = hash("correcthorse", PWD_SCHEME_VERSION).unwrap();
    assert_ne!(h, "correcthorse");
    assert_eq!(PWD_ALGORITHM, Family::Argon2);
    assert!(h.starts_with("$argon2$"));
    assert!(is_supported(&h));
    assert!(matches!(verify("correcthorse", &h), Ok(true)));
}

#[test]
fn other_password_does_not_verify() {
    let h = hash("correcthorse", PWD_SCHEME_VERSION).unwrap();
    assert!(matches!(verify("wrong", &h), Ok(false)));
    assert!(matches!(verify("correcthorsE", &h), Ok(false)));
    assert!(matches!(verify("", &h), Ok(false)));
}

#[test]
fn two_hashes_of_one_password_differ_and_both_verify() {
    let a = hash("correcthorse", PWD_SCHEME_VERSION).unwrap();
    let b = hash("correcthorse", PWD_SCHEME_VERSION).unwrap();
    assert_ne!(a, b);
    assert!(matches!(verify("correcthorse", &a), Ok(true)));
    assert!(matches!(verify("correcthorse", &b), Ok(true)));
}

#[test]
fn fresh_hash_needs_no_upgrade() {
    let h = hash("correcthorse", 1).unwrap();
    assert!(matches!(needs_upgrade(&h, 1), Ok(false)));
    assert!(matches!(needs_upgrade(&h, 0), Ok(false)));
    assert!(matches!(needs_upgrade(&h, 2), Ok(true)));
    assert!(matches!(needs_upgrade(&h, usize::MAX), Ok(true)));
}

#[test]
fn upgrade_goes_by_the_version_in_the_hash() {
    // `ver` holds the scheme version plus one.
    assert!(matches!(needs_upgrade(&stored("ver=1"), 1), Ok(true)));
    assert!(matches!(needs_upgrade(&stored("ver=2"), 1), Ok(false)));
    assert!(matches!(needs_upgrade(&stored("ver=3"), 1), Ok(false)));
    assert!(matches!(needs_upgrade(&stored("ver=3"), 3), Ok(true)));
    assert!(matches!(needs_upgrade(&stored("passes=3"), 0), Ok(false)));
    assert!(matches!(needs_upgrade(&stored("passes=3"), 1), Ok(true)));
    assert!(matches!(needs_upgrade(&stored("passes=0"), 1), Ok(true)));
}

#[test]
fn text_that_is_not_read_is_internal_not_wrong_password() {
    let refused = [
        "",
        "plaintext",
        "argon2",
        "$unknown$ver=1$c29tZXNhbHQ$aGFzaA",
        "$argon2$ver=x$c29tZXNhbHRzb21lc2FsdA$aGFzaA",
        "$argon2$norm=other$c29tZXNhbHRzb21lc2FsdA$aGFzaA",
        "$argon2$,ver=2$c29tZXNhbHRzb21lc2FsdA$aGFzaA",
        "$argon2$ver=2,,ver=3$c29tZXNhbHRzb21lc2FsdA$aGFzaA",
        "$argon2$ver=2$c29tZXNhbHRzb21lc2Fs*A$aGFzaA",
        "$argon2$ver=2$c29tZXNhbHRzb21lc2FsdA$aGFz$aA",
        "$argon2$ver=2$c29tZXNhbHRzb21lc2FsdA$aGFz\u{e9}aA",
    ];
    for text in refused {
        assert!(matches!(verify("correcthorse", text), Err(Error::Internal)));
        assert!(matches!(needs_upgrade(text, 1), Err(Error::Internal)));
    }
}

#[test]
fn text_without_a_digest_matches_no_password() {
    let bare = [
        String::from("$argon2"),
        String::from("$argon2$"),
        String::from("$argon2$ver=2"),
        format!("$argon2$passes=0${}", SALT),
        format!("$argon2$passes=0${}$", SALT),
        format!("$argon2$passes=0${}$aGFzaB", SALT),
        format!("$argon2$unknown=1${}$aGFza", SALT),
        format!("$pbkdf2$hash=sha1,hmac=sha256${}", SALT),
    ];
    for text in bare {
        assert!(is_supported(&text));
        assert!(matches!(verify("correcthorse", &text), Ok(false)));
    }
}

#[test]
fn hash_with_costs_that_cannot_be_computed_is_internal() {
    let costs = [
        "passes=0",
        "passes=1025",
        "passes=3,passes=0",
        "passes=x",
        "passes=++3",
        "passes=-3",
        "passes=4294967297",
        "mem=3",
        "mem=6",
        "mem=19",
        "lanes=0",
        "lanes=129",
        "lanes=17,mem=7",
        "lanes=33,mem=8",
        "lanes=65,mem=9",
        "mem=12,lanes=4,mem=7,lanes=128",
        "len=1",
        "len=31",
        "len=257",
        "unknown=1",
        "iter=45000",
    ];
    for params in costs {
        assert!(!is_supported(&stored(params)));
        assert!(matches!(verify("correcthorse", &stored(params)), Err(Error::Internal)));
    }
    let short_salt = format!("$argon2$passes=3$c2FsdA${}", DIGEST);
    assert!(!is_supported(&short_salt));
    assert!(matches!(verify("correcthorse", &short_salt), Err(Error::Internal)));
    let long_salt = format!("$argon2$passes=3${}${}", "A".repeat(343), DIGEST);
    assert!(!is_supported(&long_salt));
}

#[test]
fn hash_of_other_costs_is_checked() {
    let costs = [
        "",
        "ver=2",
        "ver=2,",
        "passes=1,mem=7,lanes=16,len=32,ver=1",
        "passes=+3,mem=8",
        "passes=0000003,mem=8",
        "passes=0,passes=1,mem=8",
        "lanes=32,mem=8",
        "lanes=64,mem=9",
        "lanes=128,mem=10,passes=1",
        "mem=7,lanes=128,mem=10,passes=1",
        "lanes=128,lanes=4,mem=7,passes=1",
        "len-calc=chars,norm=nfkc,pmax=128,pmin=8,xhmac=none,xhmac-alg=sha512,mem=8",
    ];
    for params in costs {
        let text = stored(params);
        assert!(is_supported(&text));
        assert!(matches!(verify("correcthorse", &text), Ok(false)));
    }
    assert!(is_supported(&stored("passes=1024,mem=18,lanes=128,len=256")));
    assert!(is_supported(&format!("$argon2$mem=8${}${}", "0123456789A", DIGEST)));
    assert!(!is_supported(&format!("$argon2$mem=8${}${}", "0123456789", DIGEST)));
    assert!(is_supported(&format!("$argon2$mem=8${}${}", "A".repeat(342), DIGEST)));
}

#[test]
fn keyed_hash_is_checked_where_its_function_is_settled() {
    let settled = [
        "",
        "iter=10000",
        "iter=10000,hmac=sha1",
        "iter=10000,hmac=SHA256",
        "iter=10000,hash=Sha3-512,ver=1",
        "iter=10000,hash=sha1,hmac=SHA1",
        "iter=10000,hash=sha512-224,hmac=sha512t224",
        "iter=10000,hash=sha1,hash=sha256,hmac=sha256",
        "iter=+010000,hmac=keccak256",
    ];
    for params in settled {
        let text = keyed(params);
        assert!(is_supported(&text));
        assert!(matches!(verify("correcthorse", &text), Ok(false)));
    }
    let unsettled = [
        "hash=sha1,hmac=sha256,iter=10000",
        "hash=sha256,hash=sha1,hmac=sha256",
        "hmac=md5",
        "iter=9999",
        "iter=200001",
        "passes=3",
    ];
    for params in unsettled {
        let text = keyed(params);
        assert!(!is_supported(&text));
        assert!(matches!(verify("correcthorse", &text), Err(Error::Internal)));
    }
    assert!(is_supported(&format!("$pbkdf2$iter=10000$c2FsdHM${}", DIGEST)));
    assert!(!is_supported(&format!("$pbkdf2$iter=10000$c2Fsd${}", DIGEST)));
    assert!(is_supported(&format!("$scrypt$passes=0${}${}", SALT, DIGEST)));
}

#[test]
fn hash_of_the_other_family_is_checked_and_upgraded() {
    let mut builder = libreauth::pass::HashBuilder::new();
    builder.algorithm(libreauth::pass::Algorithm::Pbkdf2).version(0);
    let old = builder.finalize().unwrap().hash("correcthorse").unwrap();
    assert!(old.starts_with("$pbkdf2$"));
    assert!(is_supported(&old));
    assert!(matches!(verify("correcthorse", &old), Ok(true)));
    assert!(matches!(verify("wronghorse", &old), Ok(false)));
    assert!(matches!(needs_upgrade(&old, 1), Ok(true)));
}

#[test]
fn hash_with_many_lanes_is_checked() {
    let mut builder = libreauth::pass::HashBuilder::new();
    builder.add_param("lanes", "32").add_param("mem", "8").add_param("passes", "1");
    let old = builder.finalize().unwrap().hash("correcthorse").unwrap();
    assert!(is_supported(&old));
    assert!(matches!(verify("correcthorse", &old), Ok(true)));
    assert!(matches!(verify("wronghorse", &old), Ok(false)));
}

#[test]
fn password_of_bad_length_is_not_hashed() {
    assert!(matches!(hash("short", 1), Err(Error::Internal)));
    assert!(matches!(hash("", 1), Err(Error::Internal)));
    assert!(hash(&"x".repeat(128), 1).is_ok());
    assert!(matches!(hash(&"x".repeat(129), 1), Err(Error::Internal)));
    assert!(matches!(hash("correcthorse", usize::MAX), Err(Error::Internal)));
    let own_hash = hash("correcthorse", 1).unwrap();
    assert!(matches!(hash(&own_hash, 1), Err(Error::Internal)));
}
