use crate::phc::{family_of, is_supported, supported, Family};
use crate::result::Error;
use vstd::prelude::*;

verus! {

/// The error codes of `libreauth::pass`. None is told apart here: each is an
/// internal failure.
#[verifier::external_type_specification]
#[verifier::external_body]
pub struct ExErrorCode(libreauth::pass::ErrorCode);

/// The scheme version that `HashBuilder::from_phc` reads from a stored hash,
/// counted as the caller of `HashBuilder::version` counts it; `None` where it
/// refuses the text.
pub uninterp spec fn phc_scheme(stored: Seq<char>) -> Option<int>;

/// Whether `Hasher::is_valid` accepts `password` for the hasher that
/// `HashBuilder::from_phc` makes of `stored`.
pub uninterp spec fn password_matches(stored: Seq<char>, password: Seq<char>) -> bool;

/// Whether `Hasher::hash` takes `password`, for a hasher built with the
/// defaults of `HashBuilder::new`: it does where the password, brought to its
/// normal form, has a length that the hasher allows.
pub uninterp spec fn hashable(password: Seq<char>) -> bool;

/// The version of the hashing scheme that new hashes are written under.
pub const PWD_SCHEME_VERSION: usize = 1;

/// The family that new hashes are written in.
pub const PWD_ALGORITHM: Family = Family::Argon2;

/// Builds a hasher of the family with `HashBuilder::new`, `algorithm`,
/// `version` and `finalize`, and calls `Hasher::hash`. Whether the call
/// succeeds lies with the password alone: the builder cannot fail, and the
/// hasher reports an error only for a password of a length that it does not
/// allow. The salt is random, so the hash has no name; the clauses say what
/// holds of every hash that comes back. It is written in the family given,
/// with the crate's default costs and a 16-byte salt, which is a text that
/// `supported` admits; its `ver` parameter is the version given; and, as the
/// crate's documentation shows, the hasher read back from it accepts the
/// password it was made from. It differs from the password: it is ASCII and
/// longer than the 128 characters that the hasher allows a password, and an
/// ASCII password is its own normal form.
#[verifier::external_body]
fn hash_with_version(password: &str, family: Family, version: usize) -> (r: Result<
    String,
    libreauth::pass::ErrorCode,
>)
    requires
        version < usize::MAX,
    ensures
        r is Ok <==> hashable(password@),
        r matches Ok(h) ==> supported(h@) && family_of(h@) == Some(family) && phc_scheme(h@)
            == Some(version as int) && password_matches(h@, password@) && h@ != password@,
{
    let algorithm = match family {
        Family::Argon2 => libreauth::pass::Algorithm::Argon2,
        Family::Pbkdf2 => libreauth::pass::Algorithm::Pbkdf2,
    };
    let mut builder = libreauth::pass::HashBuilder::new();
    builder.algorithm(algorithm).version(version);
    builder.finalize()?.hash(password)
}

/// Calls `HashBuilder::from_phc` and `Hasher::is_valid`. Where the stored text
/// holds a digest, the hasher computes a hash with the parameters and the
/// salt of the text. It stops the program where it cannot compute one, and
/// where the text names two hash functions for PBKDF2 its answer depends on
/// chance; `supported` leaves out those texts and no others.
#[verifier::external_body]
fn check_stored(stored: &str, password: &str) -> (r: Result<bool, libreauth::pass::ErrorCode>)
    requires
        supported(stored@),
    ensures
        r is Ok <==> phc_scheme(stored@) is Some,
        r matches Ok(b) ==> b == password_matches(stored@, password@),
{
    Ok(libreauth::pass::HashBuilder::from_phc(stored)?.is_valid(password))
}

/// Calls `HashBuilder::from_phc` and `Hasher::needs_update`, which compares
/// the version read from the text with the one given and computes no hash.
/// The crate keeps the version in a `usize`, one above the caller's count, so
/// the count is below `usize::MAX`.
#[verifier::external_body]
fn stored_is_outdated(stored: &str, current: usize) -> (r: Result<
    bool,
    libreauth::pass::ErrorCode,
>)
    requires
        current < usize::MAX,
    ensures
        r is Ok <==> phc_scheme(stored@) is Some,
        r matches Ok(b) ==> b == (phc_scheme(stored@)->0 < current),
        r is Ok ==> phc_scheme(stored@)->0 < usize::MAX,
{
    Ok(libreauth::pass::HashBuilder::from_phc(stored)?.needs_update(Some(current)))
}

/// A stored hash that can be checked: one that `supported` admits and that
/// the hashing crate reads.
pub open spec fn readable(stored: Seq<char>) -> bool {
    supported(stored) && phc_scheme(stored) is Some
}

/// What checking `password` against `stored` gives: whether it matches, or
/// nothing where the stored hash cannot be checked.
pub open spec fn verify_spec(password: Seq<char>, stored: Seq<char>) -> Option<bool> {
    if readable(stored) {
        Some(password_matches(stored, password))
    } else {
        None
    }
}

/// Whether `stored` was written under an older scheme version than `current`;
/// nothing where the hashing crate does not read it.
pub open spec fn needs_upgrade_spec(stored: Seq<char>, current: usize) -> Option<bool> {
    match phc_scheme(stored) {
        Some(v) => Some(v < current),
        None => None,
    }
}

/// `hash` is a fresh hash of `password` under the scheme version given: it is
/// written in the family of new hashes, the password verifies against it, it
/// needs no upgrade, and it is not the password itself.
pub open spec fn is_hash_of(hash: Seq<char>, password: Seq<char>, version: usize) -> bool {
    &&& family_of(hash) == Some(PWD_ALGORITHM)
    &&& verify_spec(password, hash) == Some(true)
    &&& needs_upgrade_spec(hash, version) == Some(false)
    &&& hash != password
}

/// Whether a password can be hashed under the scheme version given: the
/// hasher must take the password, and the version must leave room for the
/// count that the hashing crate adds to it.
pub open spec fn can_hash(password: Seq<char>, version: usize) -> bool {
    version < usize::MAX && hashable(password)
}

/// Hashes a password under a fresh salt and the scheme version given.
pub fn hash(plaintext: &str, version: usize) -> (r: Result<String, Error>)
    ensures
        r is Ok <==> can_hash(plaintext@, version),
        r matches Ok(h) ==> is_hash_of(h@, plaintext@, version),
        r matches Err(e) ==> e == Error::Internal,
{
    if version == usize::MAX {
        return Err(Error::Internal);
    }
    match hash_with_version(plaintext, PWD_ALGORITHM, version) {
        Ok(h) => Ok(h),
        Err(_) => Err(Error::Internal),
    }
}

/// Checks a password against a stored hash. A wrong password is `Ok(false)`;
/// a stored hash that cannot be checked is an internal error.
pub fn verify(plaintext: &str, stored: &str) -> (r: Result<bool, Error>)
    ensures
        r is Ok <==> verify_spec(plaintext@, stored@) is Some,
        r matches Ok(b) ==> verify_spec(plaintext@, stored@) == Some(b),
        r matches Err(e) ==> e == Error::Internal,
{
    if !is_supported(stored) {
        return Err(Error::Internal);
    }
    match check_stored(stored, plaintext) {
        Ok(b) => Ok(b),
        Err(_) => Err(Error::Internal),
    }
}

/// Tells whether a stored hash was written under a scheme version older than
/// `current`, without hashing anything.
pub fn needs_upgrade(stored: &str, current: usize) -> (r: Result<bool, Error>)
    ensures
        r is Ok <==> needs_upgrade_spec(stored@, current) is Some,
        r matches Ok(b) ==> needs_upgrade_spec(stored@, current) == Some(b),
        r matches Err(e) ==> e == Error::Internal,
{
    if current == usize::MAX {
        // No version is as new as this one.
        match stored_is_outdated(stored, current - 1) {
            Ok(_) => Ok(true),
            Err(_) => Err(Error::Internal),
        }
    } else {
        match stored_is_outdated(stored, current) {
            Ok(b) => Ok(b),
            Err(_) => Err(Error::Internal),
        }
    }
}

} // verus!
