use crate::app::users::{session_opened, LoginUser, UserTokenResponse};
use crate::models::user::User;
use crate::password::{
    can_hash, hash, is_hash_of, needs_upgrade, needs_upgrade_spec, verify, verify_spec,
};
use crate::result::{Error, StorageFailure};
use crate::util::jwt::SessionConfig;
use vstd::prelude::*;

verus! {

/// The ways to name an account to the storage layer.
#[derive(Clone, Debug)]
pub enum UserIdentifier {
    Uuid(u128),
    Username(String),
    Email(String),
}

/// The column that an account is looked up by.
#[derive(Clone, Copy, Debug, PartialEq, Eq, Structural)]
pub enum UserColumn {
    Id,
    Username,
    Email,
}

impl UserIdentifier {
    pub open spec fn column_spec(&self) -> UserColumn {
        match self {
            UserIdentifier::Uuid(_) => UserColumn::Id,
            UserIdentifier::Username(_) => UserColumn::Username,
            UserIdentifier::Email(_) => UserColumn::Email,
        }
    }

    /// The column to filter on for this identifier.
    pub fn column(&self) -> (c: UserColumn)
        ensures
            c == self.column_spec(),
    {
        match self {
            UserIdentifier::Uuid(_) => UserColumn::Id,
            UserIdentifier::Username(_) => UserColumn::Username,
            UserIdentifier::Email(_) => UserColumn::Email,
        }
    }
}

/// What is fixed for the life of the process: how sessions are signed and
/// which scheme version new hashes are written under.
pub struct AuthSettings {
    pub session: SessionConfig,
    pub scheme_version: usize,
}

/// What a password check says of a login.
#[derive(Clone, Copy, Debug, PartialEq, Eq, Structural)]
pub enum CredentialDecision {
    /// Turn the caller away with this class of error.
    Refuse(RefusalKind),
    /// Open a session.
    Accept,
    /// Open a session, and first replace the stored hash by one of the
    /// current scheme version.
    AcceptAndUpgrade,
}

/// Why a login is turned away.
#[derive(Clone, Copy, Debug, PartialEq, Eq, Structural)]
pub enum RefusalKind {
    /// The password is wrong.
    Authorization,
    /// The stored hash cannot be checked.
    Internal,
}

impl RefusalKind {
    pub open spec fn error_spec(self) -> Error {
        match self {
            RefusalKind::Authorization => Error::Authorization,
            RefusalKind::Internal => Error::Internal,
        }
    }

    pub fn error(self) -> (e: Error)
        ensures
            e == self.error_spec(),
    {
        match self {
            RefusalKind::Authorization => Error::Authorization,
            RefusalKind::Internal => Error::Internal,
        }
    }
}

/// The decision that follows from the check of the password (`None` where
/// the stored hash cannot be checked) and from the age of the stored hash
/// (`None` where it cannot be read). A wrong password is never an internal
/// error, and a hash that cannot be checked is never a wrong password.
pub open spec fn decision_spec(matches: Option<bool>, outdated: Option<bool>) -> CredentialDecision {
    match matches {
        None => CredentialDecision::Refuse(RefusalKind::Internal),
        Some(false) => CredentialDecision::Refuse(RefusalKind::Authorization),
        Some(true) => match outdated {
            None => CredentialDecision::Refuse(RefusalKind::Internal),
            Some(true) => CredentialDecision::AcceptAndUpgrade,
            Some(false) => CredentialDecision::Accept,
        },
    }
}

/// Decides on a login from the outcome of the password check and of the age
/// check.
pub fn decide(matches: Option<bool>, outdated: Option<bool>) -> (d: CredentialDecision)
    ensures
        d == decision_spec(matches, outdated),
{
    match matches {
        None => CredentialDecision::Refuse(RefusalKind::Internal),
        Some(false) => CredentialDecision::Refuse(RefusalKind::Authorization),
        Some(true) => match outdated {
            None => CredentialDecision::Refuse(RefusalKind::Internal),
            Some(true) => CredentialDecision::AcceptAndUpgrade,
            Some(false) => CredentialDecision::Accept,
        },
    }
}

/// The decision on a login with `password` against the stored hash `stored`
/// under the current scheme version.
pub open spec fn credential_spec(password: Seq<char>, stored: Seq<char>, version: usize)
    -> CredentialDecision {
    decision_spec(verify_spec(password, stored), needs_upgrade_spec(stored, version))
}

/// Checks a password against a stored hash and decides on the login.
pub fn check_credential(password: &str, stored: &str, version: usize) -> (d: CredentialDecision)
    ensures
        d == credential_spec(password@, stored@, version),
{
    let matches = match verify(password, stored) {
        Ok(b) => Some(b),
        Err(_) => None,
    };
    let outdated = match needs_upgrade(stored, version) {
        Ok(b) => Some(b),
        Err(_) => None,
    };
    decide(matches, outdated)
}

/// Where a login stands.
#[derive(Clone, Debug)]
pub enum LoginState {
    /// Nothing has happened yet.
    Start,
    /// The account has been asked for; the password waits to be checked.
    AwaitingUser { password: String },
    /// The password matched and a newer hash has been sent to storage.
    AwaitingUpgrade { user: User },
    /// The caller has been answered.
    Done,
}

/// What happens to a login.
#[derive(Clone, Debug)]
pub enum LoginEvent {
    /// A client asks to log in.
    Requested(LoginUser),
    /// Storage found the account.
    UserLoaded(User),
    /// Storage found no account, or failed.
    LoadFailed(StorageFailure),
    /// Storage replaced the hash and hands the account back.
    HashStored(User),
    /// Storage could not replace the hash.
    StoreFailed(StorageFailure),
}

/// What a login asks of its surroundings.
#[derive(Debug)]
pub enum LoginAction {
    /// Look this account up.
    FetchUser(UserIdentifier),
    /// Replace the stored hash of this account.
    StoreHash { id: u128, password: String },
    /// Answer the caller.
    Reply(Result<UserTokenResponse, Error>),
}

/// The answer to a caller whose account storage did not hand out. That no
/// account has the name is told as a wrong password is.
pub open spec fn load_failure_spec(failure: StorageFailure) -> Error {
    match failure {
        StorageFailure::NotFound => Error::Authorization,
        _ => Error::from_storage_spec(failure),
    }
}

/// `action` answers the caller with the error `e`.
pub open spec fn replies_error(action: LoginAction, e: Error) -> bool {
    action matches LoginAction::Reply(Err(got)) && got == e
}

/// `action` answers the caller with what opening a session for `user` gives.
pub open spec fn replies_session(
    action: LoginAction,
    user: User,
    settings: AuthSettings,
    now: i64,
) -> bool {
    action matches LoginAction::Reply(r) && session_opened(
        r,
        user,
        settings.session.secret(),
        settings.session.lifetime(),
        now,
    )
}

/// `action` sends storage, for the account of `user`, a fresh hash of
/// `password` under the current scheme version.
pub open spec fn stores_upgrade(
    action: LoginAction,
    user: User,
    password: Seq<char>,
    version: usize,
) -> bool {
    &&& action matches LoginAction::StoreHash { id, password: hashed }
    &&& id == user.id
    &&& is_hash_of(hashed@, password, version)
}

/// The steps that a login may take at the second `now`: from `state` on
/// `event` to `next` with `action`.
pub open spec fn login_step_spec(
    state: LoginState,
    event: LoginEvent,
    settings: AuthSettings,
    now: i64,
    next: LoginState,
    action: LoginAction,
) -> bool {
    match (state, event) {
        (LoginState::Start, LoginEvent::Requested(form)) => {
            &&& next matches LoginState::AwaitingUser { password }
            &&& password@ == form.password@
            &&& action matches LoginAction::FetchUser(UserIdentifier::Username(name))
            &&& name@ == form.username@
        },
        (LoginState::AwaitingUser { password }, LoginEvent::LoadFailed(failure)) => {
            &&& next is Done
            &&& replies_error(action, load_failure_spec(failure))
        },
        (LoginState::AwaitingUser { password }, LoginEvent::UserLoaded(user)) => {
            match credential_spec(password@, user.password@, settings.scheme_version) {
                CredentialDecision::Refuse(kind) => {
                    &&& next is Done
                    &&& replies_error(action, kind.error_spec())
                },
                CredentialDecision::Accept => {
                    &&& next is Done
                    &&& replies_session(action, user, settings, now)
                },
                CredentialDecision::AcceptAndUpgrade => {
                    if can_hash(password@, settings.scheme_version) {
                        &&& next matches LoginState::AwaitingUpgrade { user: kept }
                        &&& kept == user
                        &&& stores_upgrade(action, user, password@, settings.scheme_version)
                    } else {
                        &&& next is Done
                        &&& replies_error(action, Error::Internal)
                    }
                },
            }
        },
        (LoginState::AwaitingUpgrade { user }, LoginEvent::HashStored(updated)) => {
            &&& next is Done
            &&& replies_session(action, updated, settings, now)
        },
        (LoginState::AwaitingUpgrade { user }, LoginEvent::StoreFailed(_)) => {
            &&& next is Done
            &&& replies_session(action, user, settings, now)
        },
        _ => {
            &&& next is Done
            &&& replies_error(action, Error::Internal)
        },
    }
}

/// Takes one step of a login: hands back the state to go on from and what to
/// do next. Storage is asked at most twice, once for the account and once,
/// where the stored hash is of an older scheme version, to replace the hash;
/// the login is completed whether or not the hash could be replaced.
pub fn login_step(state: LoginState, event: LoginEvent, settings: &AuthSettings, now: i64) -> (r: (
    LoginState,
    LoginAction,
))
    ensures
        login_step_spec(state, event, *settings, now, r.0, r.1),
{
    match (state, event) {
        (LoginState::Start, LoginEvent::Requested(form)) => (
            LoginState::AwaitingUser { password: form.password },
            LoginAction::FetchUser(UserIdentifier::Username(form.username)),
        ),
        (LoginState::AwaitingUser { password }, LoginEvent::LoadFailed(failure)) => {
            let e = match failure {
                StorageFailure::NotFound => Error::Authorization,
                _ => Error::from_storage(failure),
            };
            (LoginState::Done, LoginAction::Reply(Err(e)))
        },
        (LoginState::AwaitingUser { password }, LoginEvent::UserLoaded(user)) => {
            match check_credential(
                password.as_str(),
                user.password.as_str(),
                settings.scheme_version,
            ) {
                CredentialDecision::Refuse(kind) => (
                    LoginState::Done,
                    LoginAction::Reply(Err(kind.error())),
                ),
                CredentialDecision::Accept => (
                    LoginState::Done,
                    LoginAction::Reply(UserTokenResponse::from(user, &settings.session, now)),
                ),
                CredentialDecision::AcceptAndUpgrade => {
                    match hash(password.as_str(), settings.scheme_version) {
                        Ok(hashed) => {
                            let id = user.id;
                            (
                                LoginState::AwaitingUpgrade { user },
                                LoginAction::StoreHash { id, password: hashed },
                            )
                        },
                        Err(_) => (LoginState::Done, LoginAction::Reply(Err(Error::Internal))),
                    }
                },
            }
        },
        (LoginState::AwaitingUpgrade { user }, LoginEvent::HashStored(updated)) => (
            LoginState::Done,
            LoginAction::Reply(UserTokenResponse::from(updated, &settings.session, now)),
        ),
        (LoginState::AwaitingUpgrade { user }, LoginEvent::StoreFailed(_)) => (
            LoginState::Done,
            LoginAction::Reply(UserTokenResponse::from(user, &settings.session, now)),
        ),
        _ => (LoginState::Done, LoginAction::Reply(Err(Error::Internal))),
    }
}

/// A login with a name that no account has and a login with a wrong
/// password end alike: both answer with the authorization error and are
/// done.
pub proof fn law_login_failures_alike(
    settings: AuthSettings,
    now: i64,
    unknown_password: String,
    unknown_next: LoginState,
    unknown_action: LoginAction,
    wrong_password: String,
    user: User,
    wrong_next: LoginState,
    wrong_action: LoginAction,
)
    requires
        login_step_spec(
            LoginState::AwaitingUser { password: unknown_password },
            LoginEvent::LoadFailed(StorageFailure::NotFound),
            settings,
            now,
            unknown_next,
            unknown_action,
        ),
        login_step_spec(
            LoginState::AwaitingUser { password: wrong_password },
            LoginEvent::UserLoaded(user),
            settings,
            now,
            wrong_next,
            wrong_action,
        ),
        verify_spec(wrong_password@, user.password@) == Some(false),
    ensures
        unknown_action == LoginAction::Reply(Err(Error::Authorization)),
        wrong_action == unknown_action,
        unknown_next is Done,
        wrong_next is Done,
{
}

/// A login with the right password against a hash of an older scheme version
/// sends storage one fresh hash of the password, which the password matches
/// and which needs no upgrade, provided the password can be hashed; where it
/// cannot, the login fails internally. Once a hash has been sent, whatever
/// happens next ends the login with an answer, so no second hash is sent.
pub proof fn law_upgrade_once(
    settings: AuthSettings,
    now: i64,
    password: String,
    user: User,
    next: LoginState,
    action: LoginAction,
    event: LoginEvent,
    last: LoginState,
    last_action: LoginAction,
)
    requires
        verify_spec(password@, user.password@) == Some(true),
        needs_upgrade_spec(user.password@, settings.scheme_version) == Some(true),
        login_step_spec(
            LoginState::AwaitingUser { password },
            LoginEvent::UserLoaded(user),
            settings,
            now,
            next,
            action,
        ),
        login_step_spec(next, event, settings, now, last, last_action),
    ensures
        can_hash(password@, settings.scheme_version) ==> action is StoreHash,
        action matches LoginAction::StoreHash { id, password: hashed } ==> id == user.id
            && hashed@ != password@ && hashed@ != user.password@ && verify_spec(
            password@,
            hashed@,
        ) == Some(true)
            && needs_upgrade_spec(hashed@, settings.scheme_version) == Some(false),
        !can_hash(password@, settings.scheme_version) ==> replies_error(action, Error::Internal),
        last is Done,
        last_action is Reply,
{
}

} // verus!
