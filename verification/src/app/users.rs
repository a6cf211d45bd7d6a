use crate::models::user::{NewUser, User};
use crate::models::user::UpdateUser as UserChanges;
use crate::util::jwt::{issue_at, issue_spec, verdict, Claims, Rejection, SessionConfig};
use crate::password::{can_hash, hash, is_hash_of};
use crate::result::{Error, FieldIssue, Param, StorageFailure};
use vstd::prelude::*;
use vstd::string::*;

verus! {

/// Whether `validator::validate_email` takes `text` for an e-mail address.
pub uninterp spec fn email_valid(text: Seq<char>) -> bool;

/// Calls `validator::validate_email`, which judges the text alone.
#[verifier::external_body]
fn check_email(text: &str) -> (r: bool)
    ensures
        r == email_valid(text@),
{
    validator::validate_email(text)
}

/// The body of a request to register an account.
#[derive(Clone, Debug)]
pub struct RegisterUser {
    pub username: String,
    pub email: String,
    pub password: String,
}

/// The body of a request to log in.
#[derive(Clone, Debug)]
pub struct LoginUser {
    pub username: String,
    pub password: String,
}

/// The body of a request to change an account; `None` leaves a field as it
/// is.
#[derive(Clone, Debug)]
pub struct UpdateUser {
    pub username: Option<String>,
    pub email: Option<String>,
    pub password: Option<String>,
}

/// What a client is shown of an account.
#[derive(Clone, Debug)]
pub struct UserResponse {
    pub username: String,
    pub email: String,
}

/// What a client is shown of an account that it has just proved to own: the
/// account and a session token for it.
#[derive(Clone, Debug)]
pub struct UserTokenResponse {
    pub token: String,
    pub username: String,
    pub email: String,
}

pub const USERNAME_MIN: usize = 1;

pub const USERNAME_MAX: usize = 20;

pub const PASSWORD_MIN: usize = 8;

pub const PASSWORD_MAX: usize = 128;

/// A name of 1 to 20 characters.
pub open spec fn username_ok(name: Seq<char>) -> bool {
    USERNAME_MIN <= name.len() <= USERNAME_MAX
}

/// A password of 8 to 128 characters.
pub open spec fn password_ok(password: Seq<char>) -> bool {
    PASSWORD_MIN <= password.len() <= PASSWORD_MAX
}

/// The fields of a request body that a rule can be broken on.
#[derive(Clone, Copy, Debug, PartialEq, Eq, Structural)]
pub enum Field {
    Username,
    Email,
    Password,
}

/// The fields of a body that break a rule, each with the value that breaks
/// it, in the order username, e-mail, password. A field that is absent breaks
/// none.
pub open spec fn broken_fields(
    username: Option<Seq<char>>,
    email: Option<Seq<char>>,
    password: Option<Seq<char>>,
) -> Seq<(Field, Seq<char>)> {
    let u = if username is Some && !username_ok(username->0) {
        seq![(Field::Username, username->0)]
    } else {
        seq![]
    };
    let e = if email is Some && !email_valid(email->0) {
        seq![(Field::Email, email->0)]
    } else {
        seq![]
    };
    let p = if password is Some && !password_ok(password->0) {
        seq![(Field::Password, password->0)]
    } else {
        seq![]
    };
    u + e + p
}

impl Field {
    /// The name of the field in a request body.
    pub open spec fn name_spec(self) -> Seq<char> {
        match self {
            Field::Username => "username"@,
            Field::Email => "email"@,
            Field::Password => "password"@,
        }
    }

    /// The code of the rule on the field: a length or the form of an address.
    pub open spec fn code_spec(self) -> Seq<char> {
        match self {
            Field::Username => "length"@,
            Field::Email => "email"@,
            Field::Password => "length"@,
        }
    }

    /// What the client is told when the field breaks its rule.
    pub open spec fn message_spec(self) -> Seq<char> {
        match self {
            Field::Username => "Username length is expected to be between 1 and 20 characters"@,
            Field::Email => "Invalid email"@,
            Field::Password => "Password length is expected to be between 8 and 128 characters"@,
        }
    }

    /// The least and the greatest length of the field, for a field that has
    /// a rule on its length.
    pub open spec fn bounds_spec(self) -> Option<(u64, u64)> {
        match self {
            Field::Username => Some((USERNAME_MIN as u64, USERNAME_MAX as u64)),
            Field::Email => None,
            Field::Password => Some((PASSWORD_MIN as u64, PASSWORD_MAX as u64)),
        }
    }

    pub fn bounds(self) -> (r: Option<(u64, u64)>)
        ensures
            r == self.bounds_spec(),
    {
        match self {
            Field::Username => Some((1, 20)),
            Field::Email => None,
            Field::Password => Some((8, 128)),
        }
    }

    pub fn name(self) -> (r: &'static str)
        ensures
            r@ == self.name_spec(),
    {
        match self {
            Field::Username => "username",
            Field::Email => "email",
            Field::Password => "password",
        }
    }

    pub fn code(self) -> (r: &'static str)
        ensures
            r@ == self.code_spec(),
    {
        match self {
            Field::Username => "length",
            Field::Email => "email",
            Field::Password => "length",
        }
    }

    pub fn message(self) -> (r: &'static str)
        ensures
            r@ == self.message_spec(),
    {
        match self {
            Field::Username => "Username length is expected to be between 1 and 20 characters",
            Field::Email => "Invalid email",
            Field::Password => "Password length is expected to be between 8 and 128 characters",
        }
    }
}

/// A parameter is the number `n` under `name`.
pub open spec fn is_number(param: (String, Param), name: Seq<char>, n: u64) -> bool {
    param.0@ == name && param.1 == Param::Number(n)
}

/// A parameter is the text `text` under `name`.
pub open spec fn is_text(param: (String, Param), name: Seq<char>, text: Seq<char>) -> bool {
    &&& param.0@ == name
    &&& param.1 matches Param::Text(t)
    &&& t@ == text
}

/// The parameters of a complaint about `field` with the value `value`: the
/// bounds of a rule on length as `min` and `max`, and then the value.
pub open spec fn params_report(params: Seq<(String, Param)>, field: Field, value: Seq<char>)
    -> bool {
    match field.bounds_spec() {
        Some((min, max)) => {
            &&& params.len() == 3
            &&& is_number(params[0], "min"@, min)
            &&& is_number(params[1], "max"@, max)
            &&& is_text(params[2], "value"@, value)
        },
        None => params.len() == 1 && is_text(params[0], "value"@, value),
    }
}

/// One entry of a validation error reports `field` with its value: it stands
/// under the field's name and holds the one issue of the field's rule.
pub open spec fn reports(entry: (String, Vec<FieldIssue>), field: (Field, Seq<char>)) -> bool {
    &&& entry.0@ == field.0.name_spec()
    &&& entry.1@.len() == 1
    &&& entry.1@[0].code@ == field.0.code_spec()
    &&& entry.1@[0].message matches Some(m) && m@ == field.0.message_spec()
    &&& params_report(entry.1@[0].params@, field.0, field.1)
}

/// The entries of a validation error report `fields`, one entry each and in
/// the same order.
pub open spec fn reports_all(
    entries: Seq<(String, Vec<FieldIssue>)>,
    fields: Seq<(Field, Seq<char>)>,
) -> bool {
    &&& entries.len() == fields.len()
    &&& forall|i: int| 0 <= i < entries.len() ==> reports(#[trigger] entries[i], fields[i])
}

/// What validating a body gives: nothing to complain of where no field breaks
/// a rule, else a validation error that reports the broken fields.
pub open spec fn validated(r: Result<(), Error>, fields: Seq<(Field, Seq<char>)>) -> bool {
    match r {
        Ok(_) => fields.len() == 0,
        Err(Error::FieldValidation(entries)) => fields.len() > 0 && reports_all(entries@, fields),
        Err(_) => false,
    }
}

fn entry_for(field: Field, value: &str) -> (e: (String, Vec<FieldIssue>))
    ensures
        reports(e, (field, value@)),
{
    let mut params: Vec<(String, Param)> = Vec::new();
    match field.bounds() {
        Some((min, max)) => {
            params.push(("min".to_owned(), Param::Number(min)));
            params.push(("max".to_owned(), Param::Number(max)));
        },
        None => {},
    }
    params.push(("value".to_owned(), Param::Text(value.to_owned())));
    let issue = FieldIssue {
        code: field.code().to_owned(),
        message: Some(field.message().to_owned()),
        params,
    };
    let mut issues: Vec<FieldIssue> = Vec::new();
    issues.push(issue);
    (field.name().to_owned(), issues)
}

fn check_fields(username: Option<&str>, email: Option<&str>, password: Option<&str>) -> (r: Result<
    (),
    Error,
>)
    ensures
        validated(
            r,
            broken_fields(
                match username {
                    Some(s) => Some(s@),
                    None => None,
                },
                match email {
                    Some(s) => Some(s@),
                    None => None,
                },
                match password {
                    Some(s) => Some(s@),
                    None => None,
                },
            ),
        ),
{
    let mut entries: Vec<(String, Vec<FieldIssue>)> = Vec::new();
    let ghost mut fields: Seq<(Field, Seq<char>)> = seq![];
    if let Some(name) = username {
        let n = name.unicode_len();
        if n < USERNAME_MIN || n > USERNAME_MAX {
            entries.push(entry_for(Field::Username, name));
            proof {
                fields = fields.push((Field::Username, name@));
            }
        }
    }
    if let Some(address) = email {
        if !check_email(address) {
            entries.push(entry_for(Field::Email, address));
            proof {
                fields = fields.push((Field::Email, address@));
            }
        }
    }
    if let Some(secret) = password {
        let n = secret.unicode_len();
        if n < PASSWORD_MIN || n > PASSWORD_MAX {
            entries.push(entry_for(Field::Password, secret));
            proof {
                fields = fields.push((Field::Password, secret@));
            }
        }
    }
    proof {
        assert(reports_all(entries@, fields));
        assert(fields =~= broken_fields(
            match username {
                Some(s) => Some(s@),
                None => None,
            },
            match email {
                Some(s) => Some(s@),
                None => None,
            },
            match password {
                Some(s) => Some(s@),
                None => None,
            },
        ));
    }
    if entries.len() == 0 {
        Ok(())
    } else {
        Err(Error::FieldValidation(entries))
    }
}

/// The view of an optional text.
pub open spec fn text_view(text: Option<String>) -> Option<Seq<char>> {
    match text {
        Some(s) => Some(s@),
        None => None,
    }
}

fn borrow_text(text: &Option<String>) -> (r: Option<&str>)
    ensures
        r is Some == text is Some,
        r matches Some(s) ==> s@ == text->0@,
{
    match text {
        Some(s) => Some(s.as_str()),
        None => None,
    }
}

impl RegisterUser {
    /// The fields of this body that break a rule.
    pub open spec fn broken(&self) -> Seq<(Field, Seq<char>)> {
        broken_fields(Some(self.username@), Some(self.email@), Some(self.password@))
    }

    /// Holds the body to its rules: a username of 1 to 20 characters, an
    /// e-mail address, a password of 8 to 128 characters.
    pub fn validate(&self) -> (r: Result<(), Error>)
        ensures
            validated(r, self.broken()),
    {
        check_fields(
            Some(self.username.as_str()),
            Some(self.email.as_str()),
            Some(self.password.as_str()),
        )
    }

    /// The account to store for this body: its name and address, and its
    /// password hashed under the scheme version given. Where the password
    /// cannot be hashed the failure is internal.
    pub fn into_new_user(self, version: usize) -> (r: Result<NewUser, Error>)
        ensures
            r is Ok <==> can_hash(self.password@, version),
            r matches Ok(u) ==> stores(u, self, version),
            r matches Err(e) ==> e == Error::Internal,
    {
        match hash(self.password.as_str(), version) {
            Ok(hashed) => Ok(NewUser { username: self.username, email: self.email, password: hashed }),
            Err(_) => Err(Error::Internal),
        }
    }
}

/// `account` is what is stored for the body `form`: the same name and
/// address, and in place of the password a fresh hash of it.
pub open spec fn stores(account: NewUser, form: RegisterUser, version: usize) -> bool {
    &&& account.username@ == form.username@
    &&& account.email@ == form.email@
    &&& is_hash_of(account.password@, form.password@, version)
}

impl UpdateUser {
    /// The fields of this body that break a rule.
    pub open spec fn broken(&self) -> Seq<(Field, Seq<char>)> {
        broken_fields(text_view(self.username), text_view(self.email), text_view(self.password))
    }

    /// Holds the fields that are present to the rules of registration.
    pub fn validate(&self) -> (r: Result<(), Error>)
        ensures
            validated(r, self.broken()),
    {
        check_fields(
            borrow_text(&self.username),
            borrow_text(&self.email),
            borrow_text(&self.password),
        )
    }
}

impl UserResponse {
    pub open spec fn shows(&self, user: User) -> bool {
        self.username@ == user.username@ && self.email@ == user.email@
    }

    /// Keeps the name and the address of an account.
    pub fn from(user: User) -> (r: UserResponse)
        ensures
            r.shows(user),
    {
        UserResponse { username: user.username, email: user.email }
    }
}

impl UserTokenResponse {
    /// The response shows `user` with the token `token`.
    pub open spec fn shows(&self, user: User, token: Seq<char>) -> bool {
        self.username@ == user.username@ && self.email@ == user.email@ && self.token@ == token
    }

    /// Shows an account together with a session token issued for it as of
    /// the second `now`. Issuing can fail, and the failure is internal.
    pub fn from(user: User, config: &SessionConfig, now: i64) -> (r: Result<
        UserTokenResponse,
        Error,
    >)
        ensures
            session_opened(r, user, config.secret(), config.lifetime(), now),
    {
        match issue_at(user.id, config, now) {
            Ok(token) => Ok(UserTokenResponse { token, username: user.username, email: user.email }),
            Err(_) => Err(Error::Internal),
        }
    }
}

/// `r` is what opening a session for `user` at `now` gives: the account with
/// the token issued for it, which is accepted at `now` and names the account
/// as its subject; or an internal error where none can be issued.
pub open spec fn session_opened(
    r: Result<UserTokenResponse, Error>,
    user: User,
    secret: Seq<u8>,
    lifetime: int,
    now: i64,
) -> bool {
    match issue_spec(user.id, secret, lifetime, now) {
        Some(token) => {
            &&& r matches Ok(shown)
            &&& shown.shows(user, token)
            &&& verdict(token, secret, now) == Ok::<Claims, Rejection>(
                Claims { id: user.id, exp: (now + lifetime) as i64 },
            )
        },
        None => r matches Err(e) && e == Error::Internal,
    }
}

/// The first half of a registration: holds the body to its rules and hashes
/// the password. What comes back is the account to hand to storage, a
/// validation error that reports the broken fields, or an internal error
/// where the body is in order and its password cannot be hashed.
pub fn register(form: RegisterUser, version: usize) -> (r: Result<NewUser, Error>)
    ensures
        r is Ok <==> form.broken().len() == 0 && can_hash(form.password@, version),
        r matches Ok(account) ==> stores(account, form, version),
        r matches Err(e) ==> if form.broken().len() == 0 {
            e == Error::Internal
        } else {
            validated(Err(e), form.broken())
        },
{
    match form.validate() {
        Err(e) => Err(e),
        Ok(_) => form.into_new_user(version),
    }
}

/// What the client is told once storage has answered a registration.
pub open spec fn registered_spec(
    r: Result<UserTokenResponse, Error>,
    outcome: Result<User, StorageFailure>,
    secret: Seq<u8>,
    lifetime: int,
    now: i64,
) -> bool {
    match outcome {
        Ok(user) => session_opened(r, user, secret, lifetime, now),
        Err(failure) => r matches Err(e) && e == Error::from_storage_spec(failure),
    }
}

/// The second half of a registration: opens a session for the account that
/// storage created, or passes on why it created none. A name or an address
/// that is taken comes out as `AlreadyExists`.
pub fn registered(outcome: Result<User, StorageFailure>, config: &SessionConfig, now: i64) -> (r:
    Result<UserTokenResponse, Error>)
    ensures
        registered_spec(r, outcome, config.secret(), config.lifetime(), now),
{
    match outcome {
        Ok(user) => UserTokenResponse::from(user, config, now),
        Err(failure) => Err(Error::from_storage(failure)),
    }
}

/// `changes` is what is stored for the body `form` on behalf of `claims`: the
/// caller's own account, the name and the address as given, and in place of
/// a password a fresh hash of it.
pub open spec fn applies(changes: UserChanges, form: UpdateUser, claims: Claims, version: usize)
    -> bool {
    &&& changes.id == claims.id
    &&& text_view(changes.username) == text_view(form.username)
    &&& text_view(changes.email) == text_view(form.email)
    &&& changes.password is Some == form.password is Some
    &&& form.password matches Some(plain) ==> is_hash_of(changes.password->0@, plain@, version)
}

/// A body can be applied where it breaks no rule and its new password, if
/// it has one, can be hashed.
pub open spec fn can_apply(form: UpdateUser, version: usize) -> bool {
    &&& form.broken().len() == 0
    &&& form.password matches Some(plain) ==> can_hash(plain@, version)
}

/// Prepares a change to the caller's own account: holds the body to its
/// rules and hashes the new password, if there is one.
pub fn update(claims: Claims, form: UpdateUser, version: usize) -> (r: Result<UserChanges, Error>)
    ensures
        r is Ok <==> can_apply(form, version),
        r matches Ok(changes) ==> applies(changes, form, claims, version),
        r matches Err(e) ==> if form.broken().len() == 0 {
            e == Error::Internal
        } else {
            validated(Err(e), form.broken())
        },
{
    match form.validate() {
        Err(e) => { return Err(e); },
        Ok(_) => {},
    }
    let password = match form.password {
        None => None,
        Some(plain) => match hash(plain.as_str(), version) {
            Ok(hashed) => Some(hashed),
            Err(_) => { return Err(Error::Internal); },
        },
    };
    Ok(UserChanges { id: claims.id, username: form.username, email: form.email, password })
}

/// What a caller is told who asks for its own account.
#[derive(Debug)]
pub enum CurrentUser {
    /// The account.
    Found(UserResponse),
    /// The token is in order but its account is gone: `Unauthorized`.
    Unauthorized,
    /// Storage failed.
    Failed(Error),
}

pub open spec fn current_spec(r: CurrentUser, outcome: Result<User, StorageFailure>) -> bool {
    match outcome {
        Ok(user) => r matches CurrentUser::Found(shown) && shown.shows(user),
        Err(StorageFailure::NotFound) => r is Unauthorized,
        Err(failure) => r matches CurrentUser::Failed(e) && e == Error::from_storage_spec(failure),
    }
}

/// Answers a caller who asks for its own account, from what storage found
/// under the subject of its claims.
pub fn get_current(outcome: Result<User, StorageFailure>) -> (r: CurrentUser)
    ensures
        current_spec(r, outcome),
{
    match outcome {
        Ok(user) => CurrentUser::Found(UserResponse::from(user)),
        Err(StorageFailure::NotFound) => CurrentUser::Unauthorized,
        Err(failure) => CurrentUser::Failed(Error::from_storage(failure)),
    }
}

} // verus!
