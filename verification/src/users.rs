//! Accounts: the credentials a client sends, their validation, and the registration of a new
//! account (password hashing and the reply to the store's answer).
use vstd::prelude::*;
use vstd::string::*;
use validator::{ValidateEmail, ValidateLength};
use argon2::PasswordHasher;
use crate::errors::{rejection_reply, ValidationRejection, ValidationRejectionView, ApiError};
use crate::reply::{account_created, account_reply, make_internal_err, message, message_reply, Body, BodyView, Reply, ReplyView, STATUS_BAD_REQUEST, STATUS_CREATED, STATUS_INTERNAL_SERVER_ERROR};

verus! {

/// An account.
#[derive(Debug)]
pub struct User {
    pub id: i64,
    pub email: String,
    pub password_hash: String,
}

pub struct UserView {
    pub id: i64,
    pub email: Seq<char>,
    pub password_hash: Seq<char>,
}

impl View for User {
    type V = UserView;

    open spec fn view(&self) -> UserView {
        UserView { id: self.id, email: self.email@, password_hash: self.password_hash@ }
    }
}

impl Clone for User {
    fn clone(&self) -> (copy: Self)
        ensures
            copy@ == self@,
    {
        User { id: self.id, email: self.email.clone(), password_hash: self.password_hash.clone() }
    }
}

/// Whether validator's e-mail check (the HTML5 form of an address) accepts this text.
pub uninterp spec fn email_is_valid(text: Seq<char>) -> bool;

/// `validator::ValidateEmail::validate_email`. Its source refuses any text without an `@`.
#[verifier::external_body]
fn validate_email(text: &str) -> (valid: bool)
    ensures
        valid == email_is_valid(text@),
        valid ==> text@.contains('@'),
{
    text.validate_email()
}

/// `validator::ValidateLength::validate_length` with a lower and an upper bound, which counts
/// characters.
#[verifier::external_body]
fn validate_length(text: &str, min: u64, max: u64) -> (valid: bool)
    ensures
        valid == (min <= text@.len() && text@.len() <= max),
{
    text.validate_length(Some(min), Some(max), None)
}

/// Shortest password accepted, in characters.
pub const PASSWORD_MIN_LENGTH: u64 = 8;

/// Longest password accepted, in characters.
pub const PASSWORD_MAX_LENGTH: u64 = 64;

/// The credentials of a sign-up or a login: an e-mail address and a password of 8 to 64
/// characters.
#[derive(Debug)]
pub struct UserCredentials {
    pub email: String,
    pub password: String,
}

pub struct CredentialsView {
    pub email: Seq<char>,
    pub password: Seq<char>,
}

impl View for UserCredentials {
    type V = CredentialsView;

    open spec fn view(&self) -> CredentialsView {
        CredentialsView { email: self.email@, password: self.password@ }
    }
}

pub open spec fn password_length_ok(password: Seq<char>) -> bool {
    PASSWORD_MIN_LENGTH <= password.len() && password.len() <= PASSWORD_MAX_LENGTH
}

/// The names of the fields of `c` that fail validation, in declaration order.
pub open spec fn invalid_credential_fields(c: CredentialsView) -> Seq<Seq<char>> {
    (if email_is_valid(c.email) { Seq::empty() } else { seq!["email"@] })
        + (if password_length_ok(c.password) { Seq::empty() } else { seq!["password"@] })
}

impl UserCredentials {
    /// The names of the fields that fail validation (`email`, `password`), in declaration
    /// order; empty when the credentials are valid.
    pub fn validate(&self) -> (fields: Vec<String>)
        ensures
            fields@.map_values(|f: String| f@) == invalid_credential_fields(self@),
            !self@.email.contains('@') ==> fields@.len() > 0 && fields@[0]@ == "email"@,
    {
        let mut fields: Vec<String> = Vec::new();
        if !validate_email(self.email.as_str()) {
            fields.push(String::from_str("email"));
        }
        if !validate_length(self.password.as_str(), PASSWORD_MIN_LENGTH, PASSWORD_MAX_LENGTH) {
            fields.push(String::from_str("password"));
        }
        assert(fields@.map_values(|f: String| f@) =~= invalid_credential_fields(self@));
        fields
    }
}

/// The body of the first sign-up endpoint: an e-mail address (validated) and a password.
#[derive(Debug)]
pub struct CreateUser {
    pub email: String,
    pub password: String,
}

impl CreateUser {
    /// The names of the fields that fail validation: `email` when the address is not valid.
    pub fn validate(&self) -> (fields: Vec<String>)
        ensures
            fields@.map_values(|f: String| f@) == (if email_is_valid(self.email@) {
                Seq::<Seq<char>>::empty()
            } else {
                seq!["email"@]
            }),
            !self.email@.contains('@') ==> fields@.len() == 1 && fields@[0]@ == "email"@,
    {
        let mut fields: Vec<String> = Vec::new();
        if !validate_email(self.email.as_str()) {
            fields.push(String::from_str("email"));
        }
        assert(fields@.map_values(|f: String| f@) =~= (if email_is_valid(self.email@) {
            Seq::<Seq<char>>::empty()
        } else {
            seq!["email"@]
        }));
        fields
    }
}


/// `argon2::password_hash::Error` (the error of salt parsing and hashing), held as an opaque
/// value.
#[verifier::external_type_specification]
#[verifier::external_body]
pub struct ExPasswordHashError(argon2::password_hash::Error);

/// The PHC string that `Argon2::default().hash_password` makes of this password with the
/// salt given in B64; `None` when hashing fails (e.g. a salt that is not valid B64).
pub uninterp spec fn argon2_phc(password: Seq<char>, salt: Seq<char>) -> Option<Seq<char>>;

/// Hashes `password` (its UTF-8 bytes) with Argon2 under default parameters and the B64 salt
/// `salt` (`SaltString::from_b64`, then `PasswordHasher::hash_password`), handing back the
/// PHC string.
#[verifier::external_body]
fn hash_password(password: &str, salt: &str) -> (hash: Result<String, argon2::password_hash::Error>)
    ensures
        hash is Ok <==> argon2_phc(password@, salt@) is Some,
        hash is Ok ==> hash->Ok_0@ == argon2_phc(password@, salt@)->0,
{
    let salt = argon2::password_hash::SaltString::from_b64(salt)?;
    let hash = argon2::Argon2::default().hash_password(password.as_bytes(), &salt)?;
    Ok(hash.to_string())
}

/// A fresh random salt: `SaltString::generate(&mut OsRng)`, which B64-encodes 16 random bytes
/// (22 characters). Which salt comes out is left open: it is drawn from the OS. Any such salt
/// is valid B64 of 16 bytes, which `hash_password` accepts with any password short enough
/// (argon2 refuses only salts under 8 bytes and passwords over `u32::MAX` bytes).
#[verifier::external_body]
fn generate_salt() -> (salt: String)
    ensures
        salt@.len() == 22,
        forall|p: Seq<char>| p.len() <= PASSWORD_MAX_LENGTH ==> (#[trigger] argon2_phc(p, salt@)) is Some,
{
    argon2::password_hash::SaltString::generate(&mut argon2::password_hash::rand_core::OsRng).as_str().to_string()
}

/// How storing a new account failed: a database error (with its code, when it has one), or
/// any other failure.
#[derive(Debug)]
pub enum InsertFailure {
    Database { code: Option<String> },
    Other,
}

pub enum InsertFailureView {
    Database { code: Option<Seq<char>> },
    Other,
}

impl View for InsertFailure {
    type V = InsertFailureView;

    open spec fn view(&self) -> InsertFailureView {
        match self {
            InsertFailure::Database { code } => InsertFailureView::Database { code: code.deep_view() },
            InsertFailure::Other => InsertFailureView::Other,
        }
    }
}

/// SQLite's code for a violated uniqueness constraint: the e-mail address is taken.
pub const UNIQUE_VIOLATION_CODE: &'static str = "2067";

/// The reply to a failed insert of a new account.
pub open spec fn insert_failure_reply_of(failure: InsertFailureView) -> ReplyView {
    match failure {
        InsertFailureView::Database { code: Some(code) } => if code == UNIQUE_VIOLATION_CODE@ {
            message_reply(STATUS_BAD_REQUEST, "User with email already exists"@)
        } else {
            message_reply(STATUS_INTERNAL_SERVER_ERROR, "Unknown error occured: "@ + code)
        },
        _ => message_reply(STATUS_INTERNAL_SERVER_ERROR, "Unknown error occured"@),
    }
}

/// The reply to a failed insert of a new account: 400 when the address is taken, 500 with the
/// database's code otherwise.
pub fn insert_failure_reply(failure: &InsertFailure) -> (reply: Reply)
    ensures
        reply@ == insert_failure_reply_of(failure@),
{
    match failure {
        InsertFailure::Database { code: Some(code) } => {
            let taken = String::from_str(UNIQUE_VIOLATION_CODE);
            if *code == taken {
                message(STATUS_BAD_REQUEST, String::from_str("User with email already exists"))
            } else {
                message(STATUS_INTERNAL_SERVER_ERROR, String::from_str("Unknown error occured: ").concat(code.as_str()))
            }
        },
        _ => message(STATUS_INTERNAL_SERVER_ERROR, String::from_str("Unknown error occured")),
    }
}

/// What a sign-up asks for next: store this account (its id is `-1` until the store assigns
/// one), or answer at once.
#[derive(Debug)]
pub enum CreateAction {
    Insert(User),
    Respond(Reply),
}

pub enum CreateActionView {
    Insert(UserView),
    Respond(ReplyView),
}

impl View for CreateAction {
    type V = CreateActionView;

    open spec fn view(&self) -> CreateActionView {
        match self {
            CreateAction::Insert(u) => CreateActionView::Insert(u@),
            CreateAction::Respond(r) => CreateActionView::Respond(r@),
        }
    }
}

/// A sign-up with these credentials and this salt: refused with the failing fields when the
/// credentials are invalid, refused with 500 when hashing fails, otherwise an account to
/// store with the password's hash.
pub open spec fn sign_up(credentials: CredentialsView, salt: Seq<char>) -> CreateActionView {
    let fields = invalid_credential_fields(credentials);
    if fields.len() > 0 {
        CreateActionView::Respond(rejection_reply(ValidationRejectionView::Valid(fields)))
    } else {
        match argon2_phc(credentials.password, salt) {
            None => CreateActionView::Respond(message_reply(STATUS_INTERNAL_SERVER_ERROR, "Failed to hash password"@)),
            Some(hash) => CreateActionView::Insert(UserView { id: -1i64, email: credentials.email, password_hash: hash }),
        }
    }
}

/// A sign-up with `payload`, hashing with the given B64 salt.
pub fn create_with_salt(payload: UserCredentials, salt: &str) -> (action: CreateAction)
    ensures
        action@ == sign_up(payload@, salt@),
        action is Insert <==> (email_is_valid(payload@.email) && password_length_ok(payload@.password)
            && argon2_phc(payload@.password, salt@) is Some),
        action matches CreateAction::Insert(u) ==> u.id == -1 && u.email@ == payload@.email
            && u.password_hash@ == argon2_phc(payload@.password, salt@)->0,
{
    let fields = payload.validate();
    if fields.len() > 0 {
        return CreateAction::Respond(ApiError::Valid(ValidationRejection::Valid(fields)).into_response());
    }
    match hash_password(payload.password.as_str(), salt) {
        Err(_) => CreateAction::Respond(make_internal_err("Failed to hash password")),
        Ok(hash) => CreateAction::Insert(User { id: -1, email: payload.email, password_hash: hash }),
    }
}

/// A sign-up with `payload`, hashing with a fresh random salt.
pub fn create(payload: UserCredentials) -> (action: CreateAction)
    ensures
        exists|salt: Seq<char>| salt.len() == 22 && action@ == sign_up(payload@, salt),
        email_is_valid(payload@.email) && password_length_ok(payload@.password) ==> action is Insert,
{
    let fields = payload.validate();
    if fields.len() > 0 {
        let action = CreateAction::Respond(ApiError::Valid(ValidationRejection::Valid(fields)).into_response());
        let ghost witness = Seq::new(22, |i: int| 'a');
        assert(fields@.map_values(|f: String| f@).len() == fields@.len());
        assert(witness.len() == 22);
        assert(action@ == sign_up(payload@, witness));
        return action;
    }
    let salt = generate_salt();
    assert(fields@.map_values(|f: String| f@).len() == fields@.len());
    proof {
        if password_length_ok(payload@.password) {
            assert(argon2_phc(payload@.password, salt@) is Some);
        }
    }
    create_with_salt(payload, salt.as_str())
}

/// The reply once the store has answered: 201 with the account and its assigned id, or the
/// reply to the failure.
pub fn finish_create(user: User, outcome: Result<i64, InsertFailure>) -> (reply: Reply)
    ensures
        match outcome {
            Ok(id) => reply@ == account_reply(UserView { id, ..user@ }),
            Err(failure) => reply@ == insert_failure_reply_of(failure@),
        },
{
    match outcome {
        Ok(id) => {
            let mut user = user;
            user.id = id;
            account_created(user)
        },
        Err(failure) => insert_failure_reply(&failure),
    }
}

/// A stored sign-up carries the address and the hash of the whole password under the salt,
/// and valid credentials are stored whenever that hash exists.
pub proof fn lemma_sign_up_stores_whole_password_hash(credentials: CredentialsView, salt: Seq<char>)
    ensures
        sign_up(credentials, salt) matches CreateActionView::Insert(u) ==> u.id == -1 && u.email == credentials.email
            && argon2_phc(credentials.password, salt) == Some(u.password_hash),
        email_is_valid(credentials.email) && password_length_ok(credentials.password) && argon2_phc(
            credentials.password,
            salt,
        ) is Some ==> sign_up(credentials, salt) is Insert,
{
}

/// Invalid credentials never reach the store: the sign-up is answered with 400 and the
/// failing fields, whatever the salt.
pub proof fn lemma_invalid_credentials_not_stored(credentials: CredentialsView, salt: Seq<char>)
    requires
        !email_is_valid(credentials.email) || !password_length_ok(credentials.password),
    ensures
        sign_up(credentials, salt) == CreateActionView::Respond(ReplyView {
            status: STATUS_BAD_REQUEST,
            body: BodyView::Invalid { message: "Validation error"@, fields: invalid_credential_fields(credentials) },
        }),
{
}

/// Signing up with an address that is already taken is answered with 400.
pub proof fn lemma_taken_email_refused()
    ensures
        insert_failure_reply_of(InsertFailureView::Database { code: Some(UNIQUE_VIOLATION_CODE@) })
            == message_reply(STATUS_BAD_REQUEST, "User with email already exists"@),
{
}

} // verus!
