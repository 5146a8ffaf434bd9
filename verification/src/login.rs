//! Logging in: validating the credentials, asking the authentication backend, and starting
//! the session, with the reply to each outcome.
use vstd::prelude::*;
use vstd::string::*;
use crate::errors::{rejection_reply, ApiError, ValidationRejection, ValidationRejectionView};
use crate::reply::{account_created, account_reply, message, message_reply, Body, BodyView, Reply, ReplyView, STATUS_BAD_REQUEST, STATUS_CREATED, STATUS_INTERNAL_SERVER_ERROR};
use crate::users::{invalid_credential_fields, CredentialsView, User, UserCredentials, UserView};

verus! {

/// What the authentication backend answered.
#[derive(Debug)]
pub enum Authentication {
    /// The credentials belong to this account.
    Authenticated(User),
    /// No account matches the credentials.
    Rejected,
    /// The backend failed, with this message.
    Errored(String),
}

pub enum AuthenticationView {
    Authenticated(UserView),
    Rejected,
    Errored(Seq<char>),
}

impl View for Authentication {
    type V = AuthenticationView;

    open spec fn view(&self) -> AuthenticationView {
        match self {
            Authentication::Authenticated(u) => AuthenticationView::Authenticated(u@),
            Authentication::Rejected => AuthenticationView::Rejected,
            Authentication::Errored(m) => AuthenticationView::Errored(m@),
        }
    }
}

/// A step of a login.
#[derive(Debug)]
pub enum LoginEvent {
    /// The request arrived with these credentials.
    Received(UserCredentials),
    /// The backend answered.
    Authenticated(Authentication),
    /// Starting the session for `user` succeeded or not.
    SessionStarted { user: User, started: bool },
}

pub enum LoginEventView {
    Received(CredentialsView),
    Authenticated(AuthenticationView),
    SessionStarted { user: UserView, started: bool },
}

impl View for LoginEvent {
    type V = LoginEventView;

    open spec fn view(&self) -> LoginEventView {
        match self {
            LoginEvent::Received(c) => LoginEventView::Received(c@),
            LoginEvent::Authenticated(a) => LoginEventView::Authenticated(a@),
            LoginEvent::SessionStarted { user, started } => LoginEventView::SessionStarted {
                user: user@,
                started: *started,
            },
        }
    }
}

/// What a login asks for next.
#[derive(Debug)]
pub enum LoginAction {
    /// Ask the backend about these credentials.
    Authenticate(UserCredentials),
    /// Start a session for this account.
    StartSession(User),
    /// Answer the request.
    Respond(Reply),
}

pub enum LoginActionView {
    Authenticate(CredentialsView),
    StartSession(UserView),
    Respond(ReplyView),
}

impl View for LoginAction {
    type V = LoginActionView;

    open spec fn view(&self) -> LoginActionView {
        match self {
            LoginAction::Authenticate(c) => LoginActionView::Authenticate(c@),
            LoginAction::StartSession(u) => LoginActionView::StartSession(u@),
            LoginAction::Respond(r) => LoginActionView::Respond(r@),
        }
    }
}

/// The next step of a login after `event`.
pub open spec fn login_step(event: LoginEventView) -> LoginActionView {
    match event {
        LoginEventView::Received(c) => {
            let fields = invalid_credential_fields(c);
            if fields.len() > 0 {
                LoginActionView::Respond(rejection_reply(ValidationRejectionView::Valid(fields)))
            } else {
                LoginActionView::Authenticate(c)
            }
        },
        LoginEventView::Authenticated(AuthenticationView::Authenticated(user)) => LoginActionView::StartSession(user),
        LoginEventView::Authenticated(AuthenticationView::Rejected) => LoginActionView::Respond(
            message_reply(STATUS_BAD_REQUEST, "Invalid credentials"@),
        ),
        LoginEventView::Authenticated(AuthenticationView::Errored(m)) => LoginActionView::Respond(
            message_reply(STATUS_INTERNAL_SERVER_ERROR, m),
        ),
        LoginEventView::SessionStarted { user, started } => if started {
            LoginActionView::Respond(account_reply(user))
        } else {
            LoginActionView::Respond(message_reply(STATUS_INTERNAL_SERVER_ERROR, "Error logging in"@))
        },
    }
}

/// The next step of a login after `event`.
pub fn login(event: LoginEvent) -> (action: LoginAction)
    ensures
        action@ == login_step(event@),
        event matches LoginEvent::Received(c) ==> (invalid_credential_fields(c@).len() == 0 ==> (
        action matches LoginAction::Authenticate(d) && d@ == c@)),
{
    match event {
        LoginEvent::Received(credentials) => {
            let fields = credentials.validate();
            if fields.len() > 0 {
                LoginAction::Respond(ApiError::Valid(ValidationRejection::Valid(fields)).into_response())
            } else {
                LoginAction::Authenticate(credentials)
            }
        },
        LoginEvent::Authenticated(Authentication::Authenticated(user)) => LoginAction::StartSession(user),
        LoginEvent::Authenticated(Authentication::Rejected) => LoginAction::Respond(
            message(STATUS_BAD_REQUEST, String::from_str("Invalid credentials")),
        ),
        LoginEvent::Authenticated(Authentication::Errored(m)) => LoginAction::Respond(
            message(STATUS_INTERNAL_SERVER_ERROR, m),
        ),
        LoginEvent::SessionStarted { user, started } => if started {
            LoginAction::Respond(account_created(user))
        } else {
            LoginAction::Respond(message(STATUS_INTERNAL_SERVER_ERROR, String::from_str("Error logging in")))
        },
    }
}

/// A login is answered with 201 and an account only once a session was started for that
/// account.
pub proof fn lemma_login_success_needs_session(event: LoginEventView, id: i64, email: Seq<char>)
    requires
        login_step(event) == LoginActionView::Respond(
            ReplyView { status: STATUS_CREATED, body: BodyView::Account { id, email } },
        ),
    ensures
        event matches LoginEventView::SessionStarted { user, started } && started && user.id == id
            && user.email == email,
{
}

/// Valid credentials reach the backend as they were received: the same address and password.
pub proof fn lemma_valid_login_authenticates_as_received(credentials: CredentialsView)
    requires
        invalid_credential_fields(credentials).len() == 0,
    ensures
        login_step(LoginEventView::Received(credentials)) matches LoginActionView::Authenticate(asked)
            && asked.email == credentials.email && asked.password == credentials.password,
{
}

/// Credentials that fail validation are never handed to the backend: the login is answered
/// with 400 and the failing fields.
pub proof fn lemma_invalid_login_not_authenticated(credentials: CredentialsView)
    requires
        invalid_credential_fields(credentials).len() > 0,
    ensures
        login_step(LoginEventView::Received(credentials)) == LoginActionView::Respond(ReplyView {
            status: STATUS_BAD_REQUEST,
            body: BodyView::Invalid { message: "Validation error"@, fields: invalid_credential_fields(credentials) },
        }),
{
}

} // verus!
