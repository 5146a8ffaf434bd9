//! HTTP replies of the API: a status code and a JSON body of one of a few shapes.
use vstd::prelude::*;
use vstd::string::*;
use crate::users::{User, UserView};

verus! {

pub const STATUS_OK: u16 = 200;
pub const STATUS_CREATED: u16 = 201;
pub const STATUS_BAD_REQUEST: u16 = 400;
pub const STATUS_UNAUTHORIZED: u16 = 401;
pub const STATUS_INTERNAL_SERVER_ERROR: u16 = 500;

/// The JSON body of a reply.
#[derive(Debug)]
pub enum Body {
    /// `{"message": ...}`
    Message(String),
    /// `{"message": ..., "fields": [...]}`: the fields that failed validation.
    Invalid { message: String, fields: Vec<String> },
    /// `{"message": ..., "location": ...}`: where an upload was stored.
    Uploaded { message: String, location: String },
    /// An account, by its id and e-mail address: a reply never holds a password hash.
    Account { id: i64, email: String },
}

pub enum BodyView {
    Message(Seq<char>),
    Invalid { message: Seq<char>, fields: Seq<Seq<char>> },
    Uploaded { message: Seq<char>, location: Seq<char> },
    Account { id: i64, email: Seq<char> },
}

impl View for Body {
    type V = BodyView;

    open spec fn view(&self) -> BodyView {
        match self {
            Body::Message(m) => BodyView::Message(m@),
            Body::Invalid { message, fields } => BodyView::Invalid {
                message: message@,
                fields: fields@.map_values(|f: String| f@),
            },
            Body::Uploaded { message, location } => BodyView::Uploaded { message: message@, location: location@ },
            Body::Account { id, email } => BodyView::Account { id: *id, email: email@ },
        }
    }
}

/// A reply: status code and body.
#[derive(Debug)]
pub struct Reply {
    pub status: u16,
    pub body: Body,
}

pub struct ReplyView {
    pub status: u16,
    pub body: BodyView,
}

impl View for Reply {
    type V = ReplyView;

    open spec fn view(&self) -> ReplyView {
        ReplyView { status: self.status, body: self.body@ }
    }
}

/// A reply with status `status` and body `{"message": message}`.
pub open spec fn message_reply(status: u16, message: Seq<char>) -> ReplyView {
    ReplyView { status, body: BodyView::Message(message) }
}

/// A reply with status `status` and body `{"message": message}`.
pub fn message(status: u16, text: String) -> (reply: Reply)
    ensures
        reply@ == message_reply(status, text@),
{
    Reply { status, body: Body::Message(text) }
}

/// The reply that hands back an account: status 201 with the account's id and e-mail address,
/// and without its password hash.
pub open spec fn account_reply(user: UserView) -> ReplyView {
    ReplyView { status: STATUS_CREATED, body: BodyView::Account { id: user.id, email: user.email } }
}

/// The reply that hands back `user`: 201 with its id and e-mail address only.
pub fn account_created(user: User) -> (reply: Reply)
    ensures
        reply@ == account_reply(user@),
{
    Reply { status: STATUS_CREATED, body: Body::Account { id: user.id, email: user.email } }
}

/// A server-side failure: status 500 with `{"message": message}`.
pub fn make_internal_err(message: &str) -> (reply: Reply)
    ensures
        reply@ == message_reply(STATUS_INTERNAL_SERVER_ERROR, message@),
{
    Reply { status: STATUS_INTERNAL_SERVER_ERROR, body: Body::Message(String::from_str(message)) }
}

/// A failure of the request: status 400 with `{"message": message}`.
pub fn make_user_err(message: &str) -> (reply: Reply)
    ensures
        reply@ == message_reply(STATUS_BAD_REQUEST, message@),
{
    Reply { status: STATUS_BAD_REQUEST, body: Body::Message(String::from_str(message)) }
}

} // verus!
