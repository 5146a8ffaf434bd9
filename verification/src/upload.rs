//! Uploading a media file: the form is read field by field, the first `file` field is stored
//! under the uploader's id, and the request is answered with where it went.
use vstd::prelude::*;
use vstd::string::*;
use crate::errors::{error_reply, ApiError, ApiErrorView};
use crate::reply::{message_reply, Body, BodyView, Reply, ReplyView, STATUS_INTERNAL_SERVER_ERROR, STATUS_OK, STATUS_UNAUTHORIZED};
use crate::text::{decimal, decimal_text, lemma_decimal_text_injective};

verus! {

/// The bucket that uploads are stored in.
pub const UPLOAD_BUCKET: &'static str = "video-transcriber";

/// The name of the form field that carries the file.
pub const FILE_FIELD: &'static str = "file";

/// Where an upload stands.
#[derive(Debug)]
pub enum UploadState {
    /// Reading the form's fields for the logged-in user `user_id`.
    Reading { user_id: i64 },
    /// Storing the file under `key`.
    Storing { key: String },
    /// Answered.
    Finished,
}

pub enum UploadStateView {
    Reading { user_id: i64 },
    Storing { key: Seq<char> },
    Finished,
}

impl View for UploadState {
    type V = UploadStateView;

    open spec fn view(&self) -> UploadStateView {
        match self {
            UploadState::Reading { user_id } => UploadStateView::Reading { user_id: *user_id },
            UploadState::Storing { key } => UploadStateView::Storing { key: key@ },
            UploadState::Finished => UploadStateView::Finished,
        }
    }
}

/// The outcome of reading the form or storing the file.
#[derive(Debug)]
pub enum UploadEvent {
    /// The next field of the form, with its name and file name where it has them.
    Field { name: Option<String>, file_name: Option<String> },
    /// The form has no more fields.
    NoMoreFields,
    /// The file was read and stored.
    Stored,
    /// Reading the form or storing the file failed.
    Failed(ApiError),
}

pub enum UploadEventView {
    Field { name: Option<Seq<char>>, file_name: Option<Seq<char>> },
    NoMoreFields,
    Stored,
    Failed(ApiErrorView),
}

impl View for UploadEvent {
    type V = UploadEventView;

    open spec fn view(&self) -> UploadEventView {
        match self {
            UploadEvent::Field { name, file_name } => UploadEventView::Field {
                name: name.deep_view(),
                file_name: file_name.deep_view(),
            },
            UploadEvent::NoMoreFields => UploadEventView::NoMoreFields,
            UploadEvent::Stored => UploadEventView::Stored,
            UploadEvent::Failed(e) => UploadEventView::Failed(e@),
        }
    }
}

/// What an upload asks for next.
#[derive(Debug)]
pub enum UploadAction {
    /// Read the form's next field.
    NextField,
    /// Read the current field's bytes and store them in `bucket` under `key`.
    Store { bucket: String, key: String },
    /// Answer the request.
    Respond(Reply),
    /// Nothing: the event does not belong to the upload's state.
    Ignore,
}

pub enum UploadActionView {
    NextField,
    Store { bucket: Seq<char>, key: Seq<char> },
    Respond(ReplyView),
    Ignore,
}

impl View for UploadAction {
    type V = UploadActionView;

    open spec fn view(&self) -> UploadActionView {
        match self {
            UploadAction::NextField => UploadActionView::NextField,
            UploadAction::Store { bucket, key } => UploadActionView::Store { bucket: bucket@, key: key@ },
            UploadAction::Respond(r) => UploadActionView::Respond(r@),
            UploadAction::Ignore => UploadActionView::Ignore,
        }
    }
}

/// The key under which user `user_id` stores the file `file_name`: `<user id>/<file name>`.
pub open spec fn object_key_text(user_id: i64, file_name: Seq<char>) -> Seq<char> {
    decimal_text(user_id as int) + "/"@ + file_name
}

/// The reply to a stored upload.
pub open spec fn uploaded_reply(key: Seq<char>) -> ReplyView {
    ReplyView {
        status: STATUS_OK,
        body: BodyView::Uploaded { message: "File uploaded successfully"@, location: key },
    }
}

/// An upload by the logged-in user, if any: refused with 401 without one.
pub open spec fn upload_start(user_id: Option<i64>) -> (UploadStateView, UploadActionView) {
    match user_id {
        None => (UploadStateView::Finished, UploadActionView::Respond(error_reply(ApiErrorView::Unauthorized))),
        Some(id) => (UploadStateView::Reading { user_id: id }, UploadActionView::NextField),
    }
}

pub open spec fn answered(reply: ReplyView) -> (UploadStateView, UploadActionView) {
    (UploadStateView::Finished, UploadActionView::Respond(reply))
}

/// The upload's next state and action after `event`.
pub open spec fn upload_step(state: UploadStateView, event: UploadEventView) -> (UploadStateView, UploadActionView) {
    match state {
        UploadStateView::Reading { user_id } => match event {
            UploadEventView::Field { name, file_name } => if name != Some(FILE_FIELD@) {
                (state, UploadActionView::NextField)
            } else {
                match file_name {
                    None => answered(message_reply(STATUS_INTERNAL_SERVER_ERROR, "Missing file name"@)),
                    Some(f) => (
                        UploadStateView::Storing { key: object_key_text(user_id, f) },
                        UploadActionView::Store { bucket: UPLOAD_BUCKET@, key: object_key_text(user_id, f) },
                    ),
                }
            },
            UploadEventView::NoMoreFields => answered(message_reply(STATUS_INTERNAL_SERVER_ERROR, "No file found"@)),
            UploadEventView::Stored => (state, UploadActionView::Ignore),
            UploadEventView::Failed(e) => answered(error_reply(e)),
        },
        UploadStateView::Storing { key } => match event {
            UploadEventView::Stored => answered(uploaded_reply(key)),
            UploadEventView::Failed(e) => answered(error_reply(e)),
            _ => (state, UploadActionView::Ignore),
        },
        UploadStateView::Finished => (state, UploadActionView::Ignore),
    }
}

/// Starts an upload for the logged-in user `user_id` (`None` when nobody is logged in).
pub fn upload(user_id: Option<i64>) -> (started: (UploadState, UploadAction))
    ensures
        started.0@ == upload_start(user_id).0,
        started.1@ == upload_start(user_id).1,
{
    match user_id {
        None => (UploadState::Finished, UploadAction::Respond(ApiError::Unauthorized.into_response())),
        Some(id) => (UploadState::Reading { user_id: id }, UploadAction::NextField),
    }
}

impl UploadState {
    /// The next action after `event`, with the upload moved on accordingly.
    pub fn step(&mut self, event: UploadEvent) -> (action: UploadAction)
        ensures
            final(self)@ == upload_step(old(self)@, event@).0,
            action@ == upload_step(old(self)@, event@).1,
    {
        match self {
            UploadState::Reading { user_id } => {
                let user_id = *user_id;
                match event {
                    UploadEvent::Field { name, file_name } => {
                        let is_file = match &name {
                            Some(n) => *n == String::from_str(FILE_FIELD),
                            None => false,
                        };
                        if !is_file {
                            UploadAction::NextField
                        } else {
                            match file_name {
                                None => {
                                    *self = UploadState::Finished;
                                    UploadAction::Respond(ApiError::Unknown(String::from_str("Missing file name")).into_response())
                                },
                                Some(f) => {
                                    let key = decimal(user_id).concat("/").concat(f.as_str());
                                    *self = UploadState::Storing { key: key.clone() };
                                    UploadAction::Store { bucket: String::from_str(UPLOAD_BUCKET), key }
                                },
                            }
                        }
                    },
                    UploadEvent::NoMoreFields => {
                        *self = UploadState::Finished;
                        UploadAction::Respond(ApiError::Unknown(String::from_str("No file found")).into_response())
                    },
                    UploadEvent::Stored => UploadAction::Ignore,
                    UploadEvent::Failed(e) => {
                        *self = UploadState::Finished;
                        UploadAction::Respond(e.into_response())
                    },
                }
            },
            UploadState::Storing { key } => {
                match event {
                    UploadEvent::Stored => {
                        let location = key.clone();
                        *self = UploadState::Finished;
                        UploadAction::Respond(Reply {
                            status: STATUS_OK,
                            body: Body::Uploaded { message: String::from_str("File uploaded successfully"), location },
                        })
                    },
                    UploadEvent::Failed(e) => {
                        *self = UploadState::Finished;
                        UploadAction::Respond(e.into_response())
                    },
                    _ => UploadAction::Ignore,
                }
            },
            UploadState::Finished => UploadAction::Ignore,
        }
    }
}

/// Nobody who is not logged in can upload: the request is answered with 401 and nothing is
/// stored.
pub proof fn lemma_upload_needs_login()
    ensures
        upload_start(None) == answered(message_reply(STATUS_UNAUTHORIZED, "Valid login required"@)),
{
}

/// A file is only ever stored under the uploader's own id: `<user id>/<file name>`, with the
/// file name of a `file` field.
pub proof fn lemma_stored_under_uploader(state: UploadStateView, event: UploadEventView)
    requires
        upload_step(state, event).1 is Store,
    ensures
        state matches UploadStateView::Reading { user_id } && event matches UploadEventView::Field {
            name: Some(n),
            file_name: Some(f),
        } && n == FILE_FIELD@ && upload_step(state, event).1 == (UploadActionView::Store {
            bucket: UPLOAD_BUCKET@,
            key: object_key_text(user_id, f),
        }),
{
}

/// A successful upload is answered with the key that the file was stored under, and only
/// once it was stored.
pub proof fn lemma_success_reports_stored_key(state: UploadStateView, event: UploadEventView, key: Seq<char>)
    requires
        upload_step(state, event).1 == UploadActionView::Respond(uploaded_reply(key)),
    ensures
        state == (UploadStateView::Storing { key }),
        event is Stored,
{
}

/// Two users never store under the same key: a key names its uploader and its file name.
pub proof fn lemma_keys_name_their_uploader(a: i64, file_a: Seq<char>, b: i64, file_b: Seq<char>)
    ensures
        object_key_text(a, file_a) == object_key_text(b, file_b) ==> a == b && file_a == file_b,
{
    reveal_strlit("/");
    lemma_decimal_text_injective(a as int, b as int);
    lemma_decimal_text_injective(b as int, a as int);
    let ta = decimal_text(a as int);
    let tb = decimal_text(b as int);
    let ka = object_key_text(a, file_a);
    let kb = object_key_text(b, file_b);
    if ka == kb {
        if ta.len() < tb.len() {
            assert(ka[ta.len() as int] == '/');
            assert(kb[ta.len() as int] == tb[ta.len() as int]);
        } else if tb.len() < ta.len() {
            assert(kb[tb.len() as int] == '/');
            assert(ka[tb.len() as int] == ta[tb.len() as int]);
        } else {
            assert(ta =~= ka.subrange(0, ta.len() as int));
            assert(tb =~= kb.subrange(0, tb.len() as int));
            assert(file_a =~= ka.subrange(ta.len() as int + 1, ka.len() as int));
            assert(file_b =~= kb.subrange(tb.len() as int + 1, kb.len() as int));
        }
    }
}

/// An answered upload stays answered and asks for nothing more.
pub proof fn lemma_answered_upload_is_inert(event: UploadEventView)
    ensures
        upload_step(UploadStateView::Finished, event) == (UploadStateView::Finished, UploadActionView::Ignore),
{
}

} // verus!
