//! Errors of the API handlers and the replies they are answered with.
use vstd::prelude::*;
use vstd::string::*;
use crate::reply::{
    message, message_reply, Body, BodyView, Reply, ReplyView, STATUS_BAD_REQUEST, STATUS_INTERNAL_SERVER_ERROR,
    STATUS_UNAUTHORIZED,
};

verus! {

/// Why a JSON body was refused before it reached a handler.
#[derive(Debug)]
pub enum ValidationRejection {
    /// The body parsed, but these fields failed validation.
    Valid(Vec<String>),
    /// The body was refused by the JSON extractor, with this status and text.
    Inner { status: u16, body_text: String },
}

pub enum ValidationRejectionView {
    Valid(Seq<Seq<char>>),
    Inner { status: u16, body_text: Seq<char> },
}

impl View for ValidationRejection {
    type V = ValidationRejectionView;

    open spec fn view(&self) -> ValidationRejectionView {
        match self {
            ValidationRejection::Valid(fields) => ValidationRejectionView::Valid(fields@.map_values(|f: String| f@)),
            ValidationRejection::Inner { status, body_text } => ValidationRejectionView::Inner {
                status: *status,
                body_text: body_text@,
            },
        }
    }
}

/// An error of an API handler. The variants that come from outside failures carry the
/// failure's message.
#[derive(Debug)]
pub enum ApiError {
    Valid(ValidationRejection),
    Unknown(String),
    Unauthorized,
    MultiPart(String),
    S3Error(String),
    TranscribeChannelError(String),
}

pub enum ApiErrorView {
    Valid(ValidationRejectionView),
    Unknown(Seq<char>),
    Unauthorized,
    MultiPart(Seq<char>),
    S3Error(Seq<char>),
    TranscribeChannelError(Seq<char>),
}

impl View for ApiError {
    type V = ApiErrorView;

    open spec fn view(&self) -> ApiErrorView {
        match self {
            ApiError::Valid(r) => ApiErrorView::Valid(r@),
            ApiError::Unknown(m) => ApiErrorView::Unknown(m@),
            ApiError::Unauthorized => ApiErrorView::Unauthorized,
            ApiError::MultiPart(m) => ApiErrorView::MultiPart(m@),
            ApiError::S3Error(m) => ApiErrorView::S3Error(m@),
            ApiError::TranscribeChannelError(m) => ApiErrorView::TranscribeChannelError(m@),
        }
    }
}

/// The reply to a refused body: 400 with the failing fields, or the extractor's own status
/// and text.
pub open spec fn rejection_reply(rejection: ValidationRejectionView) -> ReplyView {
    match rejection {
        ValidationRejectionView::Valid(fields) => ReplyView {
            status: STATUS_BAD_REQUEST,
            body: BodyView::Invalid { message: "Validation error"@, fields },
        },
        ValidationRejectionView::Inner { status, body_text } => message_reply(status, body_text),
    }
}

/// The reply to an error.
pub open spec fn error_reply(error: ApiErrorView) -> ReplyView {
    match error {
        ApiErrorView::Valid(rejection) => rejection_reply(rejection),
        ApiErrorView::Unknown(m) => message_reply(STATUS_INTERNAL_SERVER_ERROR, m),
        ApiErrorView::Unauthorized => message_reply(STATUS_UNAUTHORIZED, "Valid login required"@),
        ApiErrorView::MultiPart(m) => message_reply(STATUS_BAD_REQUEST, "Error parsing form: "@ + m),
        ApiErrorView::S3Error(m) => message_reply(STATUS_BAD_REQUEST, "Upload error: "@ + m),
        ApiErrorView::TranscribeChannelError(m) => message_reply(STATUS_INTERNAL_SERVER_ERROR, "Upload error: "@ + m),
    }
}

/// The reply to a refused body.
pub fn handle_validation_rejection(rejection: ValidationRejection) -> (reply: Reply)
    ensures
        reply@ == rejection_reply(rejection@),
{
    match rejection {
        ValidationRejection::Valid(fields) => Reply {
            status: STATUS_BAD_REQUEST,
            body: Body::Invalid { message: String::from_str("Validation error"), fields },
        },
        ValidationRejection::Inner { status, body_text } => message(status, body_text),
    }
}

impl ApiError {
    /// The reply to this error.
    pub fn into_response(self) -> (reply: Reply)
        ensures
            reply@ == error_reply(self@),
    {
        match self {
            ApiError::Valid(rejection) => handle_validation_rejection(rejection),
            ApiError::Unknown(m) => message(STATUS_INTERNAL_SERVER_ERROR, m),
            ApiError::Unauthorized => message(STATUS_UNAUTHORIZED, String::from_str("Valid login required")),
            ApiError::MultiPart(m) => message(
                STATUS_BAD_REQUEST,
                String::from_str("Error parsing form: ").concat(m.as_str()),
            ),
            ApiError::S3Error(m) => message(STATUS_BAD_REQUEST, String::from_str("Upload error: ").concat(m.as_str())),
            ApiError::TranscribeChannelError(m) => message(
                STATUS_INTERNAL_SERVER_ERROR,
                String::from_str("Upload error: ").concat(m.as_str()),
            ),
        }
    }
}

/// Every error is answered with a client-error or server-error status; a missing login with
/// 401 and nothing else.
pub proof fn lemma_error_statuses(error: ApiErrorView)
    requires
        error matches ApiErrorView::Valid(ValidationRejectionView::Inner { status, .. }) ==> 400 <= status < 600,
    ensures
        400 <= error_reply(error).status < 600,
        error is Unauthorized ==> error_reply(error) == message_reply(STATUS_UNAUTHORIZED, "Valid login required"@),
{
}

} // verus!
