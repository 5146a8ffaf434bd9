use video_transcriber::errors::{handle_validation_rejection, ApiError, ValidationRejection};
use video_transcriber::login::{login, Authentication, LoginAction, LoginEvent};
use video_transcriber::reply::{make_internal_err, make_user_err, Body, Reply};
use video_transcriber::transcribe_task::TranscribeTask;
use video_transcriber::upload::{upload, UploadAction, UploadEvent, UploadState};
use video_transcriber::users::{create, create_with_salt, finish_create, insert_failure_reply, CreateAction, CreateUser, InsertFailure, User, UserCredentials};

fn message_of(reply: &Reply) -> String {
    match &reply.body {
        Body::Message(m) => m.clone(),
        other => panic!("unexpected {:?}", other),
    }
}

fn credentials(email: &str, password: &str) -> UserCredentials {
    UserCredentials { email: email.to_string(), password: password.to_string() }
}

fn user(id: i64) -> User {
    User { id, email: "a@b.com".to_string(), password_hash: "h".to_string() }
}

#[test]
fn error_replies() {
    let r = make_internal_err("boom");
    assert_eq!(r.status, 500);
    assert_eq!(message_of(&r), "boom");
    let r = make_user_err("bad");
    assert_eq!(r.status, 400);
    assert_eq!(message_of(&r), "bad");

    let r = ApiError::Unauthorized.into_response();
    assert_eq!((r.status, message_of(&r)), (401, "Valid login required".to_string()));
    let r = ApiError::Unknown("oops".to_string()).into_response();
    assert_eq!((r.status, message_of(&r)), (500, "oops".to_string()));
    let r = ApiError::MultiPart("truncated".to_string()).into_response();
    assert_eq!((r.status, message_of(&r)), (400, "Error parsing form: truncated".to_string()));
    let r = ApiError::S3Error("denied".to_string()).into_response();
    assert_eq!((r.status, message_of(&r)), (400, "Upload error: denied".to_string()));
    let r = ApiError::TranscribeChannelError("closed".to_string()).into_response();
    assert_eq!((r.status, message_of(&r)), (500, "Upload error: closed".to_string()));
}

#[test]
fn validation_rejections() {
    let r = handle_validation_rejection(ValidationRejection::Valid(vec!["email".to_string()]));
    assert_eq!(r.status, 400);
    match r.body {
        Body::Invalid { message, fields } => {
            assert_eq!(message, "Validation error");
            assert_eq!(fields, vec!["email".to_string()]);
        },
        other => panic!("unexpected {:?}", other),
    }
    let r = ApiError::Valid(ValidationRejection::Inner { status: 415, body_text: "Expected JSON".to_string() }).into_response();
    assert_eq!((r.status, message_of(&r)), (415, "Expected JSON".to_string()));
}

#[test]
fn credential_validation() {
    assert!(credentials("someone@example.com", "12345678").validate().is_empty());
    assert_eq!(credentials("not-an-address", "12345678").validate(), vec!["email".to_string()]);
    assert_eq!(credentials("someone@example.com", "1234567").validate(), vec!["password".to_string()]);
    assert_eq!(CreateUser { email: "nobody".to_string(), password: String::new() }.validate(), vec!["email".to_string()]);
    assert_eq!(credentials("x", &"p".repeat(65)).validate(), vec!["email".to_string(), "password".to_string()]);
    assert!(credentials("someone@example.com", &"ü".repeat(64)).validate().is_empty());
    let c = CreateUser { email: "bad".to_string(), password: "".to_string() };
    assert_eq!(c.validate(), vec!["email".to_string()]);
    let c = CreateUser { email: "ok@example.org".to_string(), password: "".to_string() };
    assert!(c.validate().is_empty());
}

#[test]
fn sign_up_hashes_with_the_salt() {
    match create_with_salt(credentials("someone@example.com", "correct horse"), "c2FsdHNhbHRzYWx0") {
        CreateAction::Insert(u) => {
            assert_eq!(u.id, -1);
            assert_eq!(u.email, "someone@example.com");
            assert!(u.password_hash.starts_with("$argon2id$v=19$m=19456,t=2,p=1$c2FsdHNhbHRzYWx0$"));
            assert_ne!(u.password_hash, "correct horse");
        },
        other => panic!("unexpected {:?}", other),
    }
}

#[test]
fn sign_up_with_bad_salt_fails() {
    match create_with_salt(credentials("someone@example.com", "correct horse"), "!") {
        CreateAction::Respond(r) => assert_eq!((r.status, message_of(&r)), (500, "Failed to hash password".to_string())),
        other => panic!("unexpected {:?}", other),
    }
}

#[test]
fn sign_up_with_random_salt() {
    match create(credentials("someone@example.com", "correct horse")) {
        CreateAction::Insert(u) => {
            assert!(u.password_hash.starts_with("$argon2id$v=19$m=19456,t=2,p=1$"));
            let salt = u.password_hash.split('$').nth(4).unwrap();
            assert_eq!(salt.chars().count(), 22);
        },
        other => panic!("unexpected {:?}", other),
    }
}

#[test]
fn sign_up_refuses_invalid_credentials() {
    match create(credentials("nobody", "short")) {
        CreateAction::Respond(r) => {
            assert_eq!(r.status, 400);
            assert!(matches!(r.body, Body::Invalid { .. }));
        },
        other => panic!("unexpected {:?}", other),
    }
}

#[test]
fn sign_up_store_answers() {
    let r = finish_create(user(-1), Ok(12));
    assert_eq!(r.status, 201);
    match r.body {
        Body::Account { id, email } => assert_eq!((id, email), (12, "a@b.com".to_string())),
        other => panic!("unexpected {:?}", other),
    }
    let r = finish_create(user(-1), Err(InsertFailure::Database { code: Some("2067".to_string()) }));
    assert_eq!((r.status, message_of(&r)), (400, "User with email already exists".to_string()));
    let r = insert_failure_reply(&InsertFailure::Database { code: Some("1555".to_string()) });
    assert_eq!((r.status, message_of(&r)), (500, "Unknown error occured: 1555".to_string()));
    let r = insert_failure_reply(&InsertFailure::Database { code: None });
    assert_eq!((r.status, message_of(&r)), (500, "Unknown error occured".to_string()));
    let r = insert_failure_reply(&InsertFailure::Other);
    assert_eq!((r.status, message_of(&r)), (500, "Unknown error occured".to_string()));
}

#[test]
fn login_steps() {
    assert!(matches!(login(LoginEvent::Received(credentials("someone@example.com", "12345678"))), LoginAction::Authenticate(_)));
    match login(LoginEvent::Received(credentials("x", "12345678"))) {
        LoginAction::Respond(r) => assert_eq!(r.status, 400),
        other => panic!("unexpected {:?}", other),
    }
    match login(LoginEvent::Authenticated(Authentication::Authenticated(user(3)))) {
        LoginAction::StartSession(u) => assert_eq!(u.id, 3),
        other => panic!("unexpected {:?}", other),
    }
    match login(LoginEvent::Authenticated(Authentication::Rejected)) {
        LoginAction::Respond(r) => assert_eq!((r.status, message_of(&r)), (400, "Invalid credentials".to_string())),
        other => panic!("unexpected {:?}", other),
    }
    match login(LoginEvent::Authenticated(Authentication::Errored("db gone".to_string()))) {
        LoginAction::Respond(r) => assert_eq!((r.status, message_of(&r)), (500, "db gone".to_string())),
        other => panic!("unexpected {:?}", other),
    }
    match login(LoginEvent::SessionStarted { user: user(3), started: false }) {
        LoginAction::Respond(r) => assert_eq!((r.status, message_of(&r)), (500, "Error logging in".to_string())),
        other => panic!("unexpected {:?}", other),
    }
    match login(LoginEvent::SessionStarted { user: user(3), started: true }) {
        LoginAction::Respond(r) => {
            assert_eq!(r.status, 201);
            assert!(matches!(r.body, Body::Account { id: 3, .. }));
        },
        other => panic!("unexpected {:?}", other),
    }
}

#[test]
fn upload_needs_login() {
    let (state, action) = upload(None);
    assert!(matches!(state, UploadState::Finished));
    match action {
        UploadAction::Respond(r) => assert_eq!((r.status, message_of(&r)), (401, "Valid login required".to_string())),
        other => panic!("unexpected {:?}", other),
    }
}

fn field(name: Option<&str>, file_name: Option<&str>) -> UploadEvent {
    UploadEvent::Field { name: name.map(|s| s.to_string()), file_name: file_name.map(|s| s.to_string()) }
}

#[test]
fn upload_stores_under_user_id() {
    let (mut state, action) = upload(Some(42));
    assert!(matches!(action, UploadAction::NextField));
    assert!(matches!(state.step(field(Some("title"), None)), UploadAction::NextField));
    assert!(matches!(state.step(field(None, Some("x.mp4"))), UploadAction::NextField));
    match state.step(field(Some("file"), Some("talk.mp4"))) {
        UploadAction::Store { bucket, key } => {
            assert_eq!(bucket, "video-transcriber");
            assert_eq!(key, "42/talk.mp4");
        },
        other => panic!("unexpected {:?}", other),
    }
    match state.step(UploadEvent::Stored) {
        UploadAction::Respond(r) => {
            assert_eq!(r.status, 200);
            match r.body {
                Body::Uploaded { message, location } => {
                    assert_eq!(message, "File uploaded successfully");
                    assert_eq!(location, "42/talk.mp4");
                },
                other => panic!("unexpected {:?}", other),
            }
        },
        other => panic!("unexpected {:?}", other),
    }
    assert!(matches!(state, UploadState::Finished));
    assert!(matches!(state.step(UploadEvent::Stored), UploadAction::Ignore));
}

#[test]
fn upload_errors() {
    let (mut state, _) = upload(Some(-5));
    match state.step(field(Some("file"), None)) {
        UploadAction::Respond(r) => assert_eq!((r.status, message_of(&r)), (500, "Missing file name".to_string())),
        other => panic!("unexpected {:?}", other),
    }
    let (mut state, _) = upload(Some(1));
    match state.step(UploadEvent::NoMoreFields) {
        UploadAction::Respond(r) => assert_eq!((r.status, message_of(&r)), (500, "No file found".to_string())),
        other => panic!("unexpected {:?}", other),
    }
    let (mut state, _) = upload(Some(-5));
    match state.step(field(Some("file"), Some("a.wav"))) {
        UploadAction::Store { key, .. } => assert_eq!(key, "-5/a.wav"),
        other => panic!("unexpected {:?}", other),
    }
    match state.step(UploadEvent::Failed(ApiError::S3Error("denied".to_string()))) {
        UploadAction::Respond(r) => assert_eq!((r.status, message_of(&r)), (400, "Upload error: denied".to_string())),
        other => panic!("unexpected {:?}", other),
    }
    let (mut state, _) = upload(Some(1));
    match state.step(UploadEvent::Failed(ApiError::MultiPart("bad boundary".to_string()))) {
        UploadAction::Respond(r) => assert_eq!((r.status, message_of(&r)), (400, "Error parsing form: bad boundary".to_string())),
        other => panic!("unexpected {:?}", other),
    }
}

#[test]
fn transcribe_request_address() {
    let t = TranscribeTask { url: "42/talk.mp4".to_string(), user_id: 42 };
    assert_eq!(t.source_url(), "https://videos3.nate-wong.com/42/talk.mp4");
}
