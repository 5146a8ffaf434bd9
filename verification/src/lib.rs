//! Request handling and transcription-job logic of a video transcription service,
//! with the decisions of each handler and of the transcription pipeline verified.
pub mod task;
pub mod text;
pub mod paths;
pub mod whisper;
pub mod job;
pub mod errors;
pub mod reply;
pub mod users;
pub mod login;
pub mod upload;
pub mod transcribe_task;
