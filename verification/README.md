# video_transcriber

A video transcription service: an HTTP API where users sign up, log in and upload media,
and a worker that downloads each uploaded file, converts it to 16 kHz WAV, runs a Whisper
model on it and stores the transcript.

- `src/` is the verified library. Each request handler and the worker's pipeline are
  written as decision functions or state machines (`login`, `upload`, `users::create`,
  `job::TranscriptionJob`) whose results are stated over spec functions, together with
  proofs of the properties they keep (see the `lemma_*` proof functions).
- `app/` performs the outside work those functions ask for: HTTP with axum, SQLite and
  PostgreSQL with sqlx, downloads with reqwest, conversion with ez-ffmpeg, transcription
  with whisper-rs.
- `tests/` runs the library on concrete values.

What `app/` does not hold: the routes `/auth/login` and `/transcribe/new` and the session layer
need an authentication backend and a session store that are not part of this code base, so the
crates they would run on (axum-login, tower-sessions, aws-sdk-s3 and aws-config for the upload
store, tower-http and tracing-subscriber for request tracing, time) are not dependencies. The
decisions of those routes are in the library (`login::login`, `upload::upload` and
`UploadState::step`) and are verified and tested there.
