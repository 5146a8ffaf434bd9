use video_transcriber::job::{start, wav_output_path, plan_download, join_segments, JobAction, JobError, JobEvent, JobStage};
use video_transcriber::task::{done_channel, notify_done_query, Task, TaskStatus};
use video_transcriber::text::{decimal, replaced};
use video_transcriber::whisper::{download_model, model_download_result, DownloadFailure, DtwPreset, ModelType};

const ID: u128 = 0xa1a2a3a4b1b2c1c2d1d2d3d4d5d6d7d8;
const ID_TEXT: &str = "a1a2a3a4-b1b2-c1c2-d1d2-d3d4d5d6d7d8";

fn task(url: &str) -> Task {
    Task { id: ID, url: url.to_string(), status: "notStarted".to_string(), transcript: String::new() }
}

#[test]
fn status_texts() {
    assert_eq!(TaskStatus::NotStarted.to_str(), "notStarted");
    assert_eq!(TaskStatus::InProgress.to_str(), "inProgress");
    assert_eq!(TaskStatus::Error.to_str(), "error");
    assert_eq!(TaskStatus::Finished.to_str(), "finished");
    assert_eq!(TaskStatus::Finished.to_string(), "finished".to_string());
}

#[test]
fn status_texts_are_distinct() {
    let all = [TaskStatus::NotStarted, TaskStatus::InProgress, TaskStatus::Error, TaskStatus::Finished];
    for a in all.iter() {
        for b in all.iter() {
            assert_eq!(a == b, a.to_str() == b.to_str());
        }
    }
}

#[test]
fn uuid_text_is_hyphenated_lowercase() {
    let t = Task { id: 0, url: String::new(), status: String::new(), transcript: String::new() };
    assert!(t.to_json_str().starts_with("{\"id\":\"00000000-0000-0000-0000-000000000000\""));
    assert_eq!(done_channel(0xff), "task_00000000_0000_0000_0000_0000000000ff_done");
}

#[test]
fn done_channel_has_underscores() {
    let channel = done_channel(ID);
    assert_eq!(channel, "task_a1a2a3a4_b1b2_c1c2_d1d2_d3d4d5d6d7d8_done");
    assert!(!channel.contains('-'));
    assert_eq!(
        notify_done_query(ID),
        "SELECT pg_notify('task_a1a2a3a4_b1b2_c1c2_d1d2_d3d4d5d6d7d8_done', $1)"
    );
}

#[test]
fn task_json_text() {
    let t = Task { id: ID, url: "https://h/a \"b\".mp3".to_string(), status: "finished".to_string(), transcript: "hi".to_string() };
    assert_eq!(
        t.to_json_str(),
        "{\"id\":\"a1a2a3a4-b1b2-c1c2-d1d2-d3d4d5d6d7d8\",\"status\":\"finished\",\"transcript\":\"hi\",\"url\":\"https://h/a \\\"b\\\".mp3\"}"
    );
}

#[test]
fn decimal_text() {
    assert_eq!(decimal(0), "0");
    assert_eq!(decimal(42), "42");
    assert_eq!(decimal(-7), "-7");
    assert_eq!(decimal(i64::MAX), "9223372036854775807");
    assert_eq!(decimal(i64::MIN), "-9223372036854775808");
}

#[test]
fn replace_characters() {
    assert_eq!(replaced("a-b-c", '-', '_'), "a_b_c");
    assert_eq!(replaced("", '-', '_'), "");
    assert_eq!(replaced("äö-ü", '-', '+'), "äö+ü");
}

#[test]
fn model_files() {
    assert_eq!(ModelType::Base.filename(), "ggml-base.bin");
    assert_eq!(ModelType::Tiny.filename(), "ggml-tiny.bin");
    assert_eq!(ModelType::Small.filename(), "ggml-small.bin");
    assert_eq!(ModelType::Medium.filename(), "ggml-medium.bin");
    assert_eq!(ModelType::Large.filename(), "ggml-large-v3.bin");
    assert_eq!(ModelType::Large.get_dtw_params(), DtwPreset::LargeV3);
    assert_eq!(ModelType::Base.get_dtw_params(), DtwPreset::BaseEn);
    assert_eq!(ModelType::Tiny.get_dtw_params(), DtwPreset::TinyEn);
    assert_eq!(ModelType::Small.get_dtw_params(), DtwPreset::Small);
    assert_eq!(ModelType::Medium.get_dtw_params(), DtwPreset::Medium);
}

#[test]
fn model_paths_are_distinct() {
    let all = [ModelType::Base, ModelType::Tiny, ModelType::Small, ModelType::Medium, ModelType::Large];
    for a in all.iter() {
        for b in all.iter() {
            assert_eq!(a == b, download_model(*a).path == download_model(*b).path);
        }
    }
}

#[test]
fn model_download_plan() {
    let d = download_model(ModelType::Large);
    assert_eq!(d.folder, "./models");
    assert_eq!(d.path, "./models/ggml-large-v3.bin");
    assert_eq!(d.url, "https://huggingface.co/ggerganov/whisper.cpp/resolve/main/ggml-large-v3.bin");
}

#[test]
fn model_already_downloaded_is_fine() {
    assert_eq!(model_download_result(download_model(ModelType::Tiny), None), Ok("./models/ggml-tiny.bin".to_string()));
    assert_eq!(
        model_download_result(download_model(ModelType::Tiny), Some(DownloadFailure::AlreadyExists)),
        Ok("./models/ggml-tiny.bin".to_string())
    );
    assert_eq!(
        model_download_result(download_model(ModelType::Tiny), Some(DownloadFailure::Other("refused".to_string()))),
        Err("refused".to_string())
    );
}

#[test]
fn plan_decodes_file_name() {
    let (path, conversion) = plan_download(&task("https://videos.example.com/7/my%20clip.mp4")).unwrap();
    assert_eq!(path, format!("./tmp/downloads/{}_my clip.mp4", ID_TEXT));
    assert!(conversion);
    let (path, conversion) = plan_download(&task("https://videos.example.com/7/voice.wav")).unwrap();
    assert_eq!(path, format!("./tmp/downloads/{}_voice.wav", ID_TEXT));
    assert!(!conversion);
}

#[test]
fn plan_uses_url_path_only() {
    let (path, conversion) = plan_download(&task("https://videos.example.com/7/talk.wav?signature=abc#t=3")).unwrap();
    assert_eq!(path, format!("./tmp/downloads/{}_talk.wav", ID_TEXT));
    assert!(!conversion);
}

#[test]
fn plan_errors() {
    match plan_download(&task("not a url")) {
        Err(JobError::UrlSyntax(m)) => assert_eq!(m, "relative URL without a base"),
        other => panic!("unexpected {:?}", other),
    }
    match plan_download(&task("https://videos.example.com/")) {
        Err(e) => {
            assert!(matches!(e, JobError::MissingFileName));
            assert_eq!(e.message(), "invalid url");
        },
        other => panic!("unexpected {:?}", other),
    }
    match plan_download(&task("https://videos.example.com/7/noextension")) {
        Err(e) => {
            assert!(matches!(e, JobError::MissingExtension));
            assert_eq!(e.message(), "invalid file extension");
        },
        other => panic!("unexpected {:?}", other),
    }
    match plan_download(&task("https://videos.example.com/7/bad%FF.mp3")) {
        Err(JobError::UndecodableName(m)) => assert!(m.contains("utf-8")),
        other => panic!("unexpected {:?}", other),
    }
}

#[test]
fn wav_paths() {
    assert_eq!(wav_output_path("./tmp/downloads/x_clip.mp4", "./tmp/downloads").unwrap(), "./tmp/downloads/x_clip.wav");
    assert_eq!(wav_output_path("a/b.tar.gz", "out").unwrap(), "out/b.tar.wav");
    assert_eq!(wav_output_path("a/.hidden", "out").unwrap(), "out/.hidden.wav");
    let e = wav_output_path("a/..", "out").unwrap_err();
    assert!(matches!(e, JobError::InvalidPath));
    assert_eq!(e.message(), "invalid path");
}

#[test]
fn segments_are_joined_in_order() {
    assert_eq!(join_segments(&vec![" Hello".to_string(), " world".to_string(), "!".to_string()]), " Hello world!");
    assert_eq!(join_segments(&vec![]), "");
}

fn expect_download(action: JobAction) -> (String, String) {
    match action {
        JobAction::Download { url, path } => (url, path),
        other => panic!("unexpected {:?}", other),
    }
}

#[test]
fn job_runs_through_with_conversion() {
    let url = "https://videos.example.com/7/clip.mp4";
    let (mut job, first) = start(task(url));
    assert!(matches!(first, JobAction::SetStatus { task_id: ID, status: TaskStatus::InProgress }));
    let (u, path) = expect_download(job.step(JobEvent::StatusStored));
    assert_eq!(u, url);
    assert_eq!(path, format!("./tmp/downloads/{}_clip.mp4", ID_TEXT));
    let wav = format!("./tmp/downloads/{}_clip.wav", ID_TEXT);
    match job.step(JobEvent::Downloaded) {
        JobAction::ConvertToWav { input_path, output_path } => {
            assert_eq!(input_path, path);
            assert_eq!(output_path, wav);
        },
        other => panic!("unexpected {:?}", other),
    }
    match job.step(JobEvent::Converted) {
        JobAction::OpenAudio { path } => assert_eq!(path, wav),
        other => panic!("unexpected {:?}", other),
    }
    assert!(matches!(job.step(JobEvent::AudioOpened { sample_rate: 16000 }), JobAction::Transcribe));
    match job.step(JobEvent::Transcribed { segments: vec![" Hello".to_string(), " world".to_string()] }) {
        JobAction::StoreTranscript { task, notify_query } => {
            assert_eq!(task.id, ID);
            assert_eq!(task.url, url);
            assert_eq!(task.transcript, " Hello world");
            assert_eq!(notify_query, notify_done_query(ID));
        },
        other => panic!("unexpected {:?}", other),
    }
    assert!(matches!(job.step(JobEvent::TranscriptStored), JobAction::SetStatus { task_id: ID, status: TaskStatus::Finished }));
    match job.step(JobEvent::StatusStored) {
        JobAction::Finish { outcome: Ok(t) } => assert_eq!(t, " Hello world"),
        other => panic!("unexpected {:?}", other),
    }
    assert_eq!(job.stage, JobStage::Done);
    assert!(matches!(job.step(JobEvent::StatusStored), JobAction::Ignore));
    assert!(matches!(job.step(JobEvent::Failed { message: "late".to_string() }), JobAction::Ignore));
    assert_eq!(job.stage, JobStage::Done);
}

#[test]
fn job_skips_conversion_for_wav() {
    let (mut job, _) = start(task("https://videos.example.com/7/voice.wav"));
    let (_, path) = expect_download(job.step(JobEvent::StatusStored));
    match job.step(JobEvent::Downloaded) {
        JobAction::OpenAudio { path: p } => assert_eq!(p, path),
        other => panic!("unexpected {:?}", other),
    }
}

#[test]
fn job_refuses_wrong_sample_rate() {
    let (mut job, _) = start(task("https://videos.example.com/7/voice.wav"));
    job.step(JobEvent::StatusStored);
    job.step(JobEvent::Downloaded);
    match job.step(JobEvent::AudioOpened { sample_rate: 44100 }) {
        JobAction::Finish { outcome: Err(e) } => {
            assert!(matches!(e, JobError::InvalidSampleRate));
            assert_eq!(e.message(), "invalid sample rate: must be 165KHz");
        },
        other => panic!("unexpected {:?}", other),
    }
    assert_eq!(job.stage, JobStage::Failed);
}

#[test]
fn job_stops_on_outside_failure() {
    let (mut job, _) = start(task("https://videos.example.com/7/voice.wav"));
    match job.step(JobEvent::Failed { message: "database down".to_string() }) {
        JobAction::Finish { outcome: Err(JobError::Outside(m)) } => assert_eq!(m, "database down"),
        other => panic!("unexpected {:?}", other),
    }
    assert_eq!(job.stage, JobStage::Failed);
    assert!(matches!(job.step(JobEvent::StatusStored), JobAction::Ignore));
}

#[test]
fn job_fails_on_bad_url_after_marking_in_progress() {
    let (mut job, first) = start(task("https://videos.example.com/"));
    assert!(matches!(first, JobAction::SetStatus { status: TaskStatus::InProgress, .. }));
    assert!(matches!(job.step(JobEvent::StatusStored), JobAction::Finish { outcome: Err(JobError::MissingFileName) }));
}

#[test]
fn job_ignores_out_of_order_events() {
    let (mut job, _) = start(task("https://videos.example.com/7/voice.wav"));
    assert!(matches!(job.step(JobEvent::Downloaded), JobAction::Ignore));
    assert!(matches!(job.step(JobEvent::TranscriptStored), JobAction::Ignore));
    assert_eq!(job.stage, JobStage::MarkingInProgress);
}
