//! The transcription pipeline of one task, as a state machine: the transcriber hands each
//! outcome of outside work (a stored status, a finished download, an opened audio file, the
//! model's text segments) to `TranscriptionJob::step`, which decides the next piece of work.
use vstd::prelude::*;
use vstd::string::*;
use crate::paths::{extension, extension_of, file_name, file_stem, path_file_name, stem_of};
use crate::task::{notify_done_query, notify_done_text, uuid_string, uuid_text, Task, TaskStatus, TaskView};

verus! {

/// Folder into which task media is downloaded and converted.
pub const DOWNLOADS_FOLDER_PATH: &'static str = "./tmp/downloads";

/// The only sample rate that the model accepts, in Hz.
pub const REQUIRED_SAMPLE_RATE: u32 = 16000;

/// What `url::Url::parse` makes of the text `input`: the parsed URL's path (`Url::path`), or
/// the `Display` text of the parse error.
pub uninterp spec fn url_path(input: Seq<char>) -> Result<Seq<char>, Seq<char>>;

/// `url::Url::parse(input)` (the URL type that reqwest re-exports), handing back the parsed
/// URL's path, or the parse error's message.
#[verifier::external_body]
fn parse_url_path(input: &str) -> (path: Result<String, String>)
    ensures
        path is Ok <==> url_path(input@) is Ok,
        path is Ok ==> path->Ok_0@ == url_path(input@)->Ok_0,
        path is Err ==> path->Err_0@ == url_path(input@)->Err_0,
{
    url::Url::parse(input).map(|u| u.path().to_string()).map_err(|e| e.to_string())
}

/// What `urlencoding::decode` makes of `input`: the text with its percent escapes decoded, or
/// the message of the `FromUtf8Error` when the decoded bytes are not UTF-8.
pub uninterp spec fn percent_decoded(input: Seq<char>) -> Result<Seq<char>, Seq<char>>;

/// `urlencoding::decode(input)`, handing back the decoded text or the error's message. Its
/// source hands back the input itself when it holds no `%`.
#[verifier::external_body]
fn decode_percent(input: &str) -> (decoded: Result<String, String>)
    ensures
        decoded is Ok <==> percent_decoded(input@) is Ok,
        decoded is Ok ==> decoded->Ok_0@ == percent_decoded(input@)->Ok_0,
        decoded is Err ==> decoded->Err_0@ == percent_decoded(input@)->Err_0,
        decoded is Ok && !input@.contains('%') ==> decoded->Ok_0@ == input@,
        !input@.contains('%') ==> decoded is Ok,
{
    urlencoding::decode(input).map(|d| d.into_owned()).map_err(|e| e.to_string())
}

/// Why a transcription job failed.
#[derive(Debug)]
pub enum JobError {
    /// The task's URL does not parse (with the parser's message).
    UrlSyntax(String),
    /// The URL's path has no file name.
    MissingFileName,
    /// The file name has no extension.
    MissingExtension,
    /// The file name does not percent-decode to UTF-8 (with the decoder's message).
    UndecodableName(String),
    /// The downloaded file's path has no file name to convert.
    InvalidPath,
    /// The audio is not sampled at 16 kHz.
    InvalidSampleRate,
    /// Outside work failed (with its message).
    Outside(String),
}

/// A job error with its messages taken as character sequences.
pub enum JobErrorView {
    UrlSyntax(Seq<char>),
    MissingFileName,
    MissingExtension,
    UndecodableName(Seq<char>),
    InvalidPath,
    InvalidSampleRate,
    Outside(Seq<char>),
}

impl View for JobError {
    type V = JobErrorView;

    open spec fn view(&self) -> JobErrorView {
        match self {
            JobError::UrlSyntax(m) => JobErrorView::UrlSyntax(m@),
            JobError::MissingFileName => JobErrorView::MissingFileName,
            JobError::MissingExtension => JobErrorView::MissingExtension,
            JobError::UndecodableName(m) => JobErrorView::UndecodableName(m@),
            JobError::InvalidPath => JobErrorView::InvalidPath,
            JobError::InvalidSampleRate => JobErrorView::InvalidSampleRate,
            JobError::Outside(m) => JobErrorView::Outside(m@),
        }
    }
}

impl JobError {
    /// The message of this error.
    pub fn message(&self) -> (text: String)
        ensures
            self is MissingFileName ==> text@ == "invalid url"@,
            self is MissingExtension ==> text@ == "invalid file extension"@,
            self is InvalidPath ==> text@ == "invalid path"@,
            self is InvalidSampleRate ==> text@ == "invalid sample rate: must be 165KHz"@,
            self matches JobError::UrlSyntax(m) ==> text@ == m@,
            self matches JobError::UndecodableName(m) ==> text@ == m@,
            self matches JobError::Outside(m) ==> text@ == m@,
    {
        match self {
            JobError::UrlSyntax(m) => m.clone(),
            JobError::MissingFileName => String::from_str("invalid url"),
            JobError::MissingExtension => String::from_str("invalid file extension"),
            JobError::UndecodableName(m) => m.clone(),
            JobError::InvalidPath => String::from_str("invalid path"),
            JobError::InvalidSampleRate => String::from_str("invalid sample rate: must be 165KHz"),
            JobError::Outside(m) => m.clone(),
        }
    }
}

/// Where a job stands.
#[derive(Clone, Copy, Debug, PartialEq, Eq, Structural)]
pub enum JobStage {
    MarkingInProgress,
    Downloading,
    Converting,
    OpeningAudio,
    Transcribing,
    StoringTranscript,
    MarkingFinished,
    Done,
    Failed,
}

/// The transcription of one task.
#[derive(Debug)]
pub struct TranscriptionJob {
    pub task: Task,
    pub stage: JobStage,
    pub download_path: String,
    pub wav_path: String,
    pub needs_conversion: bool,
    pub transcript: String,
}

pub struct JobView {
    pub task: TaskView,
    pub stage: JobStage,
    pub download_path: Seq<char>,
    pub wav_path: Seq<char>,
    pub needs_conversion: bool,
    pub transcript: Seq<char>,
}

impl View for TranscriptionJob {
    type V = JobView;

    open spec fn view(&self) -> JobView {
        JobView {
            task: self.task@,
            stage: self.stage,
            download_path: self.download_path@,
            wav_path: self.wav_path@,
            needs_conversion: self.needs_conversion,
            transcript: self.transcript@,
        }
    }
}

/// The outcome of a piece of outside work, handed back to the job.
#[derive(Debug)]
pub enum JobEvent {
    /// The status asked for was stored.
    StatusStored,
    /// The media was downloaded to the path asked for.
    Downloaded,
    /// The media was converted to the WAV path asked for.
    Converted,
    /// The audio file was opened; this is its sample rate.
    AudioOpened { sample_rate: u32 },
    /// The model ran; these are the text segments it produced, in order.
    Transcribed { segments: Vec<String> },
    /// The transcript was stored and announced.
    TranscriptStored,
    /// The outside work failed with this message.
    Failed { message: String },
}

pub enum JobEventView {
    StatusStored,
    Downloaded,
    Converted,
    AudioOpened { sample_rate: u32 },
    Transcribed { segments: Seq<Seq<char>> },
    TranscriptStored,
    Failed { message: Seq<char> },
}

impl View for JobEvent {
    type V = JobEventView;

    open spec fn view(&self) -> JobEventView {
        match self {
            JobEvent::StatusStored => JobEventView::StatusStored,
            JobEvent::Downloaded => JobEventView::Downloaded,
            JobEvent::Converted => JobEventView::Converted,
            JobEvent::AudioOpened { sample_rate } => JobEventView::AudioOpened { sample_rate: *sample_rate },
            JobEvent::Transcribed { segments } => JobEventView::Transcribed {
                segments: segments@.map_values(|s: String| s@),
            },
            JobEvent::TranscriptStored => JobEventView::TranscriptStored,
            JobEvent::Failed { message } => JobEventView::Failed { message: message@ },
        }
    }
}

/// The next piece of outside work that the job asks for.
#[derive(Debug)]
pub enum JobAction {
    /// Store this status for the task.
    SetStatus { task_id: u128, status: TaskStatus },
    /// Download `url` into a new file at `path`.
    Download { url: String, path: String },
    /// Convert the media at `input_path` to 16 kHz WAV at `output_path`.
    ConvertToWav { input_path: String, output_path: String },
    /// Load the model and open the WAV file at `path`.
    OpenAudio { path: String },
    /// Run the model on the opened audio.
    Transcribe,
    /// Store the task's transcript, then run `notify_query` with the task's JSON.
    StoreTranscript { task: Task, notify_query: String },
    /// The job is over, with this outcome.
    Finish { outcome: Result<String, JobError> },
    /// Nothing to do: the event does not belong to the job's stage.
    Ignore,
}

pub enum JobActionView {
    SetStatus { task_id: u128, status: TaskStatus },
    Download { url: Seq<char>, path: Seq<char> },
    ConvertToWav { input_path: Seq<char>, output_path: Seq<char> },
    OpenAudio { path: Seq<char> },
    Transcribe,
    StoreTranscript { task: TaskView, notify_query: Seq<char> },
    Finish { outcome: Result<Seq<char>, JobErrorView> },
    Ignore,
}

impl View for JobAction {
    type V = JobActionView;

    open spec fn view(&self) -> JobActionView {
        match self {
            JobAction::SetStatus { task_id, status } => JobActionView::SetStatus { task_id: *task_id, status: *status },
            JobAction::Download { url, path } => JobActionView::Download { url: url@, path: path@ },
            JobAction::ConvertToWav { input_path, output_path } => JobActionView::ConvertToWav {
                input_path: input_path@,
                output_path: output_path@,
            },
            JobAction::OpenAudio { path } => JobActionView::OpenAudio { path: path@ },
            JobAction::Transcribe => JobActionView::Transcribe,
            JobAction::StoreTranscript { task, notify_query } => JobActionView::StoreTranscript {
                task: task@,
                notify_query: notify_query@,
            },
            JobAction::Finish { outcome } => JobActionView::Finish {
                outcome: match outcome {
                    Ok(t) => Ok(t@),
                    Err(e) => Err(e@),
                },
            },
            JobAction::Ignore => JobActionView::Ignore,
        }
    }
}

/// Where the media of task `id` with file name `name` is downloaded.
pub open spec fn download_path_text(id: u128, name: Seq<char>) -> Seq<char> {
    DOWNLOADS_FOLDER_PATH@ + "/"@ + uuid_text(id) + "_"@ + name
}

/// What the task's URL tells the job: where to download the media, and whether it must be
/// converted to WAV first (its extension is not `wav`).
pub open spec fn plan_of(task: TaskView) -> Result<(Seq<char>, bool), JobErrorView> {
    match url_path(task.url) {
        Err(message) => Err(JobErrorView::UrlSyntax(message)),
        Ok(path) => match path_file_name(path) {
            None => Err(JobErrorView::MissingFileName),
            Some(name) => match extension_of(name) {
                None => Err(JobErrorView::MissingExtension),
                Some(ext) => match percent_decoded(name) {
                    Err(message) => Err(JobErrorView::UndecodableName(message)),
                    Ok(decoded) => Ok((download_path_text(task.id, decoded), ext != "wav"@)),
                },
            },
        },
    }
}

/// The WAV file that the media at `input` is converted to: `<downloads>/<stem>.wav`.
pub open spec fn wav_path_of(input: Seq<char>) -> Option<Seq<char>> {
    match path_file_name(input) {
        Some(name) => Some(DOWNLOADS_FOLDER_PATH@ + "/"@ + stem_of(name) + ".wav"@),
        None => None,
    }
}

/// The segments of a transcript, joined in order.
pub open spec fn joined(segments: Seq<Seq<char>>) -> Seq<char>
    decreases segments.len(),
{
    if segments.len() == 0 {
        Seq::empty()
    } else {
        joined(segments.drop_last()) + segments.last()
    }
}

pub open spec fn is_terminal(stage: JobStage) -> bool {
    stage == JobStage::Done || stage == JobStage::Failed
}

/// A new job for `task`, and its first piece of work: mark the task in progress.
pub open spec fn job_start(task: TaskView) -> (JobView, JobActionView) {
    (
        JobView {
            task,
            stage: JobStage::MarkingInProgress,
            download_path: Seq::empty(),
            wav_path: Seq::empty(),
            needs_conversion: false,
            transcript: Seq::empty(),
        },
        JobActionView::SetStatus { task_id: task.id, status: TaskStatus::InProgress },
    )
}

pub open spec fn failed(job: JobView, error: JobErrorView) -> (JobView, JobActionView) {
    (JobView { stage: JobStage::Failed, ..job }, JobActionView::Finish { outcome: Err(error) })
}

/// The job's next state and piece of work after `event`.
pub open spec fn job_step(job: JobView, event: JobEventView) -> (JobView, JobActionView) {
    if is_terminal(job.stage) {
        (job, JobActionView::Ignore)
    } else {
        match event {
            JobEventView::Failed { message } => failed(job, JobErrorView::Outside(message)),
            JobEventView::StatusStored => if job.stage == JobStage::MarkingInProgress {
                match plan_of(job.task) {
                    Err(e) => failed(job, e),
                    Ok((path, conversion)) => (
                        JobView { stage: JobStage::Downloading, download_path: path, needs_conversion: conversion, ..job },
                        JobActionView::Download { url: job.task.url, path },
                    ),
                }
            } else if job.stage == JobStage::MarkingFinished {
                (JobView { stage: JobStage::Done, ..job }, JobActionView::Finish { outcome: Ok(job.transcript) })
            } else {
                (job, JobActionView::Ignore)
            },
            JobEventView::Downloaded => if job.stage == JobStage::Downloading {
                if job.needs_conversion {
                    match wav_path_of(job.download_path) {
                        None => failed(job, JobErrorView::InvalidPath),
                        Some(wav) => (
                            JobView { stage: JobStage::Converting, wav_path: wav, ..job },
                            JobActionView::ConvertToWav { input_path: job.download_path, output_path: wav },
                        ),
                    }
                } else {
                    (
                        JobView { stage: JobStage::OpeningAudio, wav_path: job.download_path, ..job },
                        JobActionView::OpenAudio { path: job.download_path },
                    )
                }
            } else {
                (job, JobActionView::Ignore)
            },
            JobEventView::Converted => if job.stage == JobStage::Converting {
                (JobView { stage: JobStage::OpeningAudio, ..job }, JobActionView::OpenAudio { path: job.wav_path })
            } else {
                (job, JobActionView::Ignore)
            },
            JobEventView::AudioOpened { sample_rate } => if job.stage == JobStage::OpeningAudio {
                if sample_rate == REQUIRED_SAMPLE_RATE {
                    (JobView { stage: JobStage::Transcribing, ..job }, JobActionView::Transcribe)
                } else {
                    failed(job, JobErrorView::InvalidSampleRate)
                }
            } else {
                (job, JobActionView::Ignore)
            },
            JobEventView::Transcribed { segments } => if job.stage == JobStage::Transcribing {
                let transcript = joined(segments);
                (
                    JobView { stage: JobStage::StoringTranscript, transcript, ..job },
                    JobActionView::StoreTranscript {
                        task: TaskView { transcript, ..job.task },
                        notify_query: notify_done_text(job.task.id),
                    },
                )
            } else {
                (job, JobActionView::Ignore)
            },
            JobEventView::TranscriptStored => if job.stage == JobStage::StoringTranscript {
                (
                    JobView { stage: JobStage::MarkingFinished, ..job },
                    JobActionView::SetStatus { task_id: job.task.id, status: TaskStatus::Finished },
                )
            } else {
                (job, JobActionView::Ignore)
            },
        }
    }
}


/// Where to download the media of `task` and whether it must be converted: the file name of
/// the URL's path, percent-decoded, stored under the downloads folder prefixed by the task id.
pub fn plan_download(task: &Task) -> (plan: Result<(String, bool), JobError>)
    ensures
        match plan {
            Ok((path, conversion)) => plan_of(task@) == Ok::<(Seq<char>, bool), JobErrorView>((path@, conversion)),
            Err(e) => plan_of(task@) == Err::<(Seq<char>, bool), JobErrorView>(e@),
        },
        plan matches Ok((path, conversion)) ==> (url_path(task.url@) matches Ok(url_file)
            && path_file_name(url_file) matches Some(name) && percent_decoded(name) matches Ok(decoded)
            && path@ == DOWNLOADS_FOLDER_PATH@ + "/"@ + uuid_text(task.id) + "_"@ + decoded
            && (conversion <==> extension_of(name) != Some("wav"@))),
        plan is Err <==> (url_path(task.url@) is Err || path_file_name(url_path(task.url@)->Ok_0) is None
            || extension_of(path_file_name(url_path(task.url@)->Ok_0)->0) is None
            || percent_decoded(path_file_name(url_path(task.url@)->Ok_0)->0) is Err),
{
    let url_path = match parse_url_path(task.url.as_str()) {
        Ok(p) => p,
        Err(e) => {
            return Err(JobError::UrlSyntax(e));
        },
    };
    let name = match file_name(url_path.as_str()) {
        Some(n) => n,
        None => {
            return Err(JobError::MissingFileName);
        },
    };
    let ext = match extension(url_path.as_str()) {
        Some(e) => e,
        None => {
            return Err(JobError::MissingExtension);
        },
    };
    let decoded = match decode_percent(name.as_str()) {
        Ok(d) => d,
        Err(e) => {
            return Err(JobError::UndecodableName(e));
        },
    };
    let path = String::from_str(DOWNLOADS_FOLDER_PATH).concat("/").concat(uuid_string(task.id).as_str()).concat(
        "_",
    ).concat(decoded.as_str());
    let wav = String::from_str("wav");
    let conversion = !(ext == wav);
    Ok((path, conversion))
}

/// The WAV file that the media at `input_path` is converted to: the input's file stem with
/// a `.wav` extension, in `output_folder`; `InvalidPath` when the input has no file name.
pub fn wav_output_path(input_path: &str, output_folder: &str) -> (output: Result<String, JobError>)
    ensures
        match output {
            Ok(p) => path_file_name(input_path@) matches Some(name)
                && p@ == output_folder@ + "/"@ + stem_of(name) + ".wav"@,
            Err(e) => path_file_name(input_path@) is None && e is InvalidPath,
        },
{
    match file_stem(input_path) {
        Some(stem) => Ok(String::from_str(output_folder).concat("/").concat(stem.as_str()).concat(".wav")),
        None => Err(JobError::InvalidPath),
    }
}

/// The segments of a transcript, joined in order.
pub fn join_segments(segments: &Vec<String>) -> (transcript: String)
    ensures
        transcript@ == joined(segments@.map_values(|s: String| s@)),
{
    let ghost all = segments@.map_values(|s: String| s@);
    let mut transcript = String::new();
    let mut i: usize = 0;
    while i < segments.len()
        invariant
            i <= segments.len(),
            all == segments@.map_values(|s: String| s@),
            transcript@ == joined(all.subrange(0, i as int)),
        decreases segments.len() - i,
    {
        transcript.append(segments[i].as_str());
        assert(all.subrange(0, i + 1).drop_last() == all.subrange(0, i as int));
        i = i + 1;
    }
    assert(all.subrange(0, segments.len() as int) == all);
    transcript
}

impl TranscriptionJob {
    fn fail(&mut self, error: JobError) -> (action: JobAction)
        requires
            !is_terminal(old(self).stage),
        ensures
            final(self)@ == failed(old(self)@, error@).0,
            action@ == failed(old(self)@, error@).1,
    {
        self.stage = JobStage::Failed;
        JobAction::Finish { outcome: Err(error) }
    }

    /// The next piece of work after `event`, with the job moved on accordingly.
    pub fn step(&mut self, event: JobEvent) -> (action: JobAction)
        ensures
            final(self)@ == job_step(old(self)@, event@).0,
            action@ == job_step(old(self)@, event@).1,
    {
        if self.stage == JobStage::Done || self.stage == JobStage::Failed {
            return JobAction::Ignore;
        }
        match event {
            JobEvent::Failed { message } => self.fail(JobError::Outside(message)),
            JobEvent::StatusStored => {
                if self.stage == JobStage::MarkingInProgress {
                    match plan_download(&self.task) {
                        Err(e) => self.fail(e),
                        Ok((path, conversion)) => {
                            self.stage = JobStage::Downloading;
                            self.download_path = path.clone();
                            self.needs_conversion = conversion;
                            JobAction::Download { url: self.task.url.clone(), path }
                        },
                    }
                } else if self.stage == JobStage::MarkingFinished {
                    self.stage = JobStage::Done;
                    JobAction::Finish { outcome: Ok(self.transcript.clone()) }
                } else {
                    JobAction::Ignore
                }
            },
            JobEvent::Downloaded => {
                if self.stage == JobStage::Downloading {
                    if self.needs_conversion {
                        match wav_output_path(self.download_path.as_str(), DOWNLOADS_FOLDER_PATH) {
                            Err(e) => self.fail(e),
                            Ok(wav) => {
                                self.stage = JobStage::Converting;
                                self.wav_path = wav.clone();
                                JobAction::ConvertToWav { input_path: self.download_path.clone(), output_path: wav }
                            },
                        }
                    } else {
                        self.stage = JobStage::OpeningAudio;
                        self.wav_path = self.download_path.clone();
                        JobAction::OpenAudio { path: self.download_path.clone() }
                    }
                } else {
                    JobAction::Ignore
                }
            },
            JobEvent::Converted => {
                if self.stage == JobStage::Converting {
                    self.stage = JobStage::OpeningAudio;
                    JobAction::OpenAudio { path: self.wav_path.clone() }
                } else {
                    JobAction::Ignore
                }
            },
            JobEvent::AudioOpened { sample_rate } => {
                if self.stage == JobStage::OpeningAudio {
                    if sample_rate == REQUIRED_SAMPLE_RATE {
                        self.stage = JobStage::Transcribing;
                        JobAction::Transcribe
                    } else {
                        self.fail(JobError::InvalidSampleRate)
                    }
                } else {
                    JobAction::Ignore
                }
            },
            JobEvent::Transcribed { segments } => {
                if self.stage == JobStage::Transcribing {
                    let transcript = join_segments(&segments);
                    self.stage = JobStage::StoringTranscript;
                    self.transcript = transcript.clone();
                    let mut task = self.task.clone();
                    task.transcript = transcript;
                    JobAction::StoreTranscript { task, notify_query: notify_done_query(self.task.id) }
                } else {
                    JobAction::Ignore
                }
            },
            JobEvent::TranscriptStored => {
                if self.stage == JobStage::StoringTranscript {
                    self.stage = JobStage::MarkingFinished;
                    JobAction::SetStatus { task_id: self.task.id, status: TaskStatus::Finished }
                } else {
                    JobAction::Ignore
                }
            },
        }
    }
}

/// Starts the transcription of `task`: a new job, and its first piece of work, which marks
/// the task in progress.
pub fn start(task: Task) -> (started: (TranscriptionJob, JobAction))
    ensures
        started.0@ == job_start(task@).0,
        started.1@ == job_start(task@).1,
{
    let id = task.id;
    (
        TranscriptionJob {
            task,
            stage: JobStage::MarkingInProgress,
            download_path: String::new(),
            wav_path: String::new(),
            needs_conversion: false,
            transcript: String::new(),
        },
        JobAction::SetStatus { task_id: id, status: TaskStatus::InProgress },
    )
}


/// The job's state and pieces of work after a series of events.
pub open spec fn run(job: JobView, events: Seq<JobEventView>) -> (JobView, Seq<JobActionView>)
    decreases events.len(),
{
    if events.len() == 0 {
        (job, Seq::empty())
    } else {
        let next = job_step(job, events[0]);
        let rest = run(next.0, events.drop_first());
        (rest.0, seq![next.1] + rest.1)
    }
}

/// The transcript holds every segment, in order: joining no segments gives the empty text, and
/// joining one more segment appends it to the text of the others.
pub proof fn lemma_joined_appends(segments: Seq<Seq<char>>, segment: Seq<char>)
    ensures
        joined(Seq::<Seq<char>>::empty()) == Seq::<char>::empty(),
        joined(segments.push(segment)) == joined(segments) + segment,
        joined(segments.push(segment)).len() == joined(segments).len() + segment.len(),
{
    assert(segments.push(segment).drop_last() =~= segments);
}

/// The media is converted exactly when the file name of the URL's path does not have the
/// extension `wav`, and it is downloaded under the task's id and the decoded file name.
pub proof fn lemma_plan_converts_non_wav(task: TaskView, path: Seq<char>, conversion: bool)
    requires
        plan_of(task) == Ok::<(Seq<char>, bool), JobErrorView>((path, conversion)),
    ensures
        url_path(task.url) matches Ok(url_file) && path_file_name(url_file) matches Some(name)
            && percent_decoded(name) matches Ok(decoded)
            && (conversion <==> extension_of(name) != Some("wav"@))
            && path == DOWNLOADS_FOLDER_PATH@ + "/"@ + uuid_text(task.id) + "_"@ + decoded,
{
}

/// A finished or failed job stays as it is and asks for nothing more.
pub proof fn lemma_terminal_job_is_inert(job: JobView, event: JobEventView)
    requires
        is_terminal(job.stage),
    ensures
        job_step(job, event) == (job, JobActionView::Ignore),
{
}

/// A failure of outside work in any stage of a running job ends it, with the failure's
/// message as its error.
pub proof fn lemma_outside_failure_ends_job(job: JobView, message: Seq<char>)
    requires
        !is_terminal(job.stage),
    ensures
        job_step(job, JobEventView::Failed { message }).0.stage == JobStage::Failed,
        job_step(job, JobEventView::Failed { message }).1 == (JobActionView::Finish {
            outcome: Err(JobErrorView::Outside(message)),
        }),
{
}

/// Nothing is downloaded before the task is marked in progress: a download is asked for only
/// once the in-progress status was stored.
pub proof fn lemma_download_follows_in_progress(job: JobView, event: JobEventView)
    requires
        job_step(job, event).1 is Download,
    ensures
        job.stage == JobStage::MarkingInProgress,
        event is StatusStored,
{
}

/// A task is marked finished only once its transcript was stored.
pub proof fn lemma_finished_follows_stored_transcript(job: JobView, event: JobEventView)
    requires
        job_step(job, event).1 matches JobActionView::SetStatus { status, .. } && status == TaskStatus::Finished,
    ensures
        job.stage == JobStage::StoringTranscript,
        event is TranscriptStored,
{
}

/// Audio that is not sampled at 16 kHz is refused.
pub proof fn lemma_wrong_sample_rate_fails(job: JobView, sample_rate: u32)
    requires
        job.stage == JobStage::OpeningAudio,
        sample_rate != REQUIRED_SAMPLE_RATE,
    ensures
        job_step(job, JobEventView::AudioOpened { sample_rate }).1 == (JobActionView::Finish {
            outcome: Err(JobErrorView::InvalidSampleRate),
        }),
{
}

/// The events of a job whose outside work all succeeds.
pub open spec fn successful_events(conversion: bool, segments: Seq<Seq<char>>) -> Seq<JobEventView> {
    if conversion {
        seq![
            JobEventView::StatusStored,
            JobEventView::Downloaded,
            JobEventView::Converted,
            JobEventView::AudioOpened { sample_rate: REQUIRED_SAMPLE_RATE },
            JobEventView::Transcribed { segments },
            JobEventView::TranscriptStored,
            JobEventView::StatusStored,
        ]
    } else {
        seq![
            JobEventView::StatusStored,
            JobEventView::Downloaded,
            JobEventView::AudioOpened { sample_rate: REQUIRED_SAMPLE_RATE },
            JobEventView::Transcribed { segments },
            JobEventView::TranscriptStored,
            JobEventView::StatusStored,
        ]
    }
}

/// When all outside work succeeds, a job downloads the task's media, converts it when it is
/// not WAV, transcribes it, stores and announces the transcript, marks the task finished, and
/// ends with the segments of the model joined in order.
pub proof fn lemma_successful_job(task: TaskView, path: Seq<char>, conversion: bool, segments: Seq<Seq<char>>)
    requires
        plan_of(task) == Ok::<(Seq<char>, bool), JobErrorView>((path, conversion)),
        conversion ==> wav_path_of(path) is Some,
    ensures
        ({
            let wav = if conversion { wav_path_of(path)->0 } else { path };
            let transcript = joined(segments);
            let finished = run(job_start(task).0, successful_events(conversion, segments));
            let stored = JobActionView::StoreTranscript {
                task: TaskView { transcript, ..task },
                notify_query: notify_done_text(task.id),
            };
            &&& finished.0.stage == JobStage::Done
            &&& finished.0.transcript == transcript
            &&& finished.1 == if conversion {
                seq![
                    JobActionView::Download { url: task.url, path },
                    JobActionView::ConvertToWav { input_path: path, output_path: wav },
                    JobActionView::OpenAudio { path: wav },
                    JobActionView::Transcribe,
                    stored,
                    JobActionView::SetStatus { task_id: task.id, status: TaskStatus::Finished },
                    JobActionView::Finish { outcome: Ok(transcript) },
                ]
            } else {
                seq![
                    JobActionView::Download { url: task.url, path },
                    JobActionView::OpenAudio { path },
                    JobActionView::Transcribe,
                    stored,
                    JobActionView::SetStatus { task_id: task.id, status: TaskStatus::Finished },
                    JobActionView::Finish { outcome: Ok(transcript) },
                ]
            }
        }),
{
    reveal_with_fuel(run, 8);
    let events = successful_events(conversion, segments);
    let finished = run(job_start(task).0, events);
    if conversion {
        assert(events.drop_first().drop_first().drop_first().drop_first().drop_first().drop_first().drop_first().len() == 0);
    } else {
        assert(events.drop_first().drop_first().drop_first().drop_first().drop_first().drop_first().len() == 0);
    }
    assert(finished.1 =~= (if conversion {
        seq![
            JobActionView::Download { url: task.url, path },
            JobActionView::ConvertToWav { input_path: path, output_path: wav_path_of(path)->0 },
            JobActionView::OpenAudio { path: wav_path_of(path)->0 },
            JobActionView::Transcribe,
            JobActionView::StoreTranscript {
                task: TaskView { transcript: joined(segments), ..task },
                notify_query: notify_done_text(task.id),
            },
            JobActionView::SetStatus { task_id: task.id, status: TaskStatus::Finished },
            JobActionView::Finish { outcome: Ok(joined(segments)) },
        ]
    } else {
        seq![
            JobActionView::Download { url: task.url, path },
            JobActionView::OpenAudio { path },
            JobActionView::Transcribe,
            JobActionView::StoreTranscript {
                task: TaskView { transcript: joined(segments), ..task },
                notify_query: notify_done_text(task.id),
            },
            JobActionView::SetStatus { task_id: task.id, status: TaskStatus::Finished },
            JobActionView::Finish { outcome: Ok(joined(segments)) },
        ]
    }));
}

} // verus!
