//! Transcription requests queued by the API for its worker.
use vstd::prelude::*;
use vstd::string::*;

verus! {

/// Address under which uploaded media is served.
pub const MEDIA_HOST: &'static str = "https://videos3.nate-wong.com";

/// A request to transcribe the uploaded media at `url` (a key under the media host) for user
/// `user_id`.
#[derive(Debug)]
pub struct TranscribeTask {
    pub url: String,
    pub user_id: i64,
}

/// The address of a request's media: `<media host>/<key>`.
pub open spec fn source_url_text(key: Seq<char>) -> Seq<char> {
    MEDIA_HOST@ + "/"@ + key
}

impl TranscribeTask {
    /// The address that the worker reads the media from.
    pub fn source_url(&self) -> (address: String)
        ensures
            address@ == source_url_text(self.url@),
    {
        String::from_str(MEDIA_HOST).concat("/").concat(self.url.as_str())
    }
}

} // verus!
