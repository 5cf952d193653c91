//! The crate's error type and its user-visible message.
use vstd::prelude::*;


verus! {

/// Errors produced by the transcription and model-management paths.
///
/// The message of several variants (`ApiError`, `HttpRequest`, `Io`,
/// `ModelLoad`, `DecodeAudio`, `TranscribeFailed`) carries raw upstream or
/// internal error text that can contain URLs or filesystem paths; it is meant
/// for logs, not for end users.
#[non_exhaustive]
#[derive(Debug, Clone)]
pub enum SttError {
    MissingApiKey,
    DecodeAudio(String),
    UnsupportedFormat(String),
    HttpRequest(String),
    ApiError { status: String, body: String },
    ModelNotFound(String),
    ModelNotDownloaded(String),
    ModelLoad(String),
    TranscribeFailed(String),
    Io(String),
}

/// The message shown for a missing ElevenLabs API key.
pub open spec fn missing_api_key_text() -> Seq<char> {
    "ElevenLabs API key not configured. Go to Settings to add it."@
}

/// The message of each error: the carried text, except for the two variants
/// that have a fixed wording.
pub open spec fn error_message(e: SttError) -> Seq<char> {
    match e {
        SttError::MissingApiKey => missing_api_key_text(),
        SttError::ApiError { status, body } => "ElevenLabs API error ("@ + status@ + "): "@
            + body@,
        SttError::DecodeAudio(m) => m@,
        SttError::UnsupportedFormat(m) => m@,
        SttError::HttpRequest(m) => m@,
        SttError::ModelNotFound(m) => m@,
        SttError::ModelNotDownloaded(m) => m@,
        SttError::ModelLoad(m) => m@,
        SttError::TranscribeFailed(m) => m@,
        SttError::Io(m) => m@,
    }
}

/// A copy of a `String` with the same contents.
pub fn copy_string(s: &String) -> (r: String)
    ensures
        r@ == s@,
{
    s.clone()
}

impl SttError {
    /// The error's message, as written to logs.
    pub fn to_string(&self) -> (r: String)
        ensures
            r@ == error_message(*self),
    {
        match self {
            SttError::MissingApiKey => {
                String::from_str("ElevenLabs API key not configured. Go to Settings to add it.")
            },
            SttError::ApiError { status, body } => {
                let mut r = String::from_str("ElevenLabs API error (");
                r.append(status.as_str());
                r.append("): ");
                r.append(body.as_str());
                r
            },
            SttError::DecodeAudio(m) => copy_string(m),
            SttError::UnsupportedFormat(m) => copy_string(m),
            SttError::HttpRequest(m) => copy_string(m),
            SttError::ModelNotFound(m) => copy_string(m),
            SttError::ModelNotDownloaded(m) => copy_string(m),
            SttError::ModelLoad(m) => copy_string(m),
            SttError::TranscribeFailed(m) => copy_string(m),
            SttError::Io(m) => copy_string(m),
        }
    }
}

} // verus!
