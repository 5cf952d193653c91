//! The decisions around an ElevenLabs cloud transcription request: what is
//! sent for a given format and key, and what a response body is answered with.
//! The HTTP exchange itself is performed by the caller.
use vstd::prelude::*;

use crate::error::SttError;
use crate::types::AudioFormat;

verus! {

/// The file name under which audio of each format is uploaded.
pub open spec fn upload_file_name(f: AudioFormat) -> Seq<char> {
    match f {
        AudioFormat::Webm => "recording.webm"@,
        AudioFormat::M4a => "recording.m4a"@,
        AudioFormat::Ogg => "recording.ogg"@,
        AudioFormat::Wav => "recording.wav"@,
    }
}

/// The MIME type under which audio of each format is uploaded.
pub open spec fn upload_mime(f: AudioFormat) -> Seq<char> {
    match f {
        AudioFormat::Webm => "audio/webm"@,
        AudioFormat::M4a => "audio/mp4"@,
        AudioFormat::Ogg => "audio/ogg"@,
        AudioFormat::Wav => "audio/wav"@,
    }
}

/// The speech-to-text endpoint that requests are posted to.
pub const ELEVENLABS_STT_URL: &'static str = "https://api.elevenlabs.io/v1/speech-to-text";

/// The transcription model requested from ElevenLabs.
pub const ELEVENLABS_MODEL_ID: &'static str = "scribe_v1";

/// Checks the API key and picks the upload file name and MIME type.
/// An empty key is refused before any request is made.
pub fn elevenlabs_request_parts(api_key: &str, audio_format: AudioFormat) -> (r: Result<
    (&'static str, &'static str),
    SttError,
>)
    ensures
        api_key@.len() == 0 ==> r matches Err(SttError::MissingApiKey),
        api_key@.len() != 0 ==> (r matches Ok((name, mime)) && name@ == upload_file_name(
            audio_format,
        ) && mime@ == upload_mime(audio_format)),
{
    if api_key.is_empty() {
        return Err(SttError::MissingApiKey);
    }
    let parts = match audio_format {
        AudioFormat::Webm => ("recording.webm", "audio/webm"),
        AudioFormat::M4a => ("recording.m4a", "audio/mp4"),
        AudioFormat::Ogg => ("recording.ogg", "audio/ogg"),
        AudioFormat::Wav => ("recording.wav", "audio/wav"),
    };
    Ok(parts)
}

/// What `serde_json` makes of a response body: `None` where the bytes are
/// not a JSON document, else the `"text"` member when it is a string.
pub uninterp spec fn json_text_member(body: Seq<u8>) -> Option<Option<Seq<char>>>;

/// The view of a doubly optional string.
pub open spec fn opt_opt_view(v: Option<Option<String>>) -> Option<Option<Seq<char>>> {
    match v {
        None => None,
        Some(None) => Some(None),
        Some(Some(s)) => Some(Some(s@)),
    }
}

/// Parses `body` with `serde_json::from_slice` into a `serde_json::Value` and
/// reads its `"text"` member as a string (`Value::index`, `Value::as_str`).
/// Claimed: the outcome is the named function `json_text_member` of the bytes.
#[verifier::external_body]
fn parse_text_member(body: &[u8]) -> (r: Option<Option<String>>)
    ensures
        opt_opt_view(r) == json_text_member(body@),
{
    match serde_json::from_slice::<serde_json::Value>(body) {
        Ok(v) => Some(v["text"].as_str().map(|s| s.to_string())),
        Err(_) => None,
    }
}

/// The message of a response body that could not be decoded as JSON.
pub open spec fn decode_failure_text() -> Seq<char> {
    "error decoding response body"@
}

/// The message of a JSON response without a string `"text"` member.
pub open spec fn no_text_failure_text() -> Seq<char> {
    "No transcription text in response"@
}

/// The answer for a successful response, given what its body decoded to.
pub open spec fn transcript_answer(member: Option<Option<Seq<char>>>, r: Result<
    String,
    SttError,
>) -> bool {
    match member {
        None => (r matches Err(SttError::HttpRequest(m)) && m@ == decode_failure_text()),
        Some(None) => (r matches Err(SttError::TranscribeFailed(m)) && m@
            == no_text_failure_text()),
        Some(Some(t)) => (r matches Ok(s) && s@ == t),
    }
}

/// The answer for a successful response once its body has been decoded:
/// the transcript text, or the error for an undecodable body or a missing
/// `"text"` string.
pub fn transcript_from_member(member: Option<Option<String>>) -> (r: Result<String, SttError>)
    ensures
        transcript_answer(opt_opt_view(member), r),
{
    match member {
        None => Err(SttError::HttpRequest(String::from_str("error decoding response body"))),
        Some(None) => Err(
            SttError::TranscribeFailed(String::from_str("No transcription text in response")),
        ),
        Some(Some(s)) => Ok(s),
    }
}

/// The answer for the body of a successful ElevenLabs response.
pub fn elevenlabs_transcript(body: &[u8]) -> (r: Result<String, SttError>)
    ensures
        transcript_answer(json_text_member(body@), r),
{
    let member = parse_text_member(body);
    transcript_from_member(member)
}

} // verus!
