//! The checks around a local transcription: which audio is accepted, and
//! what is returned of the engine's text. Decoding and inference are done by
//! the caller between these steps.
use vstd::prelude::*;

use crate::error::SttError;
use crate::text::{str_eq, trim, trim_str};

verus! {

/// The message refusing a format other than WAV.
pub open spec fn unsupported_local_format_text(format: Seq<char>) -> Seq<char> {
    "Local transcription currently supports WAV format only. Got: "@ + format
}

/// The message for audio that decodes to no samples.
pub open spec fn empty_audio_text() -> Seq<char> {
    "Audio is empty after decoding"@
}

/// Local transcription accepts exactly the format hint `"wav"`.
pub fn check_local_format(audio_format: &str) -> (r: Result<(), SttError>)
    ensures
        audio_format@ == "wav"@ ==> r is Ok,
        audio_format@ != "wav"@ ==> (r matches Err(SttError::UnsupportedFormat(m)) && m@
            == unsupported_local_format_text(audio_format@)),
{
    if str_eq(audio_format, "wav") {
        Ok(())
    } else {
        let mut m = String::from_str("Local transcription currently supports WAV format only. Got: ");
        m.append(audio_format);
        Err(SttError::UnsupportedFormat(m))
    }
}

/// Audio that decodes to no samples is refused before inference.
pub fn check_decoded_samples(sample_count: usize) -> (r: Result<(), SttError>)
    ensures
        sample_count > 0 ==> r is Ok,
        sample_count == 0 ==> (r matches Err(SttError::TranscribeFailed(m)) && m@
            == empty_audio_text()),
{
    if sample_count == 0 {
        Err(SttError::TranscribeFailed(String::from_str("Audio is empty after decoding")))
    } else {
        Ok(())
    }
}

/// The transcript returned for the engine's text: the text without leading
/// and trailing white space.
pub fn transcript_text(engine_text: &str) -> (r: String)
    ensures
        r@ == trim(engine_text@),
{
    trim_str(engine_text)
}

} // verus!
