//! Request-level types: the audio container format, the STT configuration
//! and the provider routing decision.
use vstd::prelude::*;

use crate::text::{ascii_lower, str_eq, to_ascii_lowercase};

verus! {

/// Audio container format for a transcription request.
#[derive(Debug, Clone, Copy, PartialEq, Eq, Structural)]
pub enum AudioFormat {
    Wav,
    Webm,
    M4a,
    Ogg,
}

/// The format named by an extension or hint, once lower-cased.
pub open spec fn format_of_lowered(lowered: Seq<char>) -> AudioFormat {
    if lowered == "webm"@ {
        AudioFormat::Webm
    } else if lowered == "mp4"@ || lowered == "m4a"@ {
        AudioFormat::M4a
    } else if lowered == "ogg"@ {
        AudioFormat::Ogg
    } else {
        AudioFormat::Wav
    }
}

/// The canonical lower-case name of a format.
pub open spec fn format_name(f: AudioFormat) -> Seq<char> {
    match f {
        AudioFormat::Wav => "wav"@,
        AudioFormat::Webm => "webm"@,
        AudioFormat::M4a => "m4a"@,
        AudioFormat::Ogg => "ogg"@,
    }
}

impl AudioFormat {
    /// Parse a format from a file extension or format hint string
    /// (e.g. `"wav"`, `"mp4"`, `"m4a"`, `"webm"`, `"ogg"`), ignoring ASCII case.
    /// Unknown values default to `Wav`.
    pub fn from_extension(ext: &str) -> (r: AudioFormat)
        ensures
            r == format_of_lowered(ascii_lower(ext@)),
    {
        let lowered = to_ascii_lowercase(ext);
        let l = lowered.as_str();
        if str_eq(l, "webm") {
            AudioFormat::Webm
        } else if str_eq(l, "mp4") || str_eq(l, "m4a") {
            AudioFormat::M4a
        } else if str_eq(l, "ogg") {
            AudioFormat::Ogg
        } else {
            AudioFormat::Wav
        }
    }

    /// The canonical lower-case name of this format.
    pub fn as_str(&self) -> (r: &'static str)
        ensures
            r@ == format_name(*self),
    {
        match self {
            AudioFormat::Wav => "wav",
            AudioFormat::Webm => "webm",
            AudioFormat::M4a => "m4a",
            AudioFormat::Ogg => "ogg",
        }
    }
}

/// Parsing a format's canonical name gives the format back, and `"mp4"`
/// names the same format as `"m4a"`.
pub proof fn lemma_format_name_round_trip(f: AudioFormat)
    ensures
        format_of_lowered(ascii_lower(format_name(f))) == f,
        format_of_lowered("mp4"@) == AudioFormat::M4a,
{
    reveal_strlit("wav");
    reveal_strlit("webm");
    reveal_strlit("m4a");
    reveal_strlit("mp4");
    reveal_strlit("ogg");
    assert("mp4"@.len() == 3);
    assert("webm"@.len() == 4);
    assert("mp4"@ != "webm"@);
    assert("wav"@ != "webm"@ && "wav"@ != "mp4"@ && "wav"@ != "m4a"@ && "wav"@ != "ogg"@) by {
        assert("wav"@[0] != "mp4"@[0] && "wav"@[0] != "m4a"@[0] && "wav"@[0] != "ogg"@[0]);
    }
    assert("m4a"@ != "webm"@ && "m4a"@ != "mp4"@) by {
        assert("m4a"@[1] != "mp4"@[1]);
    }
    assert("ogg"@ != "webm"@ && "ogg"@ != "mp4"@ && "ogg"@ != "m4a"@) by {
        assert("ogg"@[0] != "mp4"@[0]);
    }
    assert(ascii_lower(format_name(f)) =~= format_name(f));
}

/// STT provider selection and credentials, sourced from app settings.
#[derive(Debug, Clone, Default)]
pub struct SttConfig {
    /// Which backend to use: `"whisper"` selects local inference, anything
    /// else falls back to ElevenLabs. See [`route_provider`].
    pub stt_provider: String,
    /// ElevenLabs API key; needed only when the request is routed to ElevenLabs.
    pub elevenlabs_api_key: String,
    /// Model id from the model registry (e.g. `"whisper-tiny"`); needed only
    /// when the request is routed to local Whisper.
    pub whisper_model_size: String,
}

/// Which backend a transcription request is routed to.
#[derive(Debug, Clone, Copy, PartialEq, Eq, Structural)]
pub enum Provider {
    /// Cloud transcription via the ElevenLabs API.
    ElevenLabs,
    /// Local, offline transcription via Whisper/Moonshine.
    Whisper,
}

/// The provider selected by a configured provider name.
pub open spec fn provider_for(name: Seq<char>) -> Provider {
    if name == "whisper"@ {
        Provider::Whisper
    } else {
        Provider::ElevenLabs
    }
}

/// Decide which provider a request should use: exactly the name `"whisper"`
/// selects local inference, anything else ElevenLabs.
pub fn route_provider(cfg: &SttConfig) -> (r: Provider)
    ensures
        r == provider_for(cfg.stt_provider@),
{
    if str_eq(cfg.stt_provider.as_str(), "whisper") {
        Provider::Whisper
    } else {
        Provider::ElevenLabs
    }
}

} // verus!
