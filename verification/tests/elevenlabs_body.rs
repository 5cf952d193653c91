use stt_core::elevenlabs::{elevenlabs_request_parts, elevenlabs_transcript};
use stt_core::{AudioFormat, SttError};

#[test]
fn missing_api_key_short_circuits_before_any_request() {
    let r = elevenlabs_request_parts("", AudioFormat::Wav);
    assert!(matches!(r, Err(SttError::MissingApiKey)));
}

#[test]
fn upload_names_and_mime_types() {
    assert_eq!(
        elevenlabs_request_parts("k", AudioFormat::M4a).unwrap(),
        ("recording.m4a", "audio/mp4")
    );
    assert_eq!(
        elevenlabs_request_parts("k", AudioFormat::Webm).unwrap(),
        ("recording.webm", "audio/webm")
    );
    assert_eq!(
        elevenlabs_request_parts("k", AudioFormat::Ogg).unwrap(),
        ("recording.ogg", "audio/ogg")
    );
    assert_eq!(
        elevenlabs_request_parts("k", AudioFormat::Wav).unwrap(),
        ("recording.wav", "audio/wav")
    );
}

#[test]
fn transcript_text_is_read_from_the_body() {
    let r = elevenlabs_transcript(br#"{"language_code":"en","text":"hello there"}"#);
    assert_eq!(r.unwrap(), "hello there");
}

#[test]
fn body_without_text_is_a_transcription_failure() {
    match elevenlabs_transcript(br#"{"text": 5}"#) {
        Err(SttError::TranscribeFailed(m)) => assert_eq!(m, "No transcription text in response"),
        other => panic!("unexpected {:?}", other),
    }
}

#[test]
fn undecodable_body_is_an_http_error() {
    match elevenlabs_transcript(b"not json") {
        Err(SttError::HttpRequest(m)) => assert_eq!(m, "error decoding response body"),
        other => panic!("unexpected {:?}", other),
    }
}
