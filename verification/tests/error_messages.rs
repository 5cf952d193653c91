use stt_core::SttError;

#[test]
fn missing_api_key_message_matches_legacy_string() {
    assert_eq!(
        SttError::MissingApiKey.to_string(),
        "ElevenLabs API key not configured. Go to Settings to add it."
    );
}

#[test]
fn api_error_message_matches_legacy_format() {
    let err = SttError::ApiError {
        status: "500 Internal Server Error".to_string(),
        body: "boom".to_string(),
    };
    assert_eq!(
        err.to_string(),
        "ElevenLabs API error (500 Internal Server Error): boom"
    );
}

#[test]
fn carried_messages_are_returned_verbatim() {
    assert_eq!(SttError::Io("disk full".to_string()).to_string(), "disk full");
    assert_eq!(
        SttError::ModelLoad("Failed to load model: bad header".to_string()).to_string(),
        "Failed to load model: bad header"
    );
}
