use stt_core::local::{check_decoded_samples, check_local_format, transcript_text};
use stt_core::SttError;

#[test]
fn only_wav_is_transcribed_locally() {
    assert!(check_local_format("wav").is_ok());
    let err = check_local_format("mp3").unwrap_err();
    assert!(matches!(err, SttError::UnsupportedFormat(_)));
    assert_eq!(
        err.to_string(),
        "Local transcription currently supports WAV format only. Got: mp3"
    );
    // The hint is compared exactly.
    assert!(check_local_format("WAV").is_err());
}

#[test]
fn empty_audio_is_refused() {
    let err = check_decoded_samples(0).unwrap_err();
    assert!(matches!(err, SttError::TranscribeFailed(_)));
    assert_eq!(err.to_string(), "Audio is empty after decoding");
    assert!(check_decoded_samples(1).is_ok());
}

#[test]
fn transcript_is_trimmed() {
    assert_eq!(transcript_text("  hello world \n"), "hello world");
    assert_eq!(transcript_text("\u{3000}テスト\t"), "テスト");
    assert_eq!(transcript_text("   "), "");
}
