use stt_core::{route_provider, AudioFormat, Provider, SttConfig};

#[test]
fn route_provider_defaults_to_elevenlabs() {
    let cfg = SttConfig {
        stt_provider: "elevenlabs".to_string(),
        elevenlabs_api_key: "key".to_string(),
        whisper_model_size: "whisper-tiny".to_string(),
    };
    assert_eq!(route_provider(&cfg), Provider::ElevenLabs);
}

#[test]
fn route_provider_selects_whisper_when_configured() {
    let cfg = SttConfig {
        stt_provider: "whisper".to_string(),
        elevenlabs_api_key: String::new(),
        whisper_model_size: "whisper-tiny".to_string(),
    };
    assert_eq!(route_provider(&cfg), Provider::Whisper);
}

#[test]
fn route_provider_is_exact_about_the_name() {
    let mut cfg = SttConfig::default();
    cfg.stt_provider = "Whisper".to_string();
    assert_eq!(route_provider(&cfg), Provider::ElevenLabs);
    cfg.stt_provider = "whisper ".to_string();
    assert_eq!(route_provider(&cfg), Provider::ElevenLabs);
    cfg.stt_provider = String::new();
    assert_eq!(route_provider(&cfg), Provider::ElevenLabs);
}

#[test]
fn unknown_extension_defaults_to_wav() {
    assert_eq!(AudioFormat::from_extension("flac"), AudioFormat::Wav);
}

#[test]
fn mp4_and_m4a_both_map_to_m4a() {
    assert_eq!(AudioFormat::from_extension("mp4"), AudioFormat::M4a);
    assert_eq!(AudioFormat::from_extension("m4a"), AudioFormat::M4a);
}

#[test]
fn extension_matching_ignores_ascii_case() {
    assert_eq!(AudioFormat::from_extension("WEBM"), AudioFormat::Webm);
    assert_eq!(AudioFormat::from_extension("Ogg"), AudioFormat::Ogg);
    assert_eq!(AudioFormat::from_extension("MP4"), AudioFormat::M4a);
    assert_eq!(AudioFormat::from_extension("wav"), AudioFormat::Wav);
    assert_eq!(AudioFormat::from_extension(""), AudioFormat::Wav);
}

#[test]
fn format_names_round_trip() {
    for f in [AudioFormat::Wav, AudioFormat::Webm, AudioFormat::M4a, AudioFormat::Ogg] {
        assert_eq!(AudioFormat::from_extension(f.as_str()), f);
    }
    assert_eq!(AudioFormat::M4a.as_str(), "m4a");
    assert_eq!(AudioFormat::Wav.as_str(), "wav");
}
