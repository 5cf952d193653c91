use stt_core::registry::{find_model_entry, model_file_name, get_model_config, max_download_bytes, model_kind, model_path, models, ModelKind};

#[test]
fn find_model_entry_resolves_all_registry_ids() {
    for entry in models() {
        let found = find_model_entry(entry.id).expect("model should be found");
        assert_eq!(found.apr_filename, entry.apr_filename);
    }
}

#[test]
fn find_model_entry_unknown_id_returns_none() {
    assert!(find_model_entry("does-not-exist").is_none());
}

#[test]
fn get_model_config_covers_all_registry_ids() {
    for entry in models() {
        assert!(
            get_model_config(entry.id).is_some(),
            "missing model config for {}",
            entry.id
        );
    }
}

#[test]
fn download_bound_covers_every_registry_entry() {
    for entry in models() {
        let bound = max_download_bytes(&entry);
        assert!(
            bound >= entry.safetensors_size,
            "{}: download bound {} is below the real safetensors size {}",
            entry.id,
            bound,
            entry.safetensors_size
        );
    }
}

#[test]
fn download_bound_is_one_and_a_quarter_of_the_size() {
    let entry = find_model_entry("whisper-tiny").unwrap();
    assert_eq!(max_download_bytes(&entry), 151_061_672 + 151_061_672 / 4);
    let mut small = entry;
    small.safetensors_size = 1_000;
    assert_eq!(max_download_bytes(&small), 10_000_000);
    let mut huge = entry;
    huge.safetensors_size = u64::MAX - 1;
    assert_eq!(max_download_bytes(&huge), u64::MAX);
}

#[test]
fn registry_holds_eight_models_in_order() {
    let ids: Vec<&str> = models().iter().map(|m| m.id).collect();
    assert_eq!(
        ids,
        vec![
            "moonshine-tiny",
            "moonshine-base",
            "whisper-tiny",
            "whisper-base",
            "whisper-small",
            "whisper-medium",
            "whisper-large",
            "whisper-large-v3-turbo"
        ]
    );
}

#[test]
fn model_kinds_agree_with_the_moonshine_flag() {
    for entry in models() {
        let kind = model_kind(entry.id).unwrap();
        let is_moonshine = matches!(kind, ModelKind::MoonshineTiny | ModelKind::MoonshineBase);
        assert_eq!(is_moonshine, entry.is_moonshine);
    }
    assert_eq!(model_kind("whisper-large"), Some(ModelKind::WhisperLarge));
    assert_eq!(model_kind("whisper-large-v3"), None);
}

#[test]
fn model_path_joins_the_apr_file_name() {
    let dir = std::path::Path::new("/models");
    assert_eq!(
        model_path(dir, "whisper-small"),
        Some(dir.join("whisper-small.apr"))
    );
    assert_eq!(model_path(dir, "nope"), None);
}

#[test]
fn model_file_names_come_from_the_registry() {
    assert_eq!(model_file_name("whisper-tiny"), Some("whisper-tiny.apr"));
    assert_eq!(model_file_name("moonshine-base"), Some("moonshine-base.apr"));
    assert_eq!(model_file_name("not-a-model"), None);
}
