use stt_core::download::{aux_file_text, hf_file_url, plan_download, DownloadGuard, AUX_FILE_MAX_BYTES};
use stt_core::registry::max_download_bytes;
use stt_core::{find_model_entry, SttError};

#[test]
fn download_and_convert_model_errors_for_unknown_model() {
    // The id is resolved before anything is fetched.
    let err = match plan_download("not-a-model") {
        Err(e) => e,
        Ok(_) => panic!("an unknown model must not be planned"),
    };
    assert!(matches!(err, SttError::ModelNotFound(_)));
    assert_eq!(err.to_string(), "Unknown model: not-a-model");
}

#[test]
fn whisper_downloads_vocab_and_preprocessor_config() {
    let plan = match plan_download("whisper-tiny") {
        Ok(p) => p,
        Err(e) => panic!("{e:?}"),
    };
    let entry = find_model_entry("whisper-tiny").unwrap();
    assert_eq!(plan.entry.id, "whisper-tiny");
    assert_eq!(plan.max_bytes, max_download_bytes(&entry));
    assert!(plan.max_bytes >= entry.safetensors_size);
    assert_eq!(plan.aux_files, vec!["vocab.json", "preprocessor_config.json"]);
    let base = format!("https://huggingface.co/openai/whisper-tiny/resolve/{}/", entry.revision);
    assert_eq!(plan.checkpoint_url, format!("{base}model.safetensors"));
    assert_eq!(
        plan.aux_urls,
        vec![format!("{base}vocab.json"), format!("{base}preprocessor_config.json")]
    );
}

#[test]
fn every_model_is_fetched_at_a_commit_hash() {
    for entry in stt_core::registry::models() {
        assert_eq!(entry.revision.len(), 40, "{}", entry.id);
        assert!(entry.revision.chars().all(|c| c.is_ascii_hexdigit() && !c.is_ascii_uppercase()));
        let plan = match plan_download(entry.id) {
            Ok(p) => p,
            Err(e) => panic!("{e:?}"),
        };
        assert!(plan.checkpoint_url.contains(&format!("/resolve/{}/", entry.revision)));
        assert!(!plan.checkpoint_url.contains("/resolve/main/"));
    }
}

#[test]
fn moonshine_downloads_its_tokenizer() {
    let plan = match plan_download("moonshine-base") {
        Ok(p) => p,
        Err(e) => panic!("{e:?}"),
    };
    assert!(plan.entry.is_moonshine);
    assert_eq!(plan.aux_files, vec!["tokenizer.json"]);
    assert_eq!(plan.aux_urls.len(), 1);
    assert!(plan.aux_urls[0].starts_with("https://huggingface.co/usefulsensors/moonshine-base/resolve/"));
    assert!(plan.aux_urls[0].ends_with("/tokenizer.json"));
}

#[test]
fn urls_point_at_the_pinned_revision() {
    assert_eq!(
        hf_file_url("openai/whisper-tiny", "abc123", "model.safetensors"),
        "https://huggingface.co/openai/whisper-tiny/resolve/abc123/model.safetensors"
    );
}

#[test]
fn announced_size_over_the_limit_is_refused() {
    let err = match DownloadGuard::start("model.safetensors", Some(101), 100) {
        Err(e) => e,
        Ok(_) => panic!("the transfer must be refused"),
    };
    assert_eq!(
        err.to_string(),
        "Refusing to download model.safetensors: server-reported size 101 bytes exceeds the 100 byte limit"
    );
}

#[test]
fn unannounced_size_counts_as_zero() {
    let g = match DownloadGuard::start("vocab.json", None, AUX_FILE_MAX_BYTES) {
        Ok(g) => g,
        Err(e) => panic!("{e:?}"),
    };
    assert_eq!(g.total_bytes(), 0);
    assert_eq!(g.downloaded_bytes(), 0);
}

#[test]
fn chunks_up_to_the_limit_are_accepted_and_the_next_byte_aborts() {
    let mut g = match DownloadGuard::start("tokenizer.json", Some(100), 100) {
        Ok(g) => g,
        Err(e) => panic!("{e:?}"),
    };
    assert_eq!(g.total_bytes(), 100);
    assert!(g.accept_chunk("tokenizer.json", 60).is_ok());
    assert!(g.accept_chunk("tokenizer.json", 40).is_ok());
    assert_eq!(g.downloaded_bytes(), 100);
    let err = g.accept_chunk("tokenizer.json", 1).unwrap_err();
    assert_eq!(
        err.to_string(),
        "Aborting download of tokenizer.json: exceeded the 100 byte limit"
    );
}

#[test]
fn a_server_that_understates_the_size_is_still_bounded() {
    let mut g = match DownloadGuard::start("model.safetensors", Some(10), 1000) {
        Ok(g) => g,
        Err(e) => panic!("{e:?}"),
    };
    assert!(g.accept_chunk("model.safetensors", 999).is_ok());
    assert!(g.accept_chunk("model.safetensors", u64::MAX).is_err());
    assert!(g.downloaded_bytes() <= 1000);
}

#[test]
fn aux_files_must_be_utf8() {
    assert_eq!(aux_file_text("vocab.json", b"{\"a\": 1}".to_vec()).unwrap(), "{\"a\": 1}");
    let err = aux_file_text("vocab.json", vec![0xff, 0xfe]).unwrap_err();
    let expected = format!(
        "vocab.json is not valid UTF-8: {}",
        String::from_utf8(vec![0xff, 0xfe]).unwrap_err()
    );
    assert_eq!(err.to_string(), expected);
}
