use std::path::Path;

use stt_core::slot::{model_load_error, require_downloaded, ModelSlot};
use stt_core::SttError;

fn missing_models_dir() -> &'static Path {
    Path::new("target/stt-core-tests/no-models-here")
}

#[test]
fn ensure_model_errors_when_not_downloaded() {
    let slot = ModelSlot::new();
    let path = slot
        .plan_load(missing_models_dir(), "whisper-tiny")
        .unwrap()
        .expect("a known model that is not loaded must be read from disk");
    let err = require_downloaded("whisper-tiny", path.exists()).unwrap_err();
    assert!(matches!(err, SttError::ModelNotDownloaded(_)));
    assert_eq!(
        err.to_string(),
        "Model 'whisper-tiny' not downloaded. Download it in Settings first."
    );
}

#[test]
fn ensure_model_errors_for_unknown_model_id() {
    let slot = ModelSlot::new();
    let err = slot
        .plan_load(missing_models_dir(), "not-a-model")
        .unwrap_err();
    assert!(matches!(err, SttError::ModelNotFound(_)));
    assert_eq!(err.to_string(), "Unknown model: not-a-model");
}

#[test]
fn an_existing_file_may_be_loaded() {
    assert!(require_downloaded("whisper-tiny", true).is_ok());
}

#[test]
fn plan_load_points_at_the_apr_file() {
    let slot = ModelSlot::new();
    let path = slot
        .plan_load(Path::new("/models"), "whisper-base")
        .unwrap()
        .unwrap();
    assert_eq!(path, Path::new("/models").join("whisper-base.apr"));
}

#[test]
fn a_loaded_model_is_not_loaded_again() {
    let mut slot = ModelSlot::new();
    assert!(!slot.is_loaded("whisper-tiny"));
    slot.record_loaded("whisper-tiny");
    assert!(slot.is_loaded("whisper-tiny"));
    assert!(!slot.is_loaded("whisper-base"));
    assert!(slot
        .plan_load(missing_models_dir(), "whisper-tiny")
        .unwrap()
        .is_none());
    // Another model still has to be read.
    assert!(slot
        .plan_load(missing_models_dir(), "whisper-base")
        .unwrap()
        .is_some());
}

#[test]
fn unload_only_forgets_the_named_model() {
    let mut slot = ModelSlot::new();
    slot.record_loaded("whisper-tiny");
    assert!(!slot.unload_if_loaded("whisper-base"));
    assert!(slot.is_loaded("whisper-tiny"));
    assert!(slot.unload_if_loaded("whisper-tiny"));
    assert!(!slot.is_loaded("whisper-tiny"));
    assert!(!slot.unload_if_loaded("whisper-tiny"));
}

#[test]
fn loading_a_later_model_replaces_the_first() {
    let mut slot = ModelSlot::new();
    slot.record_loaded("whisper-tiny");
    slot.record_loaded("moonshine-tiny");
    assert!(slot.is_loaded("moonshine-tiny"));
    assert!(!slot.is_loaded("whisper-tiny"));
}

#[test]
fn engine_refusals_are_model_load_errors() {
    let err = model_load_error("format error: bad magic");
    assert!(matches!(err, SttError::ModelLoad(_)));
    assert_eq!(err.to_string(), "Failed to load model: format error: bad magic");
}

#[test]
fn preloading_needs_a_known_model_on_disk() {
    assert!(stt_core::slot::preload_wanted("whisper-tiny", true));
    assert!(!stt_core::slot::preload_wanted("whisper-tiny", false));
    assert!(!stt_core::slot::preload_wanted("not-a-model", true));
}
