use stt_core::metadata::{conversion_metadata, metadata_for, metadata_labels, ConfigDims, MetadataValue};
use stt_core::convert::TensorDtype;
use stt_core::tensors::{
    dtype_from_name, prepare_moonshine_conversion, prepare_whisper_conversion, PreparedConversion,
};
use stt_core::vocab::{
    build_moonshine_vocab, build_whisper_vocab, moonshine_vocab_from_entries, whisper_vocab_from_entries,
};
use stt_core::SttError;
use whisper_apr::format::{map_moonshine_tensor_name, map_tensor_name};

/// A SafeTensors file holding the given `(name, dtype, element count, element width)`
/// tensors, laid out one after the other with zeroed payloads.
fn checkpoint(tensors: &[(&str, &str, usize, usize)]) -> Vec<u8> {
    let mut header = String::from("{");
    let mut offset = 0usize;
    for (k, (name, dtype, count, width)) in tensors.iter().enumerate() {
        if k > 0 {
            header.push(',');
        }
        let end = offset + count * width;
        header.push_str(&format!(
            "\"{name}\":{{\"dtype\":\"{dtype}\",\"shape\":[{count}],\"data_offsets\":[{offset},{end}]}}"
        ));
        offset = end;
    }
    header.push('}');
    let mut bytes = (header.len() as u64).to_le_bytes().to_vec();
    bytes.extend_from_slice(header.as_bytes());
    bytes.extend(std::iter::repeat(0u8).take(offset));
    bytes
}

fn prepared<'a>(r: Result<PreparedConversion<'a>, SttError>) -> PreparedConversion<'a> {
    match r {
        Ok(p) => p,
        Err(e) => panic!("conversion refused: {e:?}"),
    }
}

fn refused<'a>(r: Result<PreparedConversion<'a>, SttError>) -> SttError {
    match r {
        Ok(_) => panic!("conversion unexpectedly accepted"),
        Err(e) => e,
    }
}

/// `(source tensor name, written name)` of each step, sorted.
fn written(p: &PreparedConversion) -> Vec<(String, String)> {
    let mut v: Vec<(String, String)> = p
        .steps
        .iter()
        .map(|s| (p.tensors[s.source].name.clone(), s.name.clone()))
        .collect();
    v.sort();
    v
}

#[test]
fn whisper_checkpoint_writes_every_tensor_under_its_mapped_name() {
    let bytes = checkpoint(&[
        ("model.embed_tokens.weight", "F32", 4, 4),
        ("model.layers.0.self_attn.q_proj.weight", "F16", 2, 2),
        ("lm_head.weight", "BF16", 3, 2),
    ]);
    let p = prepared(prepare_whisper_conversion(&bytes, "{\"a\": 0}", "whisper-tiny"));
    assert_eq!(p.source, "hf://openai/whisper-tiny");
    assert_eq!(p.tensors.len(), 3);
    assert_eq!(p.steps.len(), 3);
    for (k, s) in p.steps.iter().enumerate() {
        assert_eq!(s.source, k);
        assert_eq!(s.name, map_tensor_name(&p.tensors[k].name));
    }
    assert!(p.vocab.is_some());
}

#[test]
fn unreadable_vocab_file_leaves_the_vocabulary_out() {
    let bytes = checkpoint(&[("lm_head.weight", "F32", 1, 4)]);
    let p = prepared(prepare_whisper_conversion(&bytes, "not json", "whisper-base"));
    assert!(p.vocab.is_none());
    assert_eq!(p.steps.len(), 1);
}

#[test]
fn unknown_model_config_is_refused_first() {
    let err = refused(prepare_whisper_conversion(&[1, 2, 3], "{}", "not-a-model"));
    assert!(matches!(err, SttError::ModelNotFound(_)));
    assert_eq!(err.to_string(), "Unknown model config: not-a-model");
}

#[test]
fn malformed_checkpoint_is_refused() {
    let err = refused(prepare_whisper_conversion(&[1, 2, 3], "{}", "whisper-tiny"));
    assert!(matches!(err, SttError::TranscribeFailed(_)));
    let expected = format!(
        "Failed to parse SafeTensors: {}",
        safetensors::SafeTensors::deserialize(&[1, 2, 3]).unwrap_err()
    );
    assert_eq!(err.to_string(), expected);
}

#[test]
fn tensor_of_unsupported_dtype_refuses_the_conversion() {
    let bytes = checkpoint(&[("model.norm.weight", "F64", 2, 8)]);
    let err = refused(prepare_whisper_conversion(&bytes, "{}", "whisper-tiny"));
    assert!(matches!(err, SttError::TranscribeFailed(_)));
    assert_eq!(
        err.to_string(),
        "Tensor 'model.norm.weight' has unsupported dtype F64; cannot convert model"
    );
}

#[test]
fn moonshine_ties_the_output_projection_to_the_embedding() {
    let bytes = checkpoint(&[
        ("model.decoder.embed_tokens.weight", "F32", 2, 4),
        ("model.decoder.norm.weight", "F32", 2, 4),
    ]);
    let p = prepared(prepare_moonshine_conversion(&bytes, "{}", "moonshine-tiny"));
    assert_eq!(p.source, "hf://usefulsensors/moonshine-tiny");
    assert_eq!(p.steps.len(), 3);
    let last = p.steps.last().unwrap();
    assert_eq!(last.name, "decoder.proj_out.weight");
    assert_eq!(p.tensors[last.source].name, "model.decoder.embed_tokens.weight");
    assert_eq!(
        written(&p),
        vec![
            (
                "model.decoder.embed_tokens.weight".to_string(),
                "decoder.proj_out.weight".to_string()
            ),
            (
                "model.decoder.embed_tokens.weight".to_string(),
                "decoder.token_embedding.weight".to_string()
            ),
            ("model.decoder.norm.weight".to_string(), "decoder.ln_post.weight".to_string()),
        ]
    );
}

#[test]
fn moonshine_keeps_its_own_output_projection() {
    let bytes = checkpoint(&[
        ("model.decoder.embed_tokens.weight", "F32", 2, 4),
        ("proj_out.weight", "F16", 2, 2),
    ]);
    let p = prepared(prepare_moonshine_conversion(&bytes, "{}", "moonshine-base"));
    assert_eq!(p.steps.len(), 2);
    for (k, s) in p.steps.iter().enumerate() {
        assert_eq!(s.source, k);
        assert_eq!(s.name, map_moonshine_tensor_name(&p.tensors[k].name));
    }
}

#[test]
fn moonshine_without_embedding_adds_nothing() {
    let bytes = checkpoint(&[("model.encoder.conv1.weight", "F32", 1, 4)]);
    let p = prepared(prepare_moonshine_conversion(&bytes, "{}", "moonshine-tiny"));
    assert_eq!(p.steps.len(), 1);
    assert_eq!(p.steps[0].name, "encoder.conv1.weight");
}

#[test]
fn metadata_labels_follow_the_family() {
    let m = metadata_labels(true);
    assert_eq!((m.architecture, m.audio_frontend, m.model_family), ("moonshine", "learned_conv", "moonshine"));
    let w = metadata_labels(false);
    assert_eq!((w.architecture, w.audio_frontend, w.model_family), ("whisper", "mel_filterbank", "whisper"));
}

fn custom_entries(m: &stt_core::metadata::ModelMetadata) -> Vec<String> {
    m.custom
        .iter()
        .map(|(k, v)| match v {
            MetadataValue::Number(n) => format!("{k}={n}"),
            MetadataValue::Text(t) => format!("{k}={t}"),
        })
        .collect()
}

#[test]
fn metadata_records_the_text_decoder_and_the_audio_encoder() {
    let dims = ConfigDims {
        n_vocab: 10,
        n_audio_ctx: 11,
        n_audio_state: 12,
        n_audio_head: 13,
        n_audio_layer: 14,
        n_text_ctx: 15,
        n_text_state: 16,
        n_text_head: 17,
        n_text_layer: 18,
        n_mels: 19,
        is_moonshine: false,
    };
    let m = metadata_for(&dims, "hf://somewhere");
    assert_eq!(m.model_type, "speech-recognition");
    assert_eq!(m.architecture, "whisper");
    assert_eq!((m.vocab_size, m.hidden_size, m.num_layers, m.num_heads), (10, 16, 18, 17));
    assert_eq!(m.source, "hf://somewhere");
    assert_eq!(m.original_format, "safetensors");
    assert_eq!(
        custom_entries(&m),
        vec![
            "n_audio_state=12",
            "n_audio_layer=14",
            "n_audio_head=13",
            "n_audio_ctx=11",
            "n_text_ctx=15",
            "n_mels=19",
            "audio_frontend=mel_filterbank",
            "model_family=whisper",
        ]
    );
}

#[test]
fn metadata_of_whisper_tiny_and_moonshine_tiny() {
    let w = conversion_metadata(&whisper_apr::model::ModelConfig::tiny(), "hf://openai/whisper-tiny");
    assert_eq!(w.architecture, "whisper");
    assert_eq!((w.vocab_size, w.hidden_size, w.num_layers, w.num_heads), (51865, 384, 4, 6));
    assert_eq!(custom_entries(&w)[5], "n_mels=80");
    let m = conversion_metadata(&whisper_apr::model::ModelConfig::moonshine_tiny(), "hf://x");
    assert_eq!(m.architecture, "moonshine");
    assert_eq!(custom_entries(&m)[6], "audio_frontend=learned_conv");
    assert_eq!(custom_entries(&m)[7], "model_family=moonshine");
}

#[test]
fn whisper_vocab_orders_tokens_by_id_and_appends_the_special_tokens() {
    let vocab = build_whisper_vocab("{\"b\": 1, \"\u{0120}x\": 2, \"a\": 0}").unwrap();
    assert_eq!(vocab.len(), 51865);
    assert_eq!(vocab.get_bytes(0), Some(&b"a"[..]));
    assert_eq!(vocab.get_bytes(1), Some(&b"b"[..]));
    // U+0120 is the GPT-2 stand-in for the space byte.
    assert_eq!(vocab.get_bytes(2), Some(&b" x"[..]));
    assert_eq!(vocab.get_bytes(3), Some(&[0u8][..]));
    assert_eq!(vocab.get_bytes(50257), Some(&[0u8][..]));
    assert_eq!(vocab.get_bytes(50258), Some(&b"<|startoftranscript|>"[..]));
    assert_eq!(vocab.get_bytes(50259), Some(&b"<|en|>"[..]));
    assert_eq!(vocab.get_bytes(50357), Some(&b"<|su|>"[..]));
    assert_eq!(vocab.get_bytes(50358), Some(&b"<|translate|>"[..]));
    assert_eq!(vocab.get_bytes(50363), Some(&b"<|notimestamps|>"[..]));
}

#[test]
fn whisper_timestamp_tokens_match_two_decimal_seconds() {
    let vocab = build_whisper_vocab("{}").unwrap();
    for i in 0..1501u32 {
        let seconds = i as f32 * 0.02;
        let expected = format!("<|{seconds:.2}|>");
        assert_eq!(vocab.get_bytes(50364 + i), Some(expected.as_bytes()), "timestamp {i}");
    }
    assert_eq!(vocab.get_bytes(50364), Some(&b"<|0.00|>"[..]));
    assert_eq!(vocab.get_bytes(51864), Some(&b"<|30.00|>"[..]));
}

#[test]
fn whisper_vocab_needs_a_map_of_ids() {
    assert!(build_whisper_vocab("[1, 2]").is_none());
    assert!(build_whisper_vocab("{\"a\": \"x\"}").is_none());
    assert!(build_whisper_vocab("").is_none());
}

#[test]
fn moonshine_vocab_fills_every_id_up_to_the_largest() {
    let json = r#"{
        "model": {"vocab": {"a": 0, "b": 2, "skip": "x"}},
        "added_tokens": [
            {"id": 2, "content": "ignored"},
            {"id": 4, "content": "<s>"},
            {"id": 5},
            {"content": "no id"}
        ]
    }"#;
    let vocab = build_moonshine_vocab(json).unwrap();
    assert_eq!(vocab.len(), 5);
    assert_eq!(vocab.get_bytes(0), Some(&b"a"[..]));
    assert_eq!(vocab.get_bytes(1), Some(&b""[..]));
    assert_eq!(vocab.get_bytes(2), Some(&b"b"[..]));
    assert_eq!(vocab.get_bytes(3), Some(&b""[..]));
    assert_eq!(vocab.get_bytes(4), Some(&b"<s>"[..]));
}

#[test]
fn moonshine_vocab_without_pieces_has_one_empty_token() {
    let vocab = build_moonshine_vocab(r#"{"model": {"vocab": {}}}"#).unwrap();
    assert_eq!(vocab.len(), 1);
    assert_eq!(vocab.get_bytes(0), Some(&b""[..]));
}

#[test]
fn moonshine_vocab_needs_model_vocab() {
    assert!(build_moonshine_vocab(r#"{"model": {}}"#).is_none());
    assert!(build_moonshine_vocab("not json").is_none());
}

#[test]
fn printed_element_types_are_recognised() {
    for (d, expected) in [
        (safetensors::Dtype::F32, TensorDtype::F32),
        (safetensors::Dtype::F16, TensorDtype::F16),
        (safetensors::Dtype::BF16, TensorDtype::BF16),
        (safetensors::Dtype::F64, TensorDtype::Other),
        (safetensors::Dtype::I8, TensorDtype::Other),
        (safetensors::Dtype::U8, TensorDtype::Other),
    ] {
        assert_eq!(dtype_from_name(&format!("{d:?}")), expected);
    }
}

#[test]
fn whisper_vocab_from_entries_sorts_by_id() {
    let vocab = whisper_vocab_from_entries(vec![("c".to_string(), 2), ("a".to_string(), 0), ("b".to_string(), 1)]);
    assert_eq!(vocab.len(), 51865);
    assert_eq!(vocab.get_bytes(0), Some(&b"a"[..]));
    assert_eq!(vocab.get_bytes(1), Some(&b"b"[..]));
    assert_eq!(vocab.get_bytes(2), Some(&b"c"[..]));
}

#[test]
fn moonshine_vocab_from_entries_without_added_tokens() {
    let vocab = moonshine_vocab_from_entries(
        vec![("x".to_string(), Some(1)), ("skip".to_string(), None), ("y".to_string(), Some(1))],
        None,
    );
    // A later piece with the same id replaces the earlier one.
    assert_eq!(vocab.len(), 2);
    assert_eq!(vocab.get_bytes(0), Some(&b""[..]));
    assert_eq!(vocab.get_bytes(1), Some(&b"y"[..]));
}

#[test]
fn configurations_follow_the_architecture() {
    let turbo = stt_core::registry::get_model_config("whisper-large-v3-turbo").unwrap();
    let m = conversion_metadata(&turbo, "hf://openai/whisper-large-v3-turbo");
    assert_eq!((m.vocab_size, m.hidden_size, m.num_layers, m.num_heads), (51866, 1280, 4, 20));
    assert_eq!(custom_entries(&m)[5], "n_mels=128");
    let base = stt_core::registry::kind_config(stt_core::registry::ModelKind::MoonshineBase);
    let b = conversion_metadata(&base, "hf://usefulsensors/moonshine-base");
    assert_eq!((b.vocab_size, b.hidden_size, b.num_layers, b.num_heads), (32768, 416, 8, 8));
    assert_eq!(custom_entries(&b)[7], "model_family=moonshine");
}
