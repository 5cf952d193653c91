//! The metadata recorded in a converted `.apr` model, derived from the
//! model's architecture configuration and the source of its weights.
use vstd::prelude::*;

use crate::registry::model_config_dims;


verus! {

/// The family labels recorded in a converted model's metadata.
pub struct MetadataLabels {
    pub architecture: &'static str,
    pub audio_frontend: &'static str,
    pub model_family: &'static str,
}

/// The family labels for a Moonshine or a Whisper configuration: Moonshine
/// models have a learned convolutional front end, Whisper models a mel
/// filterbank.
pub fn metadata_labels(is_moonshine: bool) -> (r: MetadataLabels)
    ensures
        is_moonshine ==> r.architecture@ == "moonshine"@ && r.audio_frontend@ == "learned_conv"@
            && r.model_family@ == "moonshine"@,
        !is_moonshine ==> r.architecture@ == "whisper"@ && r.audio_frontend@ == "mel_filterbank"@
            && r.model_family@ == "whisper"@,
{
    if is_moonshine {
        MetadataLabels {
            architecture: "moonshine",
            audio_frontend: "learned_conv",
            model_family: "moonshine",
        }
    } else {
        MetadataLabels {
            architecture: "whisper",
            audio_frontend: "mel_filterbank",
            model_family: "whisper",
        }
    }
}

/// The dimensions of an architecture configuration that the metadata
/// records, and whether it is a Moonshine configuration.
#[derive(Clone, Copy, Debug)]
pub struct ConfigDims {
    pub n_vocab: u32,
    pub n_audio_ctx: u32,
    pub n_audio_state: u32,
    pub n_audio_head: u32,
    pub n_audio_layer: u32,
    pub n_text_ctx: u32,
    pub n_text_state: u32,
    pub n_text_head: u32,
    pub n_text_layer: u32,
    pub n_mels: u32,
    pub is_moonshine: bool,
}

/// A value of the metadata's free-form part.
#[derive(Clone, Copy, Debug)]
pub enum MetadataValue {
    Number(u32),
    Text(&'static str),
}

/// The plain contents of a metadata value.
pub enum MetadataValueView {
    Number(u32),
    Text(Seq<char>),
}

/// The plain contents of a metadata value.
pub open spec fn value_view(v: MetadataValue) -> MetadataValueView {
    match v {
        MetadataValue::Number(n) => MetadataValueView::Number(n),
        MetadataValue::Text(t) => MetadataValueView::Text(t@),
    }
}

/// The metadata of a converted model.
pub struct ModelMetadata {
    pub model_type: &'static str,
    pub architecture: &'static str,
    pub vocab_size: u32,
    pub hidden_size: u32,
    pub num_layers: u32,
    pub num_heads: u32,
    pub source: String,
    pub original_format: &'static str,
    /// The free-form entries, in order.
    pub custom: Vec<(&'static str, MetadataValue)>,
}

/// The plain free-form entries.
pub open spec fn custom_view(c: Seq<(&'static str, MetadataValue)>) -> Seq<(Seq<char>, MetadataValueView)> {
    c.map_values(|e: (&'static str, MetadataValue)| (e.0@, value_view(e.1)))
}

/// The free-form entries recorded for a configuration: the audio encoder's
/// dimensions, the text context, the mel channels and the family labels.
pub open spec fn custom_entries(d: ConfigDims) -> Seq<(Seq<char>, MetadataValueView)> {
    seq![
        ("n_audio_state"@, MetadataValueView::Number(d.n_audio_state)),
        ("n_audio_layer"@, MetadataValueView::Number(d.n_audio_layer)),
        ("n_audio_head"@, MetadataValueView::Number(d.n_audio_head)),
        ("n_audio_ctx"@, MetadataValueView::Number(d.n_audio_ctx)),
        ("n_text_ctx"@, MetadataValueView::Number(d.n_text_ctx)),
        ("n_mels"@, MetadataValueView::Number(d.n_mels)),
        ("audio_frontend"@, MetadataValueView::Text(
            if d.is_moonshine { "learned_conv"@ } else { "mel_filterbank"@ },
        )),
        ("model_family"@, MetadataValueView::Text(
            if d.is_moonshine { "moonshine"@ } else { "whisper"@ },
        )),
    ]
}

/// Whether `m` is the metadata of a model with configuration `d` whose
/// weights came from `source`.
pub open spec fn is_metadata_for(m: ModelMetadata, d: ConfigDims, source: Seq<char>) -> bool {
    &&& m.model_type@ == "speech-recognition"@
    &&& m.architecture@ == if d.is_moonshine { "moonshine"@ } else { "whisper"@ }
    &&& m.vocab_size == d.n_vocab
    &&& m.hidden_size == d.n_text_state
    &&& m.num_layers == d.n_text_layer
    &&& m.num_heads == d.n_text_head
    &&& m.source@ == source
    &&& m.original_format@ == "safetensors"@
    &&& custom_view(m.custom@) == custom_entries(d)
}

/// The metadata of a model with configuration `dims` converted from `source`:
/// the text decoder's dimensions as vocabulary size, hidden size, layers and
/// heads, and the rest of the configuration as free-form entries.
pub fn metadata_for(dims: &ConfigDims, source: &str) -> (r: ModelMetadata)
    ensures
        is_metadata_for(r, *dims, source@),
{
    let labels = metadata_labels(dims.is_moonshine);
    let mut custom: Vec<(&'static str, MetadataValue)> = Vec::new();
    custom.push(("n_audio_state", MetadataValue::Number(dims.n_audio_state)));
    custom.push(("n_audio_layer", MetadataValue::Number(dims.n_audio_layer)));
    custom.push(("n_audio_head", MetadataValue::Number(dims.n_audio_head)));
    custom.push(("n_audio_ctx", MetadataValue::Number(dims.n_audio_ctx)));
    custom.push(("n_text_ctx", MetadataValue::Number(dims.n_text_ctx)));
    custom.push(("n_mels", MetadataValue::Number(dims.n_mels)));
    custom.push(("audio_frontend", MetadataValue::Text(labels.audio_frontend)));
    custom.push(("model_family", MetadataValue::Text(labels.model_family)));
    proof {
        assert(custom_view(custom@) =~= custom_entries(*dims));
    }
    ModelMetadata {
        model_type: "speech-recognition",
        architecture: labels.architecture,
        vocab_size: dims.n_vocab,
        hidden_size: dims.n_text_state,
        num_layers: dims.n_text_layer,
        num_heads: dims.n_text_head,
        source: String::from_str(source),
        original_format: "safetensors",
        custom,
    }
}

/// Reads the recorded dimensions of a `whisper_apr` configuration (its
/// public fields) and `ModelConfig::is_moonshine`. Claimed: the result is
/// the named function `model_config_dims` of the configuration.
#[verifier::external_body]
fn config_dims(c: &whisper_apr::model::ModelConfig) -> (r: ConfigDims)
    ensures
        r == model_config_dims(*c),
{
    ConfigDims {
        n_vocab: c.n_vocab,
        n_audio_ctx: c.n_audio_ctx,
        n_audio_state: c.n_audio_state,
        n_audio_head: c.n_audio_head,
        n_audio_layer: c.n_audio_layer,
        n_text_ctx: c.n_text_ctx,
        n_text_state: c.n_text_state,
        n_text_head: c.n_text_head,
        n_text_layer: c.n_text_layer,
        n_mels: c.n_mels,
        is_moonshine: c.is_moonshine(),
    }
}

/// The metadata of a model converted with configuration `config` from
/// `source`: laid out from the configuration's dimensions as
/// `metadata_for` does.
pub fn conversion_metadata(config: &whisper_apr::model::ModelConfig, source: &str) -> (r:
    ModelMetadata)
    ensures
        is_metadata_for(r, model_config_dims(*config), source@),
{
    let dims = config_dims(config);
    metadata_for(&dims, source)
}

} // verus!
