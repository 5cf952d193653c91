//! The registry of supported local models and the lookups over it.
use vstd::prelude::*;

use crate::metadata::ConfigDims;
use crate::text::str_eq;

verus! {

/// Static metadata for one supported model.
#[derive(Clone, Copy, Debug)]
pub struct ModelEntry {
    pub id: &'static str,
    pub name: &'static str,
    pub description: &'static str,
    /// HuggingFace repo the SafeTensors weights are downloaded from.
    pub hf_repo: &'static str,
    /// Pinned HuggingFace commit to download from, instead of the mutable
    /// `main` ref.
    pub revision: &'static str,
    pub is_moonshine: bool,
    /// Approximate size of the converted `.apr` file, for display only.
    pub estimated_size: u64,
    /// Actual size in bytes of `model.safetensors` at the pinned revision;
    /// the download bound is derived from it.
    pub safetensors_size: u64,
    /// File name of the converted model inside a models directory.
    pub apr_filename: &'static str,
}

/// Caller-facing view of a model's registry metadata plus its on-disk
/// download state, for populating a model picker.
#[derive(Clone, Debug)]
pub struct WhisperModelInfo {
    pub id: String,
    pub name: String,
    pub description: String,
    pub size_bytes: u64,
    pub downloaded: bool,
    pub file_size: Option<u64>,
}

/// Number of models in the registry.
pub const MODEL_COUNT: usize = 8;

/// The registry entry at position `i`.
pub open spec fn registry_entry(i: int) -> ModelEntry {
    if i == 0 {
        ModelEntry {
            id: "moonshine-tiny",
            name: "Moonshine Tiny",
            description: "54 MB — Ultra-fast, great for live preview",
            hf_repo: "usefulsensors/moonshine-tiny",
            revision: "390624ed33d594443aa4aa221f5b9f283b545b5a",
            is_moonshine: true,
            estimated_size: 54_000_000,
            safetensors_size: 108_389_192,
            apr_filename: "moonshine-tiny.apr",
        }
    } else if i == 1 {
        ModelEntry {
            id: "moonshine-base",
            name: "Moonshine Base",
            description: "123 MB — Fast with good accuracy",
            hf_repo: "usefulsensors/moonshine-base",
            revision: "7a73d8d55ac0ba2ef3ae761593f6784b51f96dcf",
            is_moonshine: true,
            estimated_size: 123_000_000,
            safetensors_size: 246_079_928,
            apr_filename: "moonshine-base.apr",
        }
    } else if i == 2 {
        ModelEntry {
            id: "whisper-tiny",
            name: "Whisper Tiny",
            description: "78 MB — Fastest Whisper, quick notes",
            hf_repo: "openai/whisper-tiny",
            revision: "169d4a4341b33bc18d8881c4b69c2e104e1cc0af",
            is_moonshine: false,
            estimated_size: 78_000_000,
            safetensors_size: 151_061_672,
            apr_filename: "whisper-tiny.apr",
        }
    } else if i == 3 {
        ModelEntry {
            id: "whisper-base",
            name: "Whisper Base",
            description: "148 MB — Good balance of speed and accuracy",
            hf_repo: "openai/whisper-base",
            revision: "e37978b90ca9030d5170a5c07aadb050351a65bb",
            is_moonshine: false,
            estimated_size: 148_000_000,
            safetensors_size: 290_403_936,
            apr_filename: "whisper-base.apr",
        }
    } else if i == 4 {
        ModelEntry {
            id: "whisper-small",
            name: "Whisper Small",
            description: "488 MB — Better accuracy, still fast",
            hf_repo: "openai/whisper-small",
            revision: "973afd24965f72e36ca33b3055d56a652f456b4d",
            is_moonshine: false,
            estimated_size: 488_000_000,
            safetensors_size: 966_995_080,
            apr_filename: "whisper-small.apr",
        }
    } else if i == 5 {
        ModelEntry {
            id: "whisper-medium",
            name: "Whisper Medium",
            description: "1.5 GB — High accuracy",
            hf_repo: "openai/whisper-medium",
            revision: "abdf7c39ab9d0397620ccaea8974cc764cd0953e",
            is_moonshine: false,
            estimated_size: 1_500_000_000,
            safetensors_size: 3_055_544_304,
            apr_filename: "whisper-medium.apr",
        }
    } else if i == 6 {
        ModelEntry {
            id: "whisper-large",
            name: "Whisper Large v3",
            description: "3.0 GB — Best accuracy",
            hf_repo: "openai/whisper-large-v3",
            revision: "06f233fe06e710322aca913c1bc4249a0d71fce1",
            is_moonshine: false,
            estimated_size: 3_000_000_000,
            safetensors_size: 3_087_130_976,
            apr_filename: "whisper-large.apr",
        }
    } else {
        ModelEntry {
            id: "whisper-large-v3-turbo",
            name: "Whisper Large v3 Turbo",
            description: "1.6 GB — Fast large model",
            hf_repo: "openai/whisper-large-v3-turbo",
            revision: "41f01f3fe87f28c78e2fbf8b568835947dd65ed9",
            is_moonshine: false,
            estimated_size: 1_600_000_000,
            safetensors_size: 1_617_824_864,
            apr_filename: "whisper-large-v3-turbo.apr",
        }
    }
}

/// The whole registry, in order.
pub open spec fn registry() -> Seq<ModelEntry> {
    Seq::new(MODEL_COUNT as nat, |i: int| registry_entry(i))
}

/// The registry entry at position `i`.
pub fn model_entry(i: usize) -> (r: ModelEntry)
    requires
        i < MODEL_COUNT,
    ensures
        r == registry_entry(i as int),
{
    if i == 0 {
        ModelEntry {
            id: "moonshine-tiny",
            name: "Moonshine Tiny",
            description: "54 MB — Ultra-fast, great for live preview",
            hf_repo: "usefulsensors/moonshine-tiny",
            revision: "390624ed33d594443aa4aa221f5b9f283b545b5a",
            is_moonshine: true,
            estimated_size: 54_000_000,
            safetensors_size: 108_389_192,
            apr_filename: "moonshine-tiny.apr",
        }
    } else if i == 1 {
        ModelEntry {
            id: "moonshine-base",
            name: "Moonshine Base",
            description: "123 MB — Fast with good accuracy",
            hf_repo: "usefulsensors/moonshine-base",
            revision: "7a73d8d55ac0ba2ef3ae761593f6784b51f96dcf",
            is_moonshine: true,
            estimated_size: 123_000_000,
            safetensors_size: 246_079_928,
            apr_filename: "moonshine-base.apr",
        }
    } else if i == 2 {
        ModelEntry {
            id: "whisper-tiny",
            name: "Whisper Tiny",
            description: "78 MB — Fastest Whisper, quick notes",
            hf_repo: "openai/whisper-tiny",
            revision: "169d4a4341b33bc18d8881c4b69c2e104e1cc0af",
            is_moonshine: false,
            estimated_size: 78_000_000,
            safetensors_size: 151_061_672,
            apr_filename: "whisper-tiny.apr",
        }
    } else if i == 3 {
        ModelEntry {
            id: "whisper-base",
            name: "Whisper Base",
            description: "148 MB — Good balance of speed and accuracy",
            hf_repo: "openai/whisper-base",
            revision: "e37978b90ca9030d5170a5c07aadb050351a65bb",
            is_moonshine: false,
            estimated_size: 148_000_000,
            safetensors_size: 290_403_936,
            apr_filename: "whisper-base.apr",
        }
    } else if i == 4 {
        ModelEntry {
            id: "whisper-small",
            name: "Whisper Small",
            description: "488 MB — Better accuracy, still fast",
            hf_repo: "openai/whisper-small",
            revision: "973afd24965f72e36ca33b3055d56a652f456b4d",
            is_moonshine: false,
            estimated_size: 488_000_000,
            safetensors_size: 966_995_080,
            apr_filename: "whisper-small.apr",
        }
    } else if i == 5 {
        ModelEntry {
            id: "whisper-medium",
            name: "Whisper Medium",
            description: "1.5 GB — High accuracy",
            hf_repo: "openai/whisper-medium",
            revision: "abdf7c39ab9d0397620ccaea8974cc764cd0953e",
            is_moonshine: false,
            estimated_size: 1_500_000_000,
            safetensors_size: 3_055_544_304,
            apr_filename: "whisper-medium.apr",
        }
    } else if i == 6 {
        ModelEntry {
            id: "whisper-large",
            name: "Whisper Large v3",
            description: "3.0 GB — Best accuracy",
            hf_repo: "openai/whisper-large-v3",
            revision: "06f233fe06e710322aca913c1bc4249a0d71fce1",
            is_moonshine: false,
            estimated_size: 3_000_000_000,
            safetensors_size: 3_087_130_976,
            apr_filename: "whisper-large.apr",
        }
    } else {
        ModelEntry {
            id: "whisper-large-v3-turbo",
            name: "Whisper Large v3 Turbo",
            description: "1.6 GB — Fast large model",
            hf_repo: "openai/whisper-large-v3-turbo",
            revision: "41f01f3fe87f28c78e2fbf8b568835947dd65ed9",
            is_moonshine: false,
            estimated_size: 1_600_000_000,
            safetensors_size: 1_617_824_864,
            apr_filename: "whisper-large-v3-turbo.apr",
        }
    }
}

/// All models this crate knows how to download, convert, and run locally.
pub fn models() -> (r: Vec<ModelEntry>)
    ensures
        r@ == registry(),
{
    let mut v: Vec<ModelEntry> = Vec::new();
    let mut i: usize = 0;
    while i < MODEL_COUNT
        invariant
            i <= MODEL_COUNT,
            v@ == registry().take(i as int),
        decreases MODEL_COUNT - i,
    {
        v.push(model_entry(i));
        assert(registry().take(i + 1) =~= registry().take(i as int).push(registry_entry(i as int)));
        i = i + 1;
    }
    assert(registry().take(MODEL_COUNT as int) =~= registry());
    v
}

/// Position of the first registry entry whose id is `id`, if any.
pub open spec fn first_index_with_id(entries: Seq<ModelEntry>, id: Seq<char>) -> Option<int>
    decreases entries.len(),
{
    if entries.len() == 0 {
        None
    } else if entries[0].id@ == id {
        Some(0)
    } else {
        match first_index_with_id(entries.drop_first(), id) {
            Some(k) => Some(k + 1),
            None => None,
        }
    }
}

/// The registry entry found for `id`: the first one whose id it is.
pub open spec fn lookup(id: Seq<char>) -> Option<ModelEntry> {
    match first_index_with_id(registry(), id) {
        Some(i) => Some(registry()[i]),
        None => None,
    }
}

proof fn lemma_first_index(entries: Seq<ModelEntry>, id: Seq<char>, i: int)
    requires
        0 <= i <= entries.len(),
        forall|k: int| 0 <= k < i ==> (#[trigger] entries[k]).id@ != id,
    ensures
        first_index_with_id(entries, id) == (match first_index_with_id(
            entries.subrange(i, entries.len() as int),
            id,
        ) {
            Some(k) => Some(k + i),
            None => None,
        }),
    decreases i,
{
    if i > 0 {
        let d = entries.drop_first();
        assert forall|k: int| 0 <= k < i - 1 implies (#[trigger] d[k]).id@ != id by {
            assert(d[k] == entries[k + 1]);
        }
        lemma_first_index(d, id, i - 1);
        assert(d.subrange(i - 1, d.len() as int) =~= entries.subrange(i, entries.len() as int));
    } else {
        assert(entries.subrange(0, entries.len() as int) =~= entries);
    }
}

/// Look up a model's registry entry by id (e.g. `"whisper-tiny"`).
pub fn find_model_entry(model_id: &str) -> (r: Option<ModelEntry>)
    ensures
        r == lookup(model_id@),
{
    let all = models();
    let mut i: usize = 0;
    while i < all.len()
        invariant
            all@ == registry(),
            i <= all@.len(),
            forall|k: int| 0 <= k < i ==> (#[trigger] all@[k]).id@ != model_id@,
        decreases all.len() - i,
    {
        if str_eq(all[i].id, model_id) {
            proof {
                lemma_first_index(registry(), model_id@, i as int);
                let rest = registry().subrange(i as int, registry().len() as int);
                assert(rest[0] == registry()[i as int]);
            }
            return Some(all[i]);
        }
        i = i + 1;
    }
    proof {
        lemma_first_index(registry(), model_id@, i as int);
        assert(registry().subrange(i as int, registry().len() as int).len() == 0);
    }
    None
}

/// The bound on the `model.safetensors` download of a model whose real size
/// is `size`: 1.25 times the size (saturating), and never below 10 MB.
pub open spec fn download_bound(size: u64) -> u64 {
    let scaled = if size + size / 4 > u64::MAX {
        u64::MAX
    } else {
        (size + size / 4) as u64
    };
    if scaled >= 10_000_000 {
        scaled
    } else {
        10_000_000
    }
}

/// Bound the `model.safetensors` download for `entry` at 1.25x its measured
/// size. The bound never falls below the real download size.
pub fn max_download_bytes(entry: &ModelEntry) -> (r: u64)
    ensures
        r == download_bound(entry.safetensors_size),
        r >= entry.safetensors_size,
        r >= 10_000_000,
{
    let size = entry.safetensors_size;
    let scaled = size.saturating_add(size / 4);
    if scaled >= 10_000_000 {
        scaled
    } else {
        10_000_000
    }
}

/// No two registry entries share an id.
pub proof fn lemma_registry_ids_distinct(i: int, j: int)
    requires
        0 <= i < j < MODEL_COUNT,
    ensures
        registry_entry(i).id@ != registry_entry(j).id@,
{
    reveal_strlit("moonshine-tiny");
    reveal_strlit("moonshine-base");
    reveal_strlit("whisper-tiny");
    reveal_strlit("whisper-base");
    reveal_strlit("whisper-small");
    reveal_strlit("whisper-medium");
    reveal_strlit("whisper-large");
    reveal_strlit("whisper-large-v3-turbo");
    let a = registry_entry(i).id@;
    let b = registry_entry(j).id@;
    if a.len() == b.len() {
        if a[0] != b[0] {
        } else if a[8] != b[8] {
        } else {
            assert(a[10] != b[10]);
        }
    }
}

/// A lower-case hexadecimal digit.
pub open spec fn is_lower_hex(c: char) -> bool {
    ('0' <= c && c <= '9') || ('a' <= c && c <= 'f')
}

/// Every model is fetched at a full commit hash (40 lower-case hexadecimal
/// digits), never at a branch such as `main` that can move.
pub proof fn lemma_revisions_are_commits(i: int)
    requires
        0 <= i < MODEL_COUNT,
    ensures
        registry_entry(i).revision@.len() == 40,
        forall|k: int| 0 <= k < 40 ==> is_lower_hex(#[trigger] registry_entry(i).revision@[k]),
        registry_entry(i).revision@ != "main"@,
{
    reveal_strlit("390624ed33d594443aa4aa221f5b9f283b545b5a");
    reveal_strlit("7a73d8d55ac0ba2ef3ae761593f6784b51f96dcf");
    reveal_strlit("169d4a4341b33bc18d8881c4b69c2e104e1cc0af");
    reveal_strlit("e37978b90ca9030d5170a5c07aadb050351a65bb");
    reveal_strlit("973afd24965f72e36ca33b3055d56a652f456b4d");
    reveal_strlit("abdf7c39ab9d0397620ccaea8974cc764cd0953e");
    reveal_strlit("06f233fe06e710322aca913c1bc4249a0d71fce1");
    reveal_strlit("41f01f3fe87f28c78e2fbf8b568835947dd65ed9");
    reveal_strlit("main");
    let r = registry_entry(i).revision@;
    assert(r.len() == 40);
    assert forall|k: int| 0 <= k < 40 implies is_lower_hex(#[trigger] r[k]) by {}
}

/// Every model's converted file is named after its id (the id followed by
/// `.apr`), so no two models of the registry share a model file.
pub proof fn lemma_apr_file_names(i: int, j: int)
    requires
        0 <= i < MODEL_COUNT,
        0 <= j < MODEL_COUNT,
    ensures
        registry_entry(i).apr_filename@ == registry_entry(i).id@ + ".apr"@,
        i != j ==> registry_entry(i).apr_filename@ != registry_entry(j).apr_filename@,
{
    reveal_strlit("moonshine-tiny");
    reveal_strlit("moonshine-base");
    reveal_strlit("whisper-tiny");
    reveal_strlit("whisper-base");
    reveal_strlit("whisper-small");
    reveal_strlit("whisper-medium");
    reveal_strlit("whisper-large");
    reveal_strlit("whisper-large-v3-turbo");
    reveal_strlit(".apr");
    reveal_strlit("moonshine-tiny.apr");
    reveal_strlit("moonshine-base.apr");
    reveal_strlit("whisper-tiny.apr");
    reveal_strlit("whisper-base.apr");
    reveal_strlit("whisper-small.apr");
    reveal_strlit("whisper-medium.apr");
    reveal_strlit("whisper-large.apr");
    reveal_strlit("whisper-large-v3-turbo.apr");
    assert(registry_entry(i).apr_filename@ =~= registry_entry(i).id@ + ".apr"@);
    assert(registry_entry(j).apr_filename@ =~= registry_entry(j).id@ + ".apr"@);
    if i != j {
        let (a, b) = if i < j { (i, j) } else { (j, i) };
        lemma_registry_ids_distinct(a, b);
        let x = registry_entry(i).id@;
        let y = registry_entry(j).id@;
        if x + ".apr"@ == y + ".apr"@ {
            if x.len() == y.len() {
                assert forall|k: int| 0 <= k < x.len() implies x[k] == y[k] by {
                    assert((x + ".apr"@)[k] == (y + ".apr"@)[k]);
                }
                assert(x =~= y);
            }
        }
    }
}

/// Looking up the id of any registry entry finds that very entry.
pub proof fn lemma_lookup_finds_every_entry(i: int)
    requires
        0 <= i < MODEL_COUNT,
    ensures
        lookup(registry_entry(i).id@) == Some(registry_entry(i)),
{
    let id = registry_entry(i).id@;
    assert forall|k: int| 0 <= k < i implies (#[trigger] registry()[k]).id@ != id by {
        lemma_registry_ids_distinct(k, i);
    }
    lemma_first_index(registry(), id, i);
    let rest = registry().subrange(i, registry().len() as int);
    assert(rest[0] == registry()[i]);
}

/// `whisper_apr`'s model configuration (architecture dimensions and family).
#[verifier::external_type_specification]
#[verifier::external_body]
pub struct ExModelConfig(whisper_apr::model::ModelConfig);

/// The dimensions that a `whisper_apr` configuration records (its public
/// fields `n_vocab` to `n_mels`) and whether it is a Moonshine configuration
/// (`ModelConfig::is_moonshine`, a learned convolutional front end).
pub uninterp spec fn model_config_dims(c: whisper_apr::model::ModelConfig) -> ConfigDims;

/// `ModelConfig::moonshine_tiny`, a constant configuration. Claimed: its recorded
/// dimensions and family are the constants of its definition, listed in `kind_dims`.
pub assume_specification[ whisper_apr::model::ModelConfig::moonshine_tiny ]() -> (c:
    whisper_apr::model::ModelConfig)
    ensures
        model_config_dims(c) == kind_dims(ModelKind::MoonshineTiny),
;

/// `ModelConfig::moonshine_base`, a constant configuration. Claimed: its recorded
/// dimensions and family are the constants of its definition, listed in `kind_dims`.
pub assume_specification[ whisper_apr::model::ModelConfig::moonshine_base ]() -> (c:
    whisper_apr::model::ModelConfig)
    ensures
        model_config_dims(c) == kind_dims(ModelKind::MoonshineBase),
;

/// `ModelConfig::tiny`, a constant configuration. Claimed: its recorded
/// dimensions and family are the constants of its definition, listed in `kind_dims`.
pub assume_specification[ whisper_apr::model::ModelConfig::tiny ]() -> (c:
    whisper_apr::model::ModelConfig)
    ensures
        model_config_dims(c) == kind_dims(ModelKind::WhisperTiny),
;

/// `ModelConfig::base`, a constant configuration. Claimed: its recorded
/// dimensions and family are the constants of its definition, listed in `kind_dims`.
pub assume_specification[ whisper_apr::model::ModelConfig::base ]() -> (c:
    whisper_apr::model::ModelConfig)
    ensures
        model_config_dims(c) == kind_dims(ModelKind::WhisperBase),
;

/// `ModelConfig::small`, a constant configuration. Claimed: its recorded
/// dimensions and family are the constants of its definition, listed in `kind_dims`.
pub assume_specification[ whisper_apr::model::ModelConfig::small ]() -> (c:
    whisper_apr::model::ModelConfig)
    ensures
        model_config_dims(c) == kind_dims(ModelKind::WhisperSmall),
;

/// `ModelConfig::medium`, a constant configuration. Claimed: its recorded
/// dimensions and family are the constants of its definition, listed in `kind_dims`.
pub assume_specification[ whisper_apr::model::ModelConfig::medium ]() -> (c:
    whisper_apr::model::ModelConfig)
    ensures
        model_config_dims(c) == kind_dims(ModelKind::WhisperMedium),
;

/// `ModelConfig::large`, a constant configuration. Claimed: its recorded
/// dimensions and family are the constants of its definition, listed in `kind_dims`.
pub assume_specification[ whisper_apr::model::ModelConfig::large ]() -> (c:
    whisper_apr::model::ModelConfig)
    ensures
        model_config_dims(c) == kind_dims(ModelKind::WhisperLarge),
;

/// `ModelConfig::large_v3_turbo`, a constant configuration. Claimed: its recorded
/// dimensions and family are the constants of its definition, listed in `kind_dims`.
pub assume_specification[ whisper_apr::model::ModelConfig::large_v3_turbo ]() -> (c:
    whisper_apr::model::ModelConfig)
    ensures
        model_config_dims(c) == kind_dims(ModelKind::WhisperLargeV3Turbo),
;

/// The architectures that models of the registry are built from.
#[derive(Debug, Clone, Copy, PartialEq, Eq, Structural)]
pub enum ModelKind {
    MoonshineTiny,
    MoonshineBase,
    WhisperTiny,
    WhisperBase,
    WhisperSmall,
    WhisperMedium,
    WhisperLarge,
    WhisperLargeV3Turbo,
}

/// Whether an architecture is a Moonshine one.
pub open spec fn kind_is_moonshine(k: ModelKind) -> bool {
    k == ModelKind::MoonshineTiny || k == ModelKind::MoonshineBase
}

/// The dimensions and family of each architecture's configuration.
pub open spec fn kind_dims(k: ModelKind) -> ConfigDims {
    match k {
        ModelKind::MoonshineTiny => ConfigDims {
            n_vocab: 32768,
            n_audio_ctx: 0,
            n_audio_state: 288,
            n_audio_head: 8,
            n_audio_layer: 6,
            n_text_ctx: 448,
            n_text_state: 288,
            n_text_head: 8,
            n_text_layer: 6,
            n_mels: 0,
            is_moonshine: true,
        },
        ModelKind::MoonshineBase => ConfigDims {
            n_vocab: 32768,
            n_audio_ctx: 0,
            n_audio_state: 416,
            n_audio_head: 8,
            n_audio_layer: 8,
            n_text_ctx: 448,
            n_text_state: 416,
            n_text_head: 8,
            n_text_layer: 8,
            n_mels: 0,
            is_moonshine: true,
        },
        ModelKind::WhisperTiny => ConfigDims {
            n_vocab: 51865,
            n_audio_ctx: 1500,
            n_audio_state: 384,
            n_audio_head: 6,
            n_audio_layer: 4,
            n_text_ctx: 448,
            n_text_state: 384,
            n_text_head: 6,
            n_text_layer: 4,
            n_mels: 80,
            is_moonshine: false,
        },
        ModelKind::WhisperBase => ConfigDims {
            n_vocab: 51865,
            n_audio_ctx: 1500,
            n_audio_state: 512,
            n_audio_head: 8,
            n_audio_layer: 6,
            n_text_ctx: 448,
            n_text_state: 512,
            n_text_head: 8,
            n_text_layer: 6,
            n_mels: 80,
            is_moonshine: false,
        },
        ModelKind::WhisperSmall => ConfigDims {
            n_vocab: 51865,
            n_audio_ctx: 1500,
            n_audio_state: 768,
            n_audio_head: 12,
            n_audio_layer: 12,
            n_text_ctx: 448,
            n_text_state: 768,
            n_text_head: 12,
            n_text_layer: 12,
            n_mels: 80,
            is_moonshine: false,
        },
        ModelKind::WhisperMedium => ConfigDims {
            n_vocab: 51865,
            n_audio_ctx: 1500,
            n_audio_state: 1024,
            n_audio_head: 16,
            n_audio_layer: 24,
            n_text_ctx: 448,
            n_text_state: 1024,
            n_text_head: 16,
            n_text_layer: 24,
            n_mels: 80,
            is_moonshine: false,
        },
        ModelKind::WhisperLarge => ConfigDims {
            n_vocab: 51865,
            n_audio_ctx: 1500,
            n_audio_state: 1280,
            n_audio_head: 20,
            n_audio_layer: 32,
            n_text_ctx: 448,
            n_text_state: 1280,
            n_text_head: 20,
            n_text_layer: 32,
            n_mels: 80,
            is_moonshine: false,
        },
        ModelKind::WhisperLargeV3Turbo => ConfigDims {
            n_vocab: 51866,
            n_audio_ctx: 1500,
            n_audio_state: 1280,
            n_audio_head: 20,
            n_audio_layer: 32,
            n_text_ctx: 448,
            n_text_state: 1280,
            n_text_head: 20,
            n_text_layer: 4,
            n_mels: 128,
            is_moonshine: false,
        },
    }
}

/// The architecture that a model id stands for.
pub open spec fn kind_for_id(id: Seq<char>) -> Option<ModelKind> {
    if id == "moonshine-tiny"@ {
        Some(ModelKind::MoonshineTiny)
    } else if id == "moonshine-base"@ {
        Some(ModelKind::MoonshineBase)
    } else if id == "whisper-tiny"@ {
        Some(ModelKind::WhisperTiny)
    } else if id == "whisper-base"@ {
        Some(ModelKind::WhisperBase)
    } else if id == "whisper-small"@ {
        Some(ModelKind::WhisperSmall)
    } else if id == "whisper-medium"@ {
        Some(ModelKind::WhisperMedium)
    } else if id == "whisper-large"@ {
        Some(ModelKind::WhisperLarge)
    } else if id == "whisper-large-v3-turbo"@ {
        Some(ModelKind::WhisperLargeV3Turbo)
    } else {
        None
    }
}

/// The architecture that a model id stands for, if it is a known one.
pub fn model_kind(model_id: &str) -> (r: Option<ModelKind>)
    ensures
        r == kind_for_id(model_id@),
{
    if str_eq(model_id, "moonshine-tiny") {
        Some(ModelKind::MoonshineTiny)
    } else if str_eq(model_id, "moonshine-base") {
        Some(ModelKind::MoonshineBase)
    } else if str_eq(model_id, "whisper-tiny") {
        Some(ModelKind::WhisperTiny)
    } else if str_eq(model_id, "whisper-base") {
        Some(ModelKind::WhisperBase)
    } else if str_eq(model_id, "whisper-small") {
        Some(ModelKind::WhisperSmall)
    } else if str_eq(model_id, "whisper-medium") {
        Some(ModelKind::WhisperMedium)
    } else if str_eq(model_id, "whisper-large") {
        Some(ModelKind::WhisperLarge)
    } else if str_eq(model_id, "whisper-large-v3-turbo") {
        Some(ModelKind::WhisperLargeV3Turbo)
    } else {
        None
    }
}

/// The `whisper_apr` configuration of an architecture.
pub fn kind_config(kind: ModelKind) -> (r: whisper_apr::model::ModelConfig)
    ensures
        model_config_dims(r) == kind_dims(kind),
{
    match kind {
        ModelKind::MoonshineTiny => whisper_apr::model::ModelConfig::moonshine_tiny(),
        ModelKind::MoonshineBase => whisper_apr::model::ModelConfig::moonshine_base(),
        ModelKind::WhisperTiny => whisper_apr::model::ModelConfig::tiny(),
        ModelKind::WhisperBase => whisper_apr::model::ModelConfig::base(),
        ModelKind::WhisperSmall => whisper_apr::model::ModelConfig::small(),
        ModelKind::WhisperMedium => whisper_apr::model::ModelConfig::medium(),
        ModelKind::WhisperLarge => whisper_apr::model::ModelConfig::large(),
        ModelKind::WhisperLargeV3Turbo => whisper_apr::model::ModelConfig::large_v3_turbo(),
    }
}

/// The `whisper_apr` configuration for a model id; `None` for an unknown id.
pub fn get_model_config(model_id: &str) -> (r: Option<whisper_apr::model::ModelConfig>)
    ensures
        r is Some <==> kind_for_id(model_id@) is Some,
        r matches Some(c) ==> model_config_dims(c) == kind_dims(kind_for_id(model_id@)->0),
{
    match model_kind(model_id) {
        Some(kind) => Some(kind_config(kind)),
        None => None,
    }
}

/// Every registry entry has a model configuration, and its architecture is a
/// Moonshine one exactly when the entry says so.
pub proof fn lemma_every_entry_has_config(i: int)
    requires
        0 <= i < MODEL_COUNT,
    ensures
        kind_for_id(registry_entry(i).id@) matches Some(k) && kind_is_moonshine(k)
            == registry_entry(i).is_moonshine,
{
    if i > 0 { lemma_registry_ids_distinct(0, i); }
    if i > 1 { lemma_registry_ids_distinct(1, i); }
    if i > 2 { lemma_registry_ids_distinct(2, i); }
    if i > 3 { lemma_registry_ids_distinct(3, i); }
    if i > 4 { lemma_registry_ids_distinct(4, i); }
    if i > 5 { lemma_registry_ids_distinct(5, i); }
    if i > 6 { lemma_registry_ids_distinct(6, i); }
}

/// std's borrowed filesystem path.
#[verifier::external_type_specification]
#[verifier::external_body]
pub struct ExPath(std::path::Path);

/// std's owned filesystem path.
#[verifier::external_type_specification]
#[verifier::external_body]
pub struct ExPathBuf(std::path::PathBuf);

/// The path that `Path::join` makes of a directory and a file name.
pub uninterp spec fn path_joined(dir: &std::path::Path, file: Seq<char>) -> std::path::PathBuf;

/// `Path::join`: the path `file` inside `dir`. Claimed: the result is the
/// named function `path_joined` of the directory and the name (`join` only
/// builds a new path from its two arguments).
#[verifier::external_body]
fn path_join(dir: &std::path::Path, file: &str) -> (r: std::path::PathBuf)
    ensures
        r == path_joined(dir, file@),
{
    dir.join(file)
}

/// The file name of a model's converted `.apr` file; `None` for an unknown
/// model id.
pub fn model_file_name(model_id: &str) -> (r: Option<&'static str>)
    ensures
        match lookup(model_id@) {
            Some(e) => r matches Some(f) && f@ == e.apr_filename@,
            None => r is None,
        },
{
    match find_model_entry(model_id) {
        Some(entry) => Some(entry.apr_filename),
        None => None,
    }
}

/// Where a model's converted `.apr` file lives (or would live) inside
/// `models_dir`: the entry's file name joined to the directory. `None` for an
/// unknown model id; whether the file exists is not checked.
pub fn model_path(models_dir: &std::path::Path, model_id: &str) -> (r: Option<std::path::PathBuf>)
    ensures
        match lookup(model_id@) {
            Some(e) => r == Some(path_joined(models_dir, e.apr_filename@)),
            None => r is None,
        },
{
    match model_file_name(model_id) {
        Some(file) => Some(path_join(models_dir, file)),
        None => None,
    }
}

} // verus!
