//! Everything that converting a SafeTensors checkpoint into an `.apr` model
//! decides: which configuration and source it is written with, which tensors
//! are written under which names, and when the conversion is refused. The
//! float payloads are handed to `whisper_apr`'s writer by the caller.
use vstd::prelude::*;

use crate::convert::TensorDtype;
use crate::error::SttError;
use crate::text::str_eq;
use crate::registry::{
    find_model_entry, get_model_config, kind_dims, kind_for_id, lookup, model_config_dims,
};
use crate::vocab::{
    build_moonshine_vocab, build_whisper_vocab, is_whisper_vocab_of, vocab_json_entries,
};

verus! {

/// One tensor of a SafeTensors checkpoint.
pub struct RawTensor<'a> {
    pub name: String,
    pub dtype: TensorDtype,
    /// The element type as `safetensors` prints it (e.g. `"F64"`).
    pub dtype_name: String,
    pub shape: Vec<usize>,
    /// The tensor's bytes inside the checkpoint.
    pub data: &'a [u8],
}

/// The plain contents of one tensor.
pub struct TensorView {
    pub name: Seq<char>,
    pub dtype: TensorDtype,
    pub dtype_name: Seq<char>,
    pub shape: Seq<usize>,
    pub data: Seq<u8>,
}

impl<'a> View for RawTensor<'a> {
    type V = TensorView;

    open spec fn view(&self) -> TensorView {
        TensorView {
            name: self.name@,
            dtype: self.dtype,
            dtype_name: self.dtype_name@,
            shape: self.shape@,
            data: self.data@,
        }
    }
}

/// What `safetensors` stores of one tensor: its element type as printed
/// (e.g. `"F64"`), its shape and its bytes.
pub struct StoredTensor {
    pub dtype_name: Seq<char>,
    pub shape: Seq<usize>,
    pub data: Seq<u8>,
}

/// What `safetensors` makes of a checkpoint: the tensors by name, or `None`
/// when `SafeTensors::deserialize` refuses it.
pub uninterp spec fn safetensors_contents(bytes: Seq<u8>) -> Option<Map<Seq<char>, StoredTensor>>;

/// The element type that a printed `safetensors` element type stands for.
pub open spec fn dtype_of_name(n: Seq<char>) -> TensorDtype {
    if n == "F32"@ {
        TensorDtype::F32
    } else if n == "F16"@ {
        TensorDtype::F16
    } else if n == "BF16"@ {
        TensorDtype::BF16
    } else {
        TensorDtype::Other
    }
}

/// The element type named `name` as `safetensors` prints it.
pub fn dtype_from_name(name: &str) -> (r: TensorDtype)
    ensures
        r == dtype_of_name(name@),
{
    if str_eq(name, "F32") {
        TensorDtype::F32
    } else if str_eq(name, "F16") {
        TensorDtype::F16
    } else if str_eq(name, "BF16") {
        TensorDtype::BF16
    } else {
        TensorDtype::Other
    }
}

/// What `safetensors` stores of a tensor.
pub open spec fn stored(t: TensorView) -> StoredTensor {
    StoredTensor { dtype_name: t.dtype_name, shape: t.shape, data: t.data }
}

/// The tensor views of a list of tensors.
pub open spec fn tensor_views<'a>(v: Seq<RawTensor<'a>>) -> Seq<TensorView> {
    v.map_values(|t: RawTensor<'a>| t@)
}

/// Whether a list holds exactly the tensors of a map, each once, with the
/// element type that its printed name stands for.
pub open spec fn lists_tensors(v: Seq<TensorView>, m: Map<Seq<char>, StoredTensor>) -> bool {
    &&& forall|i: int| 0 <= i < v.len() ==> m.contains_key(#[trigger] v[i].name) && m[v[i].name]
        == stored(v[i]) && v[i].dtype == dtype_of_name(v[i].dtype_name)
    &&& forall|i: int, j: int| 0 <= i < j < v.len() ==> #[trigger] v[i].name != #[trigger] v[j].name
    &&& forall|k: Seq<char>| #[trigger] m.contains_key(k) ==> exists|i: int| 0 <= i < v.len() && v[i].name == k
}

/// A tensor as listed by `safetensors`: name, printed element type, shape, bytes.
pub type CheckpointEntry<'a> = (String, String, Vec<usize>, &'a [u8]);

/// The plain contents of listed tensors.
pub open spec fn entry_views<'a>(v: Seq<CheckpointEntry<'a>>) -> Seq<(Seq<char>, StoredTensor)> {
    v.map_values(
        |e: CheckpointEntry<'a>| (e.0@, StoredTensor { dtype_name: e.1@, shape: e.2@, data: e.3@ }),
    )
}

/// Whether a list holds exactly the entries of a map, each once.
pub open spec fn lists_entries(v: Seq<(Seq<char>, StoredTensor)>, m: Map<Seq<char>, StoredTensor>) -> bool {
    &&& forall|i: int| 0 <= i < v.len() ==> m.contains_key(#[trigger] v[i].0) && m[v[i].0] == v[i].1
    &&& forall|i: int, j: int| 0 <= i < j < v.len() ==> #[trigger] v[i].0 != #[trigger] v[j].0
    &&& forall|k: Seq<char>| #[trigger] m.contains_key(k) ==> exists|i: int| 0 <= i < v.len() && v[i].0 == k
}

/// `SafeTensors::deserialize` and `SafeTensors::tensors`: the tensors of a
/// checkpoint (name, element type as printed by `Debug`, shape, bytes), in
/// the unspecified order of `safetensors`' index, or the error's text.
/// Claimed: it fails exactly when the named function `safetensors_contents`
/// of the bytes is `None`; on success the list holds exactly the tensors of
/// that map, each once. Neither the order of the list nor the error's text
/// is claimed: both can follow the order of a `HashMap` that each process
/// seeds afresh (for instance which of two tensors at the same offsets an
/// error names).
#[verifier::external_body]
fn parse_safetensors<'a>(bytes: &'a [u8]) -> (r: Result<Vec<CheckpointEntry<'a>>, String>)
    ensures
        match (r, safetensors_contents(bytes@)) {
            (Err(_), None) => true,
            (Ok(v), Some(m)) => lists_entries(entry_views(v@), m),
            _ => false,
        },
{
    let t = safetensors::SafeTensors::deserialize(bytes).map_err(|e| e.to_string())?;
    Ok(t.tensors().into_iter().map(|(name, v)| {
        (name, format!("{:?}", v.dtype()), v.shape().to_vec(), v.data())
    }).collect())
}

/// The name that `whisper_apr::format::map_tensor_name` gives a Whisper
/// checkpoint tensor.
pub uninterp spec fn whisper_tensor_name(hf: Seq<char>) -> Seq<char>;

/// The name that `whisper_apr::format::map_moonshine_tensor_name` gives a
/// Moonshine checkpoint tensor.
pub uninterp spec fn moonshine_tensor_name(hf: Seq<char>) -> Seq<char>;

/// `whisper_apr::format::map_tensor_name`. Claimed: the result is the named
/// function `whisper_tensor_name` of the name.
#[verifier::external_body]
fn map_whisper_name(hf: &str) -> (r: String)
    ensures
        r@ == whisper_tensor_name(hf@),
{
    whisper_apr::format::map_tensor_name(hf)
}

/// `whisper_apr::format::map_moonshine_tensor_name`. Claimed: the result is
/// the named function `moonshine_tensor_name` of the name.
#[verifier::external_body]
fn map_moonshine_name(hf: &str) -> (r: String)
    ensures
        r@ == moonshine_tensor_name(hf@),
{
    whisper_apr::format::map_moonshine_tensor_name(hf)
}

/// A tensor to write: the checkpoint tensor it comes from and its name in
/// the `.apr` model.
pub struct ConversionStep {
    pub source: usize,
    pub name: String,
}

/// The plain steps of a plan.
pub open spec fn steps_view(v: Seq<ConversionStep>) -> Seq<(int, Seq<char>)> {
    v.map_values(|s: ConversionStep| (s.source as int, s.name@))
}

/// Position of the first tensor of an element type that cannot be converted.
pub open spec fn first_unsupported(ts: Seq<TensorView>) -> Option<int>
    decreases ts.len(),
{
    if ts.len() == 0 {
        None
    } else if ts[0].dtype == TensorDtype::Other {
        Some(0)
    } else {
        match first_unsupported(ts.drop_first()) {
            Some(k) => Some(k + 1),
            None => None,
        }
    }
}

/// The message refusing a conversion because of tensor `t`.
pub open spec fn unsupported_text(name: Seq<char>, dtype_name: Seq<char>) -> Seq<char> {
    "Tensor '"@ + name + "' has unsupported dtype "@ + dtype_name + "; cannot convert model"@
}

/// The steps of a Whisper conversion: every tensor, in order, under its
/// mapped name.
pub open spec fn whisper_steps(ts: Seq<TensorView>) -> Seq<(int, Seq<char>)> {
    Seq::new(ts.len(), |i: int| (i, whisper_tensor_name(ts[i].name)))
}

/// Every tensor, in order, under its mapped Moonshine name.
pub open spec fn moonshine_base_steps(ts: Seq<TensorView>) -> Seq<(int, Seq<char>)> {
    Seq::new(ts.len(), |i: int| (i, moonshine_tensor_name(ts[i].name)))
}

/// Name of the output projection in a converted Moonshine model.
pub open spec fn proj_out_name() -> Seq<char> {
    "decoder.proj_out.weight"@
}

/// Name of the token embedding in a converted Moonshine model.
pub open spec fn embedding_name() -> Seq<char> {
    "decoder.token_embedding.weight"@
}

/// Position of the last step writing under `name`.
pub open spec fn last_step_named(steps: Seq<(int, Seq<char>)>, name: Seq<char>) -> Option<int>
    decreases steps.len(),
{
    if steps.len() == 0 {
        None
    } else if steps.last().1 == name {
        Some(steps.len() - 1)
    } else {
        last_step_named(steps.drop_last(), name)
    }
}

/// The steps of a Moonshine conversion: every tensor under its mapped name,
/// and, when no tensor is the output projection, the (last) token embedding
/// written once more as the output projection (tied embeddings).
pub open spec fn moonshine_steps(ts: Seq<TensorView>) -> Seq<(int, Seq<char>)> {
    let base = moonshine_base_steps(ts);
    match (last_step_named(base, proj_out_name()), last_step_named(base, embedding_name())) {
        (None, Some(j)) => base.push((base[j].0, proj_out_name())),
        _ => base,
    }
}

/// The outcome of planning a conversion: refused for the first unsupported
/// tensor, else the given steps.
pub open spec fn plan_outcome(
    ts: Seq<TensorView>,
    steps: Seq<(int, Seq<char>)>,
    r: Result<Vec<ConversionStep>, SttError>,
) -> bool {
    match first_unsupported(ts) {
        Some(i) => (r matches Err(SttError::TranscribeFailed(m)) && m@ == unsupported_text(ts[i].name, ts[i].dtype_name)),
        None => (r matches Ok(v) && steps_view(v@) == steps),
    }
}

/// The error refusing a conversion because of tensor `t`.
fn unsupported_error(t: &RawTensor) -> (r: SttError)
    ensures
        r matches SttError::TranscribeFailed(m) && m@ == unsupported_text(t.name@, t.dtype_name@),
{
    let mut m = String::from_str("Tensor '");
    m.append(t.name.as_str());
    m.append("' has unsupported dtype ");
    m.append(t.dtype_name.as_str());
    m.append("; cannot convert model");
    SttError::TranscribeFailed(m)
}

proof fn lemma_first_unsupported_prefix(ts: Seq<TensorView>, i: int)
    requires
        0 <= i <= ts.len(),
        forall|k: int| 0 <= k < i ==> (#[trigger] ts[k]).dtype != TensorDtype::Other,
    ensures
        i < ts.len() && ts[i].dtype == TensorDtype::Other ==> first_unsupported(ts) == Some(i),
        i == ts.len() ==> first_unsupported(ts) is None,
    decreases i,
{
    if ts.len() > 0 {
        if i > 0 {
            let d = ts.drop_first();
            assert forall|k: int| 0 <= k < i - 1 implies (#[trigger] d[k]).dtype != TensorDtype::Other by {
                assert(d[k] == ts[k + 1]);
            }
            lemma_first_unsupported_prefix(d, i - 1);
            if i < ts.len() {
                assert(d[i - 1] == ts[i]);
            }
        }
    }
}

/// Plans a Whisper conversion: every tensor under its mapped name, refused
/// at the first tensor whose element type cannot be converted (a skipped
/// tensor would make an incomplete model).
pub fn plan_whisper_tensors(tensors: &Vec<RawTensor>) -> (r: Result<Vec<ConversionStep>, SttError>)
    ensures
        plan_outcome(tensor_views(tensors@), whisper_steps(tensor_views(tensors@)), r),
{
    let ghost ts = tensor_views(tensors@);
    let n = tensors.len();
    let mut steps: Vec<ConversionStep> = Vec::new();
    let mut i: usize = 0;
    while i < n
        invariant
            n == tensors@.len(),
            ts == tensor_views(tensors@),
            i <= n,
            forall|k: int| 0 <= k < i ==> (#[trigger] ts[k]).dtype != TensorDtype::Other,
            steps_view(steps@) == whisper_steps(ts).take(i as int),
        decreases n - i,
    {
        if tensors[i].dtype == TensorDtype::Other {
            proof {
                lemma_first_unsupported_prefix(ts, i as int);
            }
            return Err(unsupported_error(&tensors[i]));
        }
        let name = map_whisper_name(tensors[i].name.as_str());
        let ghost name_v = name@;
        let ghost before = steps@;
        steps.push(ConversionStep { source: i, name });
        proof {
            assert(ts[i as int].name == tensors@[i as int].name@);
            assert(steps_view(steps@) =~= steps_view(before).push((i as int, name_v)));
            assert(whisper_steps(ts).take(i + 1) =~= whisper_steps(ts).take(i as int).push(
                (i as int, whisper_tensor_name(ts[i as int].name)),
            ));
        }
        i = i + 1;
    }
    proof {
        lemma_first_unsupported_prefix(ts, n as int);
        assert(whisper_steps(ts).take(n as int) =~= whisper_steps(ts));
    }
    Ok(steps)
}

proof fn lemma_last_step_named_extend(steps: Seq<(int, Seq<char>)>, s: (int, Seq<char>), name: Seq<char>)
    ensures
        last_step_named(steps.push(s), name) == (if s.1 == name {
            Some(steps.len() as int)
        } else {
            last_step_named(steps, name)
        }),
{
    assert(steps.push(s).drop_last() =~= steps);
}

proof fn lemma_last_step_named_bounds(steps: Seq<(int, Seq<char>)>, name: Seq<char>)
    ensures
        last_step_named(steps, name) matches Some(j) ==> 0 <= j < steps.len() && steps[j].1 == name
            && forall|k: int| j < k < steps.len() ==> (#[trigger] steps[k]).1 != name,
        last_step_named(steps, name) is None ==> forall|k: int|
            0 <= k < steps.len() ==> (#[trigger] steps[k]).1 != name,
    decreases steps.len(),
{
    if steps.len() > 0 && steps.last().1 != name {
        let d = steps.drop_last();
        lemma_last_step_named_bounds(d, name);
        assert forall|k: int| 0 <= k < d.len() implies d[k] == steps[k] by {}
    }
}

/// A converted Moonshine model holds every checkpoint tensor once, in
/// order, under its mapped name; the one tensor that may be added is the
/// output projection, copied from the (last) token embedding, and only when
/// the checkpoint has no output projection of its own. So the converted
/// model has an output projection exactly when the checkpoint has an output
/// projection or a token embedding.
pub proof fn lemma_moonshine_steps(ts: Seq<TensorView>)
    ensures
        moonshine_steps(ts).len() == ts.len() || moonshine_steps(ts).len() == ts.len() + 1,
        forall|i: int|
            0 <= i < ts.len() ==> #[trigger] moonshine_steps(ts)[i] == (
                i,
                moonshine_tensor_name(ts[i].name),
            ),
        moonshine_steps(ts).len() == ts.len() + 1 ==> {
            let s = moonshine_steps(ts)[ts.len() as int];
            &&& s.1 == proj_out_name()
            &&& 0 <= s.0 < ts.len()
            &&& moonshine_tensor_name(ts[s.0].name) == embedding_name()
            &&& forall|i: int|
                0 <= i < ts.len() ==> moonshine_tensor_name(#[trigger] ts[i].name) != proj_out_name()
        },
        (exists|k: int| 0 <= k < moonshine_steps(ts).len() && (#[trigger] moonshine_steps(ts)[k]).1
            == proj_out_name()) <==> (exists|i: int|
            0 <= i < ts.len() && (moonshine_tensor_name(#[trigger] ts[i].name) == proj_out_name()
                || moonshine_tensor_name(ts[i].name) == embedding_name())),
{
    let base = moonshine_base_steps(ts);
    lemma_last_step_named_bounds(base, proj_out_name());
    lemma_last_step_named_bounds(base, embedding_name());
    let out = moonshine_steps(ts);
    assert forall|i: int| 0 <= i < ts.len() implies #[trigger] out[i] == (
        i,
        moonshine_tensor_name(ts[i].name),
    ) by {
        assert(base[i] == (i, moonshine_tensor_name(ts[i].name)));
    }
    if exists|i: int|
        0 <= i < ts.len() && (moonshine_tensor_name(#[trigger] ts[i].name) == proj_out_name()
            || moonshine_tensor_name(ts[i].name) == embedding_name()) {
        let i = choose|i: int|
            0 <= i < ts.len() && (moonshine_tensor_name(#[trigger] ts[i].name) == proj_out_name()
                || moonshine_tensor_name(ts[i].name) == embedding_name());
        assert(base[i].1 == moonshine_tensor_name(ts[i].name));
        if moonshine_tensor_name(ts[i].name) == proj_out_name() {
            assert(out[i].1 == proj_out_name());
        } else {
            match last_step_named(base, proj_out_name()) {
                Some(j) => {
                    assert(out[j].1 == proj_out_name());
                },
                None => {
                    assert(out[ts.len() as int].1 == proj_out_name());
                },
            }
        }
    }
    if out.len() == ts.len() + 1 {
        let j = last_step_named(base, embedding_name())->0;
        assert(base[j].1 == moonshine_tensor_name(ts[j].name));
        assert forall|i: int| 0 <= i < ts.len() implies moonshine_tensor_name(
            #[trigger] ts[i].name,
        ) != proj_out_name() by {
            assert(base[i].1 == moonshine_tensor_name(ts[i].name));
        }
    }
    if exists|k: int| 0 <= k < out.len() && (#[trigger] out[k]).1 == proj_out_name() {
        let k = choose|k: int| 0 <= k < out.len() && (#[trigger] out[k]).1 == proj_out_name();
        if k < ts.len() {
            assert(moonshine_tensor_name(ts[k].name) == proj_out_name());
        } else {
            let j = last_step_named(base, embedding_name())->0;
            assert(base[j].1 == embedding_name());
            assert(moonshine_tensor_name(ts[j].name) == embedding_name());
        }
    }
}

/// Plans a Moonshine conversion: every tensor under its mapped name, refused
/// at the first tensor whose element type cannot be converted; when the
/// checkpoint has no output projection, the token embedding is written once
/// more as the output projection (tied embeddings).
pub fn plan_moonshine_tensors(tensors: &Vec<RawTensor>) -> (r: Result<Vec<ConversionStep>, SttError>)
    ensures
        plan_outcome(tensor_views(tensors@), moonshine_steps(tensor_views(tensors@)), r),
{
    let ghost ts = tensor_views(tensors@);
    let ghost base = moonshine_base_steps(ts);
    let n = tensors.len();
    let mut steps: Vec<ConversionStep> = Vec::new();
    let mut has_proj_out = false;
    let mut embed_tokens: Option<usize> = None;
    let mut i: usize = 0;
    while i < n
        invariant
            n == tensors@.len(),
            ts == tensor_views(tensors@),
            base == moonshine_base_steps(ts),
            i <= n,
            forall|k: int| 0 <= k < i ==> (#[trigger] ts[k]).dtype != TensorDtype::Other,
            steps_view(steps@) == base.take(i as int),
            has_proj_out == last_step_named(base.take(i as int), proj_out_name()) is Some,
            match (embed_tokens, last_step_named(base.take(i as int), embedding_name())) {
                (None, None) => true,
                (Some(e), Some(j)) => e == j,
                _ => false,
            },
        decreases n - i,
    {
        if tensors[i].dtype == TensorDtype::Other {
            proof {
                lemma_first_unsupported_prefix(ts, i as int);
            }
            return Err(unsupported_error(&tensors[i]));
        }
        let name = map_moonshine_name(tensors[i].name.as_str());
        proof {
            assert(ts[i as int].name == tensors@[i as int].name@);
            assert(base.take(i + 1) =~= base.take(i as int).push((i as int, name@)));
            lemma_last_step_named_extend(base.take(i as int), (i as int, name@), proj_out_name());
            lemma_last_step_named_extend(base.take(i as int), (i as int, name@), embedding_name());
        }
        if crate::text::str_eq(name.as_str(), "decoder.proj_out.weight") {
            has_proj_out = true;
        }
        if crate::text::str_eq(name.as_str(), "decoder.token_embedding.weight") {
            embed_tokens = Some(i);
        }
        steps.push(ConversionStep { source: i, name });
        proof {
            assert(steps_view(steps@) =~= base.take(i + 1));
        }
        i = i + 1;
    }
    proof {
        lemma_first_unsupported_prefix(ts, n as int);
        assert(base.take(n as int) =~= base);
    }
    if !has_proj_out {
        match embed_tokens {
            Some(j) => {
                proof {
                    lemma_last_step_named_bounds(base, embedding_name());
                }
                steps.push(ConversionStep { source: j, name: String::from_str("decoder.proj_out.weight") });
                proof {
                    assert(steps_view(steps@) =~= moonshine_steps(ts));
                }
            },
            None => {},
        }
    }
    Ok(steps)
}

proof fn lemma_first_unsupported_is_unsupported(ts: Seq<TensorView>)
    ensures
        first_unsupported(ts) matches Some(i) ==> 0 <= i < ts.len() && ts[i].dtype
            == TensorDtype::Other,
        first_unsupported(ts) is None ==> forall|i: int| 0 <= i < ts.len() ==> (#[trigger] ts[i]).dtype
            != TensorDtype::Other,
    decreases ts.len(),
{
    if ts.len() > 0 {
        let d = ts.drop_first();
        lemma_first_unsupported_is_unsupported(d);
        if ts[0].dtype != TensorDtype::Other {
            assert forall|i: int| 0 < i < ts.len() implies ts[i] == d[i - 1] by {}
        }
    }
}

/// A checkpoint ready to be written as an `.apr` model.
pub struct PreparedConversion<'a> {
    /// The architecture configuration the model is written with.
    pub config: whisper_apr::model::ModelConfig,
    /// Where the weights came from (`"hf://<repo>"`).
    pub source: String,
    /// The vocabulary to embed, when the tokenizer file could be read.
    pub vocab: Option<whisper_apr::tokenizer::Vocabulary>,
    /// The checkpoint's tensors.
    pub tensors: Vec<RawTensor<'a>>,
    /// Which tensors to write, under which names, in order.
    pub steps: Vec<ConversionStep>,
}

/// The source recorded in a converted model: the HuggingFace repo of the
/// model's registry entry, or the model id itself for an unregistered id.
pub open spec fn model_source(id: Seq<char>) -> Seq<char> {
    "hf://"@ + match lookup(id) {
        Some(e) => e.hf_repo@,
        None => id,
    }
}

/// The message for a model id without a configuration.
pub open spec fn unknown_config_text(id: Seq<char>) -> Seq<char> {
    "Unknown model config: "@ + id
}

/// The message for a checkpoint that `safetensors` refuses.
pub open spec fn checkpoint_error_text(e: Seq<char>) -> Seq<char> {
    "Failed to parse SafeTensors: "@ + e
}

/// The outcome of preparing a conversion, apart from the vocabulary.
pub open spec fn prepared_outcome<'a>(
    bytes: Seq<u8>,
    id: Seq<char>,
    moonshine: bool,
    r: Result<PreparedConversion<'a>, SttError>,
) -> bool {
    if kind_for_id(id) is None {
        r matches Err(SttError::ModelNotFound(m)) && m@ == unknown_config_text(id)
    } else {
        match safetensors_contents(bytes) {
            None => r matches Err(SttError::TranscribeFailed(m)) && exists|e: Seq<char>|
                m@ == checkpoint_error_text(e),
            Some(m) => {
                &&& (r is Err <==> exists|k: Seq<char>| #[trigger] m.contains_key(k) && dtype_of_name(
                    m[k].dtype_name,
                ) == TensorDtype::Other)
                &&& r matches Err(e) ==> (e matches SttError::TranscribeFailed(msg) && exists|
                    k: Seq<char>,
                |
                    #[trigger] m.contains_key(k) && dtype_of_name(m[k].dtype_name) == TensorDtype::Other
                        && msg@ == unsupported_text(k, m[k].dtype_name))
                &&& r matches Ok(p) ==> {
                    &&& lists_tensors(tensor_views(p.tensors@), m)
                    &&& steps_view(p.steps@) == if moonshine {
                        moonshine_steps(tensor_views(p.tensors@))
                    } else {
                        whisper_steps(tensor_views(p.tensors@))
                    }
                    &&& p.source@ == model_source(id)
                    &&& model_config_dims(p.config) == kind_dims(kind_for_id(id)->0)
                }
            },
        }
    }
}

/// The source recorded in a converted model.
fn source_for(model_id: &str) -> (r: String)
    ensures
        r@ == model_source(model_id@),
{
    let mut s = String::from_str("hf://");
    match find_model_entry(model_id) {
        Some(e) => s.append(e.hf_repo),
        None => s.append(model_id),
    }
    s
}

/// The tensors of listed checkpoint entries, each with the element type that
/// its printed name stands for.
fn tensors_of<'a>(entries: Vec<CheckpointEntry<'a>>) -> (r: Vec<RawTensor<'a>>)
    ensures
        r@.len() == entries@.len(),
        forall|i: int|
            0 <= i < r@.len() ==> {
                let t = (#[trigger] r@[i])@;
                &&& t.name == entry_views(entries@)[i].0
                &&& stored(t) == entry_views(entries@)[i].1
                &&& t.dtype == dtype_of_name(t.dtype_name)
            },
{
    let n = entries.len();
    let mut out: Vec<RawTensor<'a>> = Vec::new();
    let mut i: usize = 0;
    while i < n
        invariant
            n == entries@.len(),
            i <= n,
            out@.len() == i,
            forall|k: int|
                0 <= k < i ==> {
                    let t = (#[trigger] out@[k])@;
                    &&& t.name == entry_views(entries@)[k].0
                    &&& stored(t) == entry_views(entries@)[k].1
                    &&& t.dtype == dtype_of_name(t.dtype_name)
                },
        decreases n - i,
    {
        let e = &entries[i];
        let t = RawTensor {
            name: e.0.clone(),
            dtype: dtype_from_name(e.1.as_str()),
            dtype_name: e.1.clone(),
            shape: e.2.clone(),
            data: e.3,
        };
        proof {
            assert(t.shape@ =~= e.2@);
        }
        out.push(t);
        i = i + 1;
    }
    out
}

/// Reads the tensors of a checkpoint.
fn read_checkpoint<'a>(bytes: &'a [u8]) -> (r: Result<Vec<RawTensor<'a>>, SttError>)
    ensures
        match (r, safetensors_contents(bytes@)) {
            (Err(e), None) => e matches SttError::TranscribeFailed(msg) && exists|t: Seq<char>|
                msg@ == checkpoint_error_text(t),
            (Ok(v), Some(m)) => lists_tensors(tensor_views(v@), m),
            _ => false,
        },
{
    match parse_safetensors(bytes) {
        Ok(entries) => {
            let ghost ev = entry_views(entries@);
            let v = tensors_of(entries);
            proof {
                let tv = tensor_views(v@);
                assert forall|i: int| 0 <= i < tv.len() implies tv[i].name == ev[i].0 && stored(
                    tv[i],
                ) == ev[i].1 && tv[i].dtype == dtype_of_name(tv[i].dtype_name) by {
                    assert(tv[i] == v@[i]@);
                }
            }
            Ok(v)
        },
        Err(e) => {
            let mut m = String::from_str("Failed to parse SafeTensors: ");
            m.append(e.as_str());
            assert(m@ == checkpoint_error_text(e@));
            Err(SttError::TranscribeFailed(m))
        },
    }
}

/// Links a plan's refusal to the checkpoint's tensors.
proof fn lemma_plan_refusal<'a>(
    v: Seq<RawTensor<'a>>,
    m: Map<Seq<char>, StoredTensor>,
    steps: Seq<(int, Seq<char>)>,
    r: Result<Vec<ConversionStep>, SttError>,
)
    requires
        lists_tensors(tensor_views(v), m),
        plan_outcome(tensor_views(v), steps, r),
    ensures
        r is Err <==> exists|k: Seq<char>| #[trigger] m.contains_key(k) && dtype_of_name(
            m[k].dtype_name,
        ) == TensorDtype::Other,
        r matches Err(e) ==> (e matches SttError::TranscribeFailed(msg) && exists|k: Seq<char>|
            #[trigger] m.contains_key(k) && dtype_of_name(m[k].dtype_name) == TensorDtype::Other
                && msg@ == unsupported_text(k, m[k].dtype_name)),
{
    let ts = tensor_views(v);
    lemma_first_unsupported_is_unsupported(ts);
    match first_unsupported(ts) {
        Some(i) => {
            assert(m.contains_key(ts[i].name));
        },
        None => {
            if exists|k: Seq<char>| #[trigger] m.contains_key(k) && dtype_of_name(m[k].dtype_name)
                == TensorDtype::Other {
                let k = choose|k: Seq<char>| #[trigger] m.contains_key(k) && dtype_of_name(
                    m[k].dtype_name,
                ) == TensorDtype::Other;
                let i = choose|i: int| 0 <= i < ts.len() && ts[i].name == k;
                assert(m[ts[i].name] == stored(ts[i]));
            }
        },
    }
}

/// Prepares the conversion of a Whisper checkpoint: its configuration (an
/// unknown model id is refused first), its tensors (a checkpoint that
/// `safetensors` refuses is refused next), the vocabulary from `vocab.json`
/// (left out when the file cannot be read), and the plan of tensors to
/// write, refused when a tensor cannot be converted.
pub fn prepare_whisper_conversion<'a>(
    safetensors_data: &'a [u8],
    vocab_json: &str,
    model_id: &str,
) -> (r: Result<PreparedConversion<'a>, SttError>)
    ensures
        prepared_outcome(safetensors_data@, model_id@, false, r),
        r matches Ok(p) ==> (p.vocab is Some <==> vocab_json_entries(vocab_json@) is Some),
        r matches Ok(p) ==> (p.vocab matches Some(v) ==> is_whisper_vocab_of(vocab_json@, v)),
{
    let config = match get_model_config(model_id) {
        Some(c) => c,
        None => {
            let mut m = String::from_str("Unknown model config: ");
            m.append(model_id);
            return Err(SttError::ModelNotFound(m));
        },
    };
    let tensors = read_checkpoint(safetensors_data)?;
    let source = source_for(model_id);
    let vocab = build_whisper_vocab(vocab_json);
    let plan = plan_whisper_tensors(&tensors);
    proof {
        if let Some(m) = safetensors_contents(safetensors_data@) {
            lemma_plan_refusal(tensors@, m, whisper_steps(tensor_views(tensors@)), plan);
        }
    }
    let steps = plan?;
    Ok(PreparedConversion { config, source, vocab, tensors, steps })
}

/// Prepares the conversion of a Moonshine checkpoint, as for Whisper, with
/// the vocabulary from `tokenizer.json` and the Moonshine tensor plan (tied
/// embeddings included).
pub fn prepare_moonshine_conversion<'a>(
    safetensors_data: &'a [u8],
    tokenizer_json: &str,
    model_id: &str,
) -> (r: Result<PreparedConversion<'a>, SttError>)
    ensures
        prepared_outcome(safetensors_data@, model_id@, true, r),
        r matches Ok(p) ==> (p.vocab is Some <==> crate::vocab::tokenizer_vocab(tokenizer_json@) is Some),
        r matches Ok(p) ==> (p.vocab matches Some(v) ==> crate::vocab::is_moonshine_vocab_of(
            tokenizer_json@,
            v,
        )),
{
    let config = match get_model_config(model_id) {
        Some(c) => c,
        None => {
            let mut m = String::from_str("Unknown model config: ");
            m.append(model_id);
            return Err(SttError::ModelNotFound(m));
        },
    };
    let tensors = read_checkpoint(safetensors_data)?;
    let source = source_for(model_id);
    let vocab = build_moonshine_vocab(tokenizer_json);
    let plan = plan_moonshine_tensors(&tensors);
    proof {
        if let Some(m) = safetensors_contents(safetensors_data@) {
            lemma_plan_refusal(tensors@, m, moonshine_steps(tensor_views(tensors@)), plan);
        }
    }
    let steps = plan?;
    Ok(PreparedConversion { config, source, vocab, tensors, steps })
}

} // verus!
