//! The token vocabularies embedded in converted models: Whisper's, built
//! from `vocab.json` plus the special tokens, and Moonshine's, built from
//! `tokenizer.json`.
use vstd::prelude::*;
use vstd::utf8::encode_utf8;

use crate::convert::{build_gpt2_byte_decoder, gpt2_byte_of};
use crate::text::{decimal, digit, digit_char, push_decimal, push_char};

verus! {

// ---------------------------------------------------------------------------
// whisper_apr's vocabulary
// ---------------------------------------------------------------------------

/// `whisper_apr`'s token vocabulary (token id to byte sequence).
#[verifier::external_type_specification]
#[verifier::external_body]
pub struct ExVocabulary(whisper_apr::tokenizer::Vocabulary);

/// The byte sequences of a vocabulary's tokens, by token id.
pub uninterp spec fn vocabulary_tokens(v: whisper_apr::tokenizer::Vocabulary) -> Seq<Seq<u8>>;

/// `Vocabulary::new` creates a vocabulary without tokens.
pub assume_specification[ whisper_apr::tokenizer::Vocabulary::new ]() -> (v:
    whisper_apr::tokenizer::Vocabulary)
    ensures
        vocabulary_tokens(v) == Seq::<Seq<u8>>::empty(),
;

/// `Vocabulary::add_token` appends a token and returns its id, the previous
/// token count (cast to `u32`).
pub assume_specification[ whisper_apr::tokenizer::Vocabulary::add_token ](
    v: &mut whisper_apr::tokenizer::Vocabulary,
    bytes: Vec<u8>,
) -> (id: u32)
    ensures
        vocabulary_tokens(*final(v)) == vocabulary_tokens(*old(v)).push(bytes@),
        id == vocabulary_tokens(*old(v)).len() as u32,
;

/// `Vocabulary::len` is the number of tokens.
pub assume_specification[ whisper_apr::tokenizer::Vocabulary::len ](
    v: &whisper_apr::tokenizer::Vocabulary,
) -> (n: usize)
    ensures
        n == vocabulary_tokens(*v).len(),
;

// ---------------------------------------------------------------------------
// Whisper vocabulary
// ---------------------------------------------------------------------------

/// What `serde_json` makes of `vocab.json` read as a map from token string to
/// id: `None` when it is not such an object, else its entries in key order
/// (for a repeated key, the last value).
pub uninterp spec fn vocab_json_entries(text: Seq<char>) -> Option<Seq<(Seq<char>, u32)>>;

/// The views of token entries.
pub open spec fn entry_views(v: Seq<(String, u32)>) -> Seq<(Seq<char>, u32)> {
    v.map_values(|p: (String, u32)| (p.0@, p.1))
}

/// Parses `vocab.json` with `serde_json::from_str` into a
/// `BTreeMap<String, u32>` and lists its entries. Claimed: the outcome is
/// the named function `vocab_json_entries` of the text.
#[verifier::external_body]
fn parse_vocab_json(text: &str) -> (r: Option<Vec<(String, u32)>>)
    ensures
        match (r, vocab_json_entries(text@)) {
            (None, None) => true,
            (Some(v), Some(e)) => entry_views(v@) == e,
            _ => false,
        },
{
    serde_json::from_str::<std::collections::BTreeMap<String, u32>>(text).ok().map(
        |m| m.into_iter().collect(),
    )
}

/// Whether entries are ordered by token id.
pub open spec fn sorted_by_id(s: Seq<(Seq<char>, u32)>) -> bool {
    forall|i: int, j: int| 0 <= i < j < s.len() ==> s[i].1 <= s[j].1
}

/// `slice::sort_by_key` on the token id: the entries are permuted into
/// non-decreasing id order.
#[verifier::external_body]
fn sort_by_token_id(v: &mut Vec<(String, u32)>)
    ensures
        entry_views(final(v)@).to_multiset() == entry_views(old(v)@).to_multiset(),
        sorted_by_id(entry_views(final(v)@)),
{
    v.sort_by_key(|p| p.1);
}

/// The bytes that a GPT-2 token string stands for: each character that the
/// byte decoder knows gives its byte, the others are skipped.
pub open spec fn decode_token(s: Seq<char>) -> Seq<u8>
    decreases s.len(),
{
    if s.len() == 0 {
        Seq::empty()
    } else {
        decode_token(s.drop_last()) + match gpt2_byte_of(s.last() as u32) {
            Some(b) => seq![b],
            None => Seq::<u8>::empty(),
        }
    }
}

/// Id of Whisper's start-of-transcript token.
pub const WHISPER_SOT: usize = 50258;

/// Number of timestamp tokens (0.00 s to 30.00 s in steps of 0.02 s).
pub const WHISPER_TIMESTAMPS: usize = 1501;

/// The language codes of Whisper's 99 language tokens, in id order.
pub open spec fn whisper_languages() -> Seq<&'static str> {
    seq![
        "en", "zh", "de", "es", "ru", "ko", "fr", "ja", "pt", "tr", "pl", "ca", "nl", "ar", "sv",
        "it", "id", "hi", "fi", "vi", "he", "uk", "el", "ms", "cs", "ro", "da", "hu", "ta", "no",
        "th", "ur", "hr", "bg", "lt", "la", "mi", "ml", "cy", "sk", "te", "fa", "lv", "bn", "sr",
        "az", "sl", "kn", "et", "mk", "br", "eu", "is", "hy", "ne", "mn", "bs", "kk", "sq", "sw",
        "gl", "mr", "pa", "si", "km", "sn", "yo", "so", "af", "oc", "ka", "be", "tg", "sd", "gu",
        "am", "yi", "lo", "uz", "fo", "ht", "ps", "tk", "nn", "mt", "sa", "lb", "my", "bo", "tl",
        "mg", "as", "tt", "haw", "ln", "ha", "ba", "jw", "su",
    ]
}

/// The task tokens that follow the language tokens, in id order.
pub open spec fn whisper_tasks() -> Seq<&'static str> {
    seq![
        "<|translate|>",
        "<|transcribe|>",
        "<|startoflm|>",
        "<|startofprev|>",
        "<|nospeech|>",
        "<|notimestamps|>",
    ]
}

/// `"<|" + name + "|>"`.
pub open spec fn bracketed(name: Seq<char>) -> Seq<char> {
    "<|"@ + name + "|>"@
}

/// The text of timestamp token `i`: `i * 0.02` seconds with two decimals.
pub open spec fn timestamp_text(i: nat) -> Seq<char> {
    let centis = 2 * i;
    bracketed(
        decimal(centis / 100) + seq!['.', digit_char(((centis % 100) / 10) as int), digit_char(
            (centis % 10) as int,
        )],
    )
}

/// The special tokens that follow the regular ones, from the
/// start-of-transcript token on.
pub open spec fn whisper_special_tokens() -> Seq<Seq<u8>> {
    seq![encode_utf8("<|startoftranscript|>"@)] + Seq::new(
        99,
        |i: int| encode_utf8(bracketed(whisper_languages()[i]@)),
    ) + Seq::new(6, |i: int| encode_utf8(whisper_tasks()[i]@)) + Seq::new(
        WHISPER_TIMESTAMPS as nat,
        |i: int| encode_utf8(timestamp_text(i as nat)),
    )
}

/// The regular tokens decoded and padded with `[0]` tokens up to the
/// start-of-transcript id.
pub open spec fn padded_regular_tokens(order: Seq<(Seq<char>, u32)>) -> Seq<Seq<u8>> {
    let base = order.map_values(|p: (Seq<char>, u32)| decode_token(p.0));
    if base.len() < WHISPER_SOT {
        base + Seq::new((WHISPER_SOT - base.len()) as nat, |i: int| seq![0u8])
    } else {
        base
    }
}

/// The Whisper vocabulary for token entries in the given order.
pub open spec fn whisper_vocab_tokens(order: Seq<(Seq<char>, u32)>) -> Seq<Seq<u8>> {
    padded_regular_tokens(order) + whisper_special_tokens()
}

/// The byte sequence of a token string, through the GPT-2 byte decoder.
fn decode_token_bytes(decoder: &std::collections::HashMap<u32, u8>, s: &str) -> (r: Vec<u8>)
    requires
        forall|c: u32| #[trigger] decoder@.contains_key(c) <==> gpt2_byte_of(c) is Some,
        forall|c: u32| decoder@.contains_key(c) ==> Some(#[trigger] decoder@[c]) == gpt2_byte_of(c),
    ensures
        r@ == decode_token(s@),
{
    broadcast use vstd::std_specs::hash::group_hash_axioms;

    let n = s.unicode_len();
    let mut out: Vec<u8> = Vec::new();
    let mut i: usize = 0;
    while i < n
        invariant
            n == s@.len(),
            i <= n,
            forall|c: u32| #[trigger] decoder@.contains_key(c) <==> gpt2_byte_of(c) is Some,
            forall|c: u32| decoder@.contains_key(c) ==> Some(#[trigger] decoder@[c])
                == gpt2_byte_of(c),
            out@ == decode_token(s@.take(i as int)),
        decreases n - i,
    {
        let c = s.get_char(i);
        let key: u32 = c as u32;
        let found = decoder.get(&key);
        proof {
            let t = s@.take(i + 1);
            assert(t.drop_last() =~= s@.take(i as int));
            assert(t.last() == c);
        }
        match found {
            Some(b) => {
                out.push(*b);
            },
            None => {},
        }
        proof {
            let t = s@.take(i + 1);
            assert(out@ =~= decode_token(t));
        }
        i = i + 1;
    }
    assert(s@.take(n as int) =~= s@);
    out
}

/// The UTF-8 bytes of a string.
fn utf8_bytes(s: &str) -> (r: Vec<u8>)
    ensures
        r@ == encode_utf8(s@),
{
    s.as_bytes_vec()
}

/// The UTF-8 bytes of `"<|" + name + "|>"`.
fn bracketed_bytes(name: &str) -> (r: Vec<u8>)
    ensures
        r@ == encode_utf8(bracketed(name@)),
{
    let mut t = String::from_str("<|");
    t.append(name);
    t.append("|>");
    utf8_bytes(t.as_str())
}

/// The UTF-8 bytes of timestamp token `i`.
fn timestamp_bytes(i: u64) -> (r: Vec<u8>)
    requires
        i < WHISPER_TIMESTAMPS,
    ensures
        r@ == encode_utf8(timestamp_text(i as nat)),
{
    let centis = 2 * i;
    let mut t = String::new();
    push_decimal(&mut t, centis / 100);
    push_char(&mut t, '.');
    push_char(&mut t, digit((centis % 100) / 10));
    push_char(&mut t, digit(centis % 10));
    let b = bracketed_bytes(t.as_str());
    assert(t@ =~= decimal((centis / 100) as nat) + seq![
        '.',
        digit_char(((centis % 100) / 10) as int),
        digit_char((centis % 10) as int),
    ]);
    b
}

/// The language codes of Whisper's language tokens, in id order.
fn whisper_language_codes() -> (r: [&'static str; 99])
    ensures
        r@ == whisper_languages(),
{
    let r: [&'static str; 99] = [
        "en", "zh", "de", "es", "ru", "ko", "fr", "ja", "pt", "tr", "pl", "ca", "nl", "ar", "sv",
        "it", "id", "hi", "fi", "vi", "he", "uk", "el", "ms", "cs", "ro", "da", "hu", "ta", "no",
        "th", "ur", "hr", "bg", "lt", "la", "mi", "ml", "cy", "sk", "te", "fa", "lv", "bn", "sr",
        "az", "sl", "kn", "et", "mk", "br", "eu", "is", "hy", "ne", "mn", "bs", "kk", "sq", "sw",
        "gl", "mr", "pa", "si", "km", "sn", "yo", "so", "af", "oc", "ka", "be", "tg", "sd", "gu",
        "am", "yi", "lo", "uz", "fo", "ht", "ps", "tk", "nn", "mt", "sa", "lb", "my", "bo", "tl",
        "mg", "as", "tt", "haw", "ln", "ha", "ba", "jw", "su",
    ];
    assert(r@ =~= whisper_languages());
    r
}

/// Whether `v` is the Whisper vocabulary for token entries `entries`: its
/// tokens are those of the entries in some non-decreasing id order.
pub open spec fn is_whisper_vocab_for(
    entries: Seq<(Seq<char>, u32)>,
    v: whisper_apr::tokenizer::Vocabulary,
) -> bool {
    exists|order: Seq<(Seq<char>, u32)>|
        order.to_multiset() == entries.to_multiset() && sorted_by_id(order) && vocabulary_tokens(
            v,
        ) == whisper_vocab_tokens(order)
}

/// Whether `v` is the Whisper vocabulary for `vocab.json` text `json`.
pub open spec fn is_whisper_vocab_of(json: Seq<char>, v: whisper_apr::tokenizer::Vocabulary) -> bool {
    is_whisper_vocab_for(vocab_json_entries(json).unwrap(), v)
}

/// Appends a token and keeps track of the token sequence.
fn push_token(vocab: &mut whisper_apr::tokenizer::Vocabulary, bytes: Vec<u8>)
    ensures
        vocabulary_tokens(*final(vocab)) == vocabulary_tokens(*old(vocab)).push(bytes@),
{
    let _ = vocab.add_token(bytes);
}

/// Builds the Whisper vocabulary from `vocab.json`: the regular tokens in id
/// order (decoded through the GPT-2 byte decoder), `[0]` padding up to the
/// start-of-transcript id, then the start-of-transcript, language, task and
/// timestamp tokens. `None` when `vocab.json` is not a map of token strings
/// to ids. Tokens that share an id come in an unspecified order.
pub fn build_whisper_vocab(vocab_json: &str) -> (r: Option<whisper_apr::tokenizer::Vocabulary>)
    ensures
        r is None <==> vocab_json_entries(vocab_json@) is None,
        r matches Some(v) ==> is_whisper_vocab_of(vocab_json@, v),
{
    match parse_vocab_json(vocab_json) {
        Some(t) => Some(whisper_vocab_from_entries(t)),
        None => None,
    }
}

/// The Whisper vocabulary for the token entries of `vocab.json` (token
/// string and id, in any order), as `build_whisper_vocab` builds it.
pub fn whisper_vocab_from_entries(entries: Vec<(String, u32)>) -> (r:
    whisper_apr::tokenizer::Vocabulary)
    ensures
        is_whisper_vocab_for(entry_views(entries@), r),
{
    let ghost given = entry_views(entries@);
    let mut tokens = entries;
    sort_by_token_id(&mut tokens);
    let ghost order = entry_views(tokens@);
    let decoder = build_gpt2_byte_decoder();
    let mut vocab = whisper_apr::tokenizer::Vocabulary::new();
    let n = tokens.len();
    let mut i: usize = 0;
    while i < n
        invariant
            n == tokens@.len(),
            order == entry_views(tokens@),
            i <= n,
            forall|c: u32| #[trigger] decoder@.contains_key(c) <==> gpt2_byte_of(c) is Some,
            forall|c: u32| decoder@.contains_key(c) ==> Some(#[trigger] decoder@[c])
                == gpt2_byte_of(c),
            vocabulary_tokens(vocab) == order.take(i as int).map_values(
                |p: (Seq<char>, u32)| decode_token(p.0),
            ),
        decreases n - i,
    {
        let bytes = decode_token_bytes(&decoder, tokens[i].0.as_str());
        push_token(&mut vocab, bytes);
        proof {
            assert(order.take(i + 1).map_values(|p: (Seq<char>, u32)| decode_token(p.0))
                =~= order.take(i as int).map_values(|p: (Seq<char>, u32)| decode_token(p.0)).push(
                decode_token(order[i as int].0),
            ));
        }
        i = i + 1;
    }
    let ghost base = order.map_values(|p: (Seq<char>, u32)| decode_token(p.0));
    assert(order.take(n as int) =~= order);
    // Placeholder tokens up to the start-of-transcript id.
    while vocab.len() < WHISPER_SOT
        invariant
            vocabulary_tokens(vocab).len() <= (if base.len() < WHISPER_SOT {
                WHISPER_SOT as int
            } else {
                base.len() as int
            }),
            vocabulary_tokens(vocab).len() >= base.len(),
            vocabulary_tokens(vocab) == base + Seq::new(
                (vocabulary_tokens(vocab).len() - base.len()) as nat,
                |k: int| seq![0u8],
            ),
        decreases WHISPER_SOT - vocabulary_tokens(vocab).len(),
    {
        let mut zero: Vec<u8> = Vec::new();
        zero.push(0u8);
        let ghost before = vocabulary_tokens(vocab);
        push_token(&mut vocab, zero);
        proof {
            assert(zero@ =~= seq![0u8]);
            assert(vocabulary_tokens(vocab) =~= base + Seq::new(
                (vocabulary_tokens(vocab).len() - base.len()) as nat,
                |k: int| seq![0u8],
            ));
        }
    }
    let ghost padded = vocabulary_tokens(vocab);
    proof {
        if base.len() >= WHISPER_SOT {
            assert(padded =~= base);
        }
        assert(padded =~= padded_regular_tokens(order));
    }
    push_token(&mut vocab, utf8_bytes("<|startoftranscript|>"));
    let langs = whisper_language_codes();
    let mut k: usize = 0;
    while k < 99
        invariant
            k <= 99,
            langs@ == whisper_languages(),
            vocabulary_tokens(vocab) == padded + seq![encode_utf8("<|startoftranscript|>"@)]
                + Seq::new(k as nat, |j: int| encode_utf8(bracketed(whisper_languages()[j]@))),
        decreases 99 - k,
    {
        push_token(&mut vocab, bracketed_bytes(langs[k]));
        proof {
            assert(Seq::new((k + 1) as nat, |j: int| encode_utf8(bracketed(whisper_languages()[j]@)))
                =~= Seq::new(k as nat, |j: int| encode_utf8(bracketed(whisper_languages()[j]@))).push(
                encode_utf8(bracketed(whisper_languages()[k as int]@)),
            ));
        }
        k = k + 1;
    }
    let ghost with_langs = vocabulary_tokens(vocab);
    push_token(&mut vocab, utf8_bytes("<|translate|>"));
    push_token(&mut vocab, utf8_bytes("<|transcribe|>"));
    push_token(&mut vocab, utf8_bytes("<|startoflm|>"));
    push_token(&mut vocab, utf8_bytes("<|startofprev|>"));
    push_token(&mut vocab, utf8_bytes("<|nospeech|>"));
    push_token(&mut vocab, utf8_bytes("<|notimestamps|>"));
    let ghost with_tasks = vocabulary_tokens(vocab);
    proof {
        assert(with_tasks =~= with_langs + Seq::new(6, |j: int| encode_utf8(whisper_tasks()[j]@)));
    }
    let mut t: u64 = 0;
    while t < WHISPER_TIMESTAMPS as u64
        invariant
            t <= WHISPER_TIMESTAMPS,
            vocabulary_tokens(vocab) == with_tasks + Seq::new(
                t as nat,
                |j: int| encode_utf8(timestamp_text(j as nat)),
            ),
        decreases WHISPER_TIMESTAMPS - t,
    {
        push_token(&mut vocab, timestamp_bytes(t));
        proof {
            assert(Seq::new((t + 1) as nat, |j: int| encode_utf8(timestamp_text(j as nat)))
                =~= Seq::new(t as nat, |j: int| encode_utf8(timestamp_text(j as nat))).push(
                encode_utf8(timestamp_text(t as nat)),
            ));
        }
        t = t + 1;
    }
    proof {
        assert(vocabulary_tokens(vocab) =~= whisper_vocab_tokens(order));
        assert(order.to_multiset() == given.to_multiset());
    }
    vocab
}

/// With at most 50258 regular tokens, every token sits at its documented
/// id: the regular tokens first, start-of-transcript at 50258, the languages
/// at 50259..=50357, the tasks at 50358..=50363 and the timestamps at
/// 50364..=51864, for 51865 tokens in all.
pub proof fn lemma_whisper_token_ids(order: Seq<(Seq<char>, u32)>)
    requires
        order.len() <= WHISPER_SOT,
    ensures
        whisper_vocab_tokens(order).len() == 51865,
        forall|i: int| 0 <= i < order.len() ==> #[trigger] whisper_vocab_tokens(order)[i]
            == decode_token(order[i].0),
        whisper_vocab_tokens(order)[50258] == encode_utf8("<|startoftranscript|>"@),
        forall|i: int| 0 <= i < 99 ==> #[trigger] whisper_vocab_tokens(order)[50259 + i]
            == encode_utf8(bracketed(whisper_languages()[i]@)),
        forall|j: int| 0 <= j < 6 ==> #[trigger] whisper_vocab_tokens(order)[50358 + j]
            == encode_utf8(whisper_tasks()[j]@),
        forall|k: int| 0 <= k < 1501 ==> #[trigger] whisper_vocab_tokens(order)[50364 + k]
            == encode_utf8(timestamp_text(k as nat)),
{
    let t = whisper_vocab_tokens(order);
    let p = padded_regular_tokens(order);
    assert(p.len() == WHISPER_SOT);
    let sp = whisper_special_tokens();
    assert(t == p + sp);
    assert forall|i: int| 0 <= i < order.len() implies #[trigger] t[i] == decode_token(order[i].0) by {
        assert(t[i] == p[i]);
    }
    assert forall|i: int| 0 <= i < 99 implies #[trigger] t[50259 + i] == encode_utf8(
        bracketed(whisper_languages()[i]@),
    ) by {
        assert(t[50259 + i] == sp[1 + i]);
    }
    assert forall|j: int| 0 <= j < 6 implies #[trigger] t[50358 + j] == encode_utf8(
        whisper_tasks()[j]@,
    ) by {
        assert(t[50358 + j] == sp[100 + j]);
    }
    assert forall|k: int| 0 <= k < 1501 implies #[trigger] t[50364 + k] == encode_utf8(
        timestamp_text(k as nat),
    ) by {
        assert(t[50364 + k] == sp[106 + k]);
    }
}

// ---------------------------------------------------------------------------
// Moonshine vocabulary
// ---------------------------------------------------------------------------

/// What `serde_json` makes of the `model.vocab` object of `tokenizer.json`:
/// `None` when the text is not JSON or has no such object, else its entries
/// in key order, each with its id when that is an unsigned integer.
pub uninterp spec fn tokenizer_vocab(text: Seq<char>) -> Option<Seq<(Seq<char>, Option<u64>)>>;

/// What `serde_json` makes of the `added_tokens` array of `tokenizer.json`:
/// `None` when the text is not JSON or has no such array, else for each
/// element its `id` (when an unsigned integer) and `content` (when a string).
pub uninterp spec fn tokenizer_added(text: Seq<char>) -> Option<
    Seq<(Option<u64>, Option<Seq<char>>)>,
>;

/// The views of vocabulary entries.
pub open spec fn piece_views(v: Seq<(String, Option<u64>)>) -> Seq<(Seq<char>, Option<u64>)> {
    v.map_values(|p: (String, Option<u64>)| (p.0@, p.1))
}

/// The views of added-token entries.
pub open spec fn added_views(v: Seq<(Option<u64>, Option<String>)>) -> Seq<
    (Option<u64>, Option<Seq<char>>),
> {
    v.map_values(
        |p: (Option<u64>, Option<String>)|
            (
                p.0,
                match p.1 {
                    Some(s) => Some(s@),
                    None => None,
                },
            ),
    )
}

/// Parses `tokenizer.json` with `serde_json::from_str` and lists the entries
/// of its `model.vocab` object (`Value::get`, `as_object`, `as_u64`).
/// Claimed: the outcome is the named function `tokenizer_vocab` of the text.
#[verifier::external_body]
fn parse_tokenizer_vocab(text: &str) -> (r: Option<Vec<(String, Option<u64>)>>)
    ensures
        match (r, tokenizer_vocab(text@)) {
            (None, None) => true,
            (Some(v), Some(e)) => piece_views(v@) == e,
            _ => false,
        },
{
    let json: serde_json::Value = serde_json::from_str(text).ok()?;
    let obj = json.get("model").and_then(|m| m.get("vocab")).and_then(|v| v.as_object())?;
    Some(obj.iter().map(|(piece, id)| (piece.clone(), id.as_u64())).collect())
}

/// Parses `tokenizer.json` with `serde_json::from_str` and lists the `id`
/// and `content` of the elements of its `added_tokens` array (`Value::get`,
/// `as_array`, `as_u64`, `as_str`). Claimed: the outcome is the named
/// function `tokenizer_added` of the text.
#[verifier::external_body]
fn parse_tokenizer_added(text: &str) -> (r: Option<Vec<(Option<u64>, Option<String>)>>)
    ensures
        match (r, tokenizer_added(text@)) {
            (None, None) => true,
            (Some(v), Some(e)) => added_views(v@) == e,
            _ => false,
        },
{
    let json: serde_json::Value = serde_json::from_str(text).ok()?;
    let arr = json.get("added_tokens").and_then(|a| a.as_array())?;
    Some(arr.iter().map(|t| (
        t.get("id").and_then(|i| i.as_u64()),
        t.get("content").and_then(|c| c.as_str()).map(|c| c.to_string()),
    )).collect())
}

/// The pieces by id after the vocabulary entries, in order (a later entry
/// with the same id replaces an earlier one); ids are cast to `u32`.
pub open spec fn vocab_pieces(entries: Seq<(Seq<char>, Option<u64>)>) -> Map<u32, Seq<char>>
    decreases entries.len(),
{
    if entries.len() == 0 {
        Map::empty()
    } else {
        let m = vocab_pieces(entries.drop_last());
        match entries.last().1 {
            Some(id) => m.insert(id as u32, entries.last().0),
            None => m,
        }
    }
}

/// The pieces by id once the added tokens are merged in: an added token
/// fills its id only when no piece has it yet.
pub open spec fn with_added(m: Map<u32, Seq<char>>, added: Seq<(Option<u64>, Option<Seq<char>>)>) -> Map<
    u32,
    Seq<char>,
>
    decreases added.len(),
{
    if added.len() == 0 {
        m
    } else {
        let p = with_added(m, added.drop_last());
        match added.last() {
            (Some(id), Some(content)) => if p.contains_key(id as u32) {
                p
            } else {
                p.insert(id as u32, content)
            },
            _ => p,
        }
    }
}

/// The pieces by id of a Moonshine tokenizer.
pub open spec fn moonshine_pieces(
    entries: Seq<(Seq<char>, Option<u64>)>,
    added: Option<Seq<(Option<u64>, Option<Seq<char>>)>>,
) -> Map<u32, Seq<char>> {
    match added {
        Some(a) => with_added(vocab_pieces(entries), a),
        None => vocab_pieces(entries),
    }
}

/// Whether `k` is the largest id of `m`, or 0 for an empty map.
pub open spec fn is_max_id(m: Map<u32, Seq<char>>, k: u32) -> bool {
    &&& forall|j: u32| m.contains_key(j) ==> j <= k
    &&& (m.contains_key(k) || (k == 0 && forall|j: u32| !m.contains_key(j)))
}

/// The Moonshine tokens: for every id from 0 to the largest one, the UTF-8
/// bytes of its piece, or no bytes where no piece has the id.
pub open spec fn moonshine_tokens(m: Map<u32, Seq<char>>, max_id: u32) -> Seq<Seq<u8>> {
    Seq::new(
        (max_id + 1) as nat,
        |i: int|
            if m.contains_key(i as u32) {
                encode_utf8(m[i as u32])
            } else {
                Seq::<u8>::empty()
            },
    )
}

/// Whether `v` is the Moonshine vocabulary for the pieces by id `pieces`.
pub open spec fn is_moonshine_vocab_for(
    pieces: Map<u32, Seq<char>>,
    v: whisper_apr::tokenizer::Vocabulary,
) -> bool {
    exists|max_id: u32|
        is_max_id(pieces, max_id) && vocabulary_tokens(v) == moonshine_tokens(pieces, max_id)
}

/// Whether `v` is the Moonshine vocabulary for `tokenizer.json` text `json`.
pub open spec fn is_moonshine_vocab_of(json: Seq<char>, v: whisper_apr::tokenizer::Vocabulary) -> bool {
    is_moonshine_vocab_for(
        moonshine_pieces(tokenizer_vocab(json).unwrap(), tokenizer_added(json)),
        v,
    )
}

/// The views of the optional added-token entries.
pub open spec fn opt_added_views(a: Option<Vec<(Option<u64>, Option<String>)>>) -> Option<
    Seq<(Option<u64>, Option<Seq<char>>)>,
> {
    match a {
        Some(v) => Some(added_views(v@)),
        None => None,
    }
}

/// Records `id` as a candidate for the largest id.
fn bump_max(max_id: Option<u32>, id: u32) -> (r: Option<u32>)
    ensures
        r matches Some(k) && (k == id || max_id == Some(k)) && k >= id,
        max_id matches Some(old_k) ==> (r matches Some(k) && k >= old_k),
{
    match max_id {
        Some(k) => if id > k {
            Some(id)
        } else {
            Some(k)
        },
        None => Some(id),
    }
}

/// Builds the Moonshine vocabulary from `tokenizer.json`: one token per id
/// from 0 to the largest id found, holding the piece's UTF-8 bytes (empty
/// where no piece has the id). Pieces come from `model.vocab`, and
/// `added_tokens` fill ids that no piece has. `None` when the text is not
/// JSON or has no `model.vocab` object.
pub fn build_moonshine_vocab(tokenizer_json: &str) -> (r: Option<whisper_apr::tokenizer::Vocabulary>)
    ensures
        r is None <==> tokenizer_vocab(tokenizer_json@) is None,
        r matches Some(v) ==> is_moonshine_vocab_of(tokenizer_json@, v),
{
    let entries = match parse_tokenizer_vocab(tokenizer_json) {
        Some(e) => e,
        None => return None,
    };
    let added = parse_tokenizer_added(tokenizer_json);
    Some(moonshine_vocab_from_entries(entries, added))
}

/// The Moonshine vocabulary for the entries of `model.vocab` (piece and id,
/// in order) and of `added_tokens` (id and content), as
/// `build_moonshine_vocab` builds it.
pub fn moonshine_vocab_from_entries(
    entries: Vec<(String, Option<u64>)>,
    added: Option<Vec<(Option<u64>, Option<String>)>>,
) -> (r: whisper_apr::tokenizer::Vocabulary)
    ensures
        is_moonshine_vocab_for(moonshine_pieces(piece_views(entries@), opt_added_views(added)), r),
        // Every token is the UTF-8 encoding of the piece with its id, byte for
        // byte, or empty where no piece has the id; every id of a piece has
        // its token.
        ({
            let pieces = moonshine_pieces(piece_views(entries@), opt_added_views(added));
            &&& forall|k: u32| pieces.contains_key(k) ==> k < vocabulary_tokens(r).len()
            &&& forall|i: int|
                0 <= i < vocabulary_tokens(r).len() ==> #[trigger] vocabulary_tokens(r)[i] == if pieces.contains_key(
                    i as u32,
                ) {
                    encode_utf8(pieces[i as u32])
                } else {
                    Seq::<u8>::empty()
                }
        }),
{
    broadcast use vstd::std_specs::hash::group_hash_axioms;

    let ghost ev = piece_views(entries@);
    let mut id_to_piece: std::collections::HashMap<u32, String> = std::collections::HashMap::new();
    let mut max_id: Option<u32> = None;
    let n = entries.len();
    let mut i: usize = 0;
    while i < n
        invariant
            n == entries@.len(),
            ev == piece_views(entries@),
            i <= n,
            id_to_piece@.map_values(|s: String| s@) == vocab_pieces(ev.take(i as int)),
            forall|j: u32| id_to_piece@.contains_key(j) ==> (max_id matches Some(k) && j <= k),
            max_id matches Some(k) ==> id_to_piece@.contains_key(k),
        decreases n - i,
    {
        proof {
            assert(ev.take(i + 1).drop_last() =~= ev.take(i as int));
        }
        match entries[i].1 {
            Some(id) => {
                let key = id as u32;
                id_to_piece.insert(key, entries[i].0.clone());
                max_id = bump_max(max_id, key);
                proof {
                    assert(id_to_piece@.map_values(|s: String| s@) =~= vocab_pieces(
                        ev.take(i + 1),
                    ));
                }
            },
            None => {},
        }
        i = i + 1;
    }
    assert(ev.take(n as int) =~= ev);
    match &added {
        Some(list) => {
            let ghost av = added_views(list@);
            let ghost base = vocab_pieces(ev);
            let m = list.len();
            let mut j: usize = 0;
            while j < m
                invariant
                    m == list@.len(),
                    av == added_views(list@),
                    j <= m,
                    id_to_piece@.map_values(|s: String| s@) == with_added(base, av.take(j as int)),
                    forall|q: u32| id_to_piece@.contains_key(q) ==> (max_id matches Some(k) && q <= k),
                    max_id matches Some(k) ==> id_to_piece@.contains_key(k),
                decreases m - j,
            {
                proof {
                    assert(av.take(j + 1).drop_last() =~= av.take(j as int));
                }
                match (&list[j].0, &list[j].1) {
                    (Some(id), Some(content)) => {
                        let key = *id as u32;
                        if !id_to_piece.contains_key(&key) {
                            id_to_piece.insert(key, content.clone());
                            max_id = bump_max(max_id, key);
                        }
                        proof {
                            assert(id_to_piece@.map_values(|s: String| s@) =~= with_added(
                                base,
                                av.take(j + 1),
                            ));
                        }
                    },
                    _ => {},
                }
                j = j + 1;
            }
            assert(av.take(m as int) =~= av);
        },
        None => {},
    }
    let ghost pieces = id_to_piece@.map_values(|s: String| s@);
    assert(pieces == moonshine_pieces(ev, opt_added_views(added)));
    let top: u32 = match max_id {
        Some(k) => k,
        None => 0,
    };
    assert(is_max_id(pieces, top));
    let mut vocab = whisper_apr::tokenizer::Vocabulary::new();
    let mut id: u64 = 0;
    while id <= top as u64
        invariant
            id <= top as u64 + 1,
            pieces == id_to_piece@.map_values(|s: String| s@),
            vocabulary_tokens(vocab) == moonshine_tokens(pieces, top).take(id as int),
        decreases top as u64 + 1 - id,
    {
        let key = id as u32;
        let bytes = match id_to_piece.get(&key) {
            Some(piece) => utf8_bytes(piece.as_str()),
            None => Vec::new(),
        };
        push_token(&mut vocab, bytes);
        proof {
            assert(moonshine_tokens(pieces, top).take(id + 1) =~= moonshine_tokens(pieces, top).take(
                id as int,
            ).push(moonshine_tokens(pieces, top)[id as int]));
        }
        id = id + 1;
    }
    assert(moonshine_tokens(pieces, top).take((top + 1) as int) =~= moonshine_tokens(pieces, top));
    proof {
        lemma_moonshine_tokens_are_utf8(pieces, top);
    }
    vocab
}

/// A Moonshine vocabulary holds one token per id from 0 to the largest id:
/// the UTF-8 encoding of the id's piece, byte for byte, or no bytes where no
/// piece has the id.
pub proof fn lemma_moonshine_tokens_are_utf8(m: Map<u32, Seq<char>>, max_id: u32)
    ensures
        moonshine_tokens(m, max_id).len() == max_id as int + 1,
        forall|i: int|
            0 <= i <= max_id && m.contains_key(i as u32) ==> #[trigger] moonshine_tokens(m, max_id)[i]
                == encode_utf8(m[i as u32]),
        forall|i: int|
            0 <= i <= max_id && !m.contains_key(i as u32) ==> #[trigger] moonshine_tokens(m, max_id)[i]
                == Seq::<u8>::empty(),
{
}

/// Pieces of `model.vocab` take precedence: merging the added tokens keeps
/// every id that a piece already has, with its piece.
pub proof fn lemma_added_tokens_keep_pieces(
    m: Map<u32, Seq<char>>,
    added: Seq<(Option<u64>, Option<Seq<char>>)>,
    k: u32,
)
    requires
        m.contains_key(k),
    ensures
        with_added(m, added).contains_key(k),
        with_added(m, added)[k] == m[k],
    decreases added.len(),
{
    if added.len() > 0 {
        lemma_added_tokens_keep_pieces(m, added.drop_last(), k);
    }
}

/// The largest id is unique, so the Moonshine tokens are fully determined
/// by the tokenizer file.
pub proof fn lemma_max_id_unique(m: Map<u32, Seq<char>>, k1: u32, k2: u32)
    requires
        is_max_id(m, k1),
        is_max_id(m, k2),
    ensures
        k1 == k2,
{
}

} // verus!
