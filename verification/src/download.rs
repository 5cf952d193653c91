//! The decisions of downloading a model from a pinned HuggingFace revision:
//! what is fetched from where, the byte limits that bound every transfer
//! regardless of the size the server reports, and the error messages. The
//! HTTP transfers and file writes are performed by the caller.
use vstd::prelude::*;
use vstd::utf8::{decode_utf8, valid_utf8};

use crate::error::SttError;
use crate::registry::{find_model_entry, lookup, download_bound, max_download_bytes, ModelEntry};
use crate::slot::{unknown_model_error, unknown_model_text};
use crate::text::{decimal, push_decimal};

verus! {

/// Upper bound for an auxiliary config/vocab file (`tokenizer.json`,
/// `vocab.json`, `preprocessor_config.json`).
pub const AUX_FILE_MAX_BYTES: u64 = 16_000_000;

/// The URL of `filename` at revision `revision` of HuggingFace repo `repo`.
pub open spec fn hf_url(repo: Seq<char>, revision: Seq<char>, filename: Seq<char>) -> Seq<char> {
    "https://huggingface.co/"@ + repo + "/resolve/"@ + revision + "/"@ + filename
}

/// The URL of a file of a HuggingFace repo at a pinned revision.
pub fn hf_file_url(hf_repo: &str, revision: &str, filename: &str) -> (r: String)
    ensures
        r@ == hf_url(hf_repo@, revision@, filename@),
{
    let mut url = String::from_str("https://huggingface.co/");
    url.append(hf_repo);
    url.append("/resolve/");
    url.append(revision);
    url.append("/");
    url.append(filename);
    url
}

/// The message refusing a transfer whose announced size is over the limit.
pub open spec fn refused_size_text(filename: Seq<char>, total: u64, max: u64) -> Seq<char> {
    "Refusing to download "@ + filename + ": server-reported size "@ + decimal(total as nat)
        + " bytes exceeds the "@ + decimal(max as nat) + " byte limit"@
}

/// The message aborting a transfer that went over the limit.
pub open spec fn aborted_text(filename: Seq<char>, max: u64) -> Seq<char> {
    "Aborting download of "@ + filename + ": exceeded the "@ + decimal(max as nat) + " byte limit"@
}

/// The progress of one bounded transfer.
pub struct DownloadGuard {
    max_bytes: u64,
    total_bytes: u64,
    downloaded_bytes: u64,
}

/// The plain state of a transfer: limit, announced size, bytes received.
pub struct GuardView {
    pub max_bytes: u64,
    pub total_bytes: u64,
    pub downloaded_bytes: u64,
}

impl View for DownloadGuard {
    type V = GuardView;

    closed spec fn view(&self) -> GuardView {
        GuardView {
            max_bytes: self.max_bytes,
            total_bytes: self.total_bytes,
            downloaded_bytes: self.downloaded_bytes,
        }
    }
}

/// The size a server announced, 0 when it announced none.
pub open spec fn announced(content_length: Option<u64>) -> u64 {
    match content_length {
        Some(n) => n,
        None => 0,
    }
}

/// The state of a transfer that has just started.
pub open spec fn started(max_bytes: u64, total: u64) -> GuardView {
    GuardView { max_bytes, total_bytes: total, downloaded_bytes: 0 }
}

/// The state of a transfer once a chunk of `len` bytes has been received.
pub open spec fn after_chunk(g: GuardView, len: u64) -> GuardView {
    GuardView { downloaded_bytes: (g.downloaded_bytes + len) as u64, ..g }
}

impl DownloadGuard {
    #[verifier::type_invariant]
    spec fn within_limit(&self) -> bool {
        self.downloaded_bytes <= self.max_bytes && self.total_bytes <= self.max_bytes
    }

    /// Starts a transfer of `filename` limited to `max_bytes`, given the size
    /// the server announced (`None` counts as 0). An announced size over
    /// the limit is refused before anything is received.
    pub fn start(filename: &str, content_length: Option<u64>, max_bytes: u64) -> (r: Result<
        DownloadGuard,
        SttError,
    >)
        ensures
            announced(content_length) > max_bytes ==> (r matches Err(SttError::HttpRequest(m))
                && m@ == refused_size_text(filename@, announced(content_length), max_bytes)),
            announced(content_length) <= max_bytes ==> (r matches Ok(g) && g@ == started(
                max_bytes,
                announced(content_length),
            )),
    {
        let total = match content_length {
            Some(n) => n,
            None => 0,
        };
        if total > max_bytes {
            let mut m = String::from_str("Refusing to download ");
            m.append(filename);
            m.append(": server-reported size ");
            push_decimal(&mut m, total);
            m.append(" bytes exceeds the ");
            push_decimal(&mut m, max_bytes);
            m.append(" byte limit");
            return Err(SttError::HttpRequest(m));
        }
        Ok(DownloadGuard { max_bytes, total_bytes: total, downloaded_bytes: 0 })
    }

    /// Accounts for a received chunk of `len` bytes. A chunk that would take
    /// the transfer over its limit aborts it.
    pub fn accept_chunk(&mut self, filename: &str, len: u64) -> (r: Result<(), SttError>)
        ensures
            old(self)@.downloaded_bytes + len > old(self)@.max_bytes ==> (r matches Err(
                SttError::HttpRequest(m),
            ) && m@ == aborted_text(filename@, old(self)@.max_bytes)),
            old(self)@.downloaded_bytes + len <= old(self)@.max_bytes ==> r is Ok,
            r is Ok ==> final(self)@ == after_chunk(old(self)@, len),
            final(self)@.max_bytes == old(self)@.max_bytes,
            // The bytes received never exceed the limit.
            final(self)@.downloaded_bytes <= final(self)@.max_bytes,
    {
        proof {
            use_type_invariant(&*self);
        }
        if len > self.max_bytes - self.downloaded_bytes {
            let mut m = String::from_str("Aborting download of ");
            m.append(filename);
            m.append(": exceeded the ");
            push_decimal(&mut m, self.max_bytes);
            m.append(" byte limit");
            proof {
                use_type_invariant(&*self);
            }
            return Err(SttError::HttpRequest(m));
        }
        self.downloaded_bytes = self.downloaded_bytes + len;
        proof {
            use_type_invariant(&*self);
        }
        Ok(())
    }

    /// Bytes received so far.
    pub fn downloaded_bytes(&self) -> (r: u64)
        ensures
            r == self@.downloaded_bytes,
    {
        self.downloaded_bytes
    }

    /// The size the server announced (0 when it announced none).
    pub fn total_bytes(&self) -> (r: u64)
        ensures
            r == self@.total_bytes,
    {
        self.total_bytes
    }
}

/// The running total of a transfer after accepting `lens` in turn from
/// `start` bytes: `None` once a chunk would exceed `max`.
pub open spec fn accepted_total(start: int, lens: Seq<u64>, max: u64) -> Option<int>
    decreases lens.len(),
{
    if lens.len() == 0 {
        Some(start)
    } else {
        match accepted_total(start, lens.drop_last(), max) {
            Some(t) => if t + lens.last() > max {
                None
            } else {
                Some(t + lens.last())
            },
            None => None,
        }
    }
}

/// The sum of chunk lengths.
pub open spec fn total_len(lens: Seq<u64>) -> int
    decreases lens.len(),
{
    if lens.len() == 0 {
        0
    } else {
        total_len(lens.drop_last()) + lens.last()
    }
}

/// However the server splits a transfer into chunks, the chunks accepted
/// add up to at most the limit: a transfer runs to its end exactly when
/// the whole body fits within the limit.
pub proof fn lemma_transfer_bounded(lens: Seq<u64>, max: u64)
    ensures
        accepted_total(0, lens, max) matches Some(t) ==> t == total_len(lens) && t <= max,
        accepted_total(0, lens, max) is Some <==> total_len(lens) <= max,
    decreases lens.len(),
{
    if lens.len() > 0 {
        lemma_transfer_bounded(lens.drop_last(), max);
        lemma_total_len_monotone(lens);
    }
}

proof fn lemma_total_len_monotone(lens: Seq<u64>)
    requires
        lens.len() > 0,
    ensures
        total_len(lens.drop_last()) <= total_len(lens),
{
}

/// What is fetched for a model: its registry entry, the checkpoint's URL
/// and download bound, and the auxiliary tokenizer/config files with their
/// URLs, all at the entry's pinned revision.
pub struct DownloadPlan {
    pub entry: ModelEntry,
    pub checkpoint_url: String,
    pub max_bytes: u64,
    pub aux_files: Vec<&'static str>,
    pub aux_urls: Vec<String>,
}

/// The auxiliary files of a model: the tokenizer for Moonshine, the
/// vocabulary and preprocessor configuration for Whisper.
pub open spec fn aux_file_names(is_moonshine: bool) -> Seq<Seq<char>> {
    if is_moonshine {
        seq!["tokenizer.json"@]
    } else {
        seq!["vocab.json"@, "preprocessor_config.json"@]
    }
}

/// Plans the download of a model: an unknown id is refused before anything
/// is fetched; every file is fetched from the entry's repo at its pinned
/// revision, and the checkpoint is bounded by the entry's download bound.
pub fn plan_download(model_size: &str) -> (r: Result<DownloadPlan, SttError>)
    ensures
        lookup(model_size@) is None ==> (r matches Err(SttError::ModelNotFound(m)) && m@
            == unknown_model_text(model_size@)),
        lookup(model_size@) matches Some(e) ==> (r matches Ok(p) && p.entry == e && p.max_bytes
            == download_bound(e.safetensors_size) && p.max_bytes >= e.safetensors_size
            && p.checkpoint_url@ == hf_url(e.hf_repo@, e.revision@, "model.safetensors"@)
            && p.aux_files@.map_values(|f: &'static str| f@) == aux_file_names(e.is_moonshine)
            && p.aux_urls@.len() == p.aux_files@.len() && forall|k: int|
            0 <= k < p.aux_urls@.len() ==> #[trigger] p.aux_urls@[k]@ == hf_url(
                e.hf_repo@,
                e.revision@,
                p.aux_files@[k]@,
            )),
{
    let entry = match find_model_entry(model_size) {
        Some(e) => e,
        None => return Err(unknown_model_error(model_size)),
    };
    let max_bytes = max_download_bytes(&entry);
    let checkpoint_url = hf_file_url(entry.hf_repo, entry.revision, "model.safetensors");
    let mut aux_files: Vec<&'static str> = Vec::new();
    if entry.is_moonshine {
        aux_files.push("tokenizer.json");
    } else {
        aux_files.push("vocab.json");
        aux_files.push("preprocessor_config.json");
    }
    proof {
        assert(aux_files@.map_values(|f: &'static str| f@) =~= aux_file_names(entry.is_moonshine));
    }
    let mut aux_urls: Vec<String> = Vec::new();
    let mut k: usize = 0;
    while k < aux_files.len()
        invariant
            k <= aux_files@.len(),
            aux_urls@.len() == k,
            forall|j: int| 0 <= j < k ==> #[trigger] aux_urls@[j]@ == hf_url(
                entry.hf_repo@,
                entry.revision@,
                aux_files@[j]@,
            ),
        decreases aux_files@.len() - k,
    {
        aux_urls.push(hf_file_url(entry.hf_repo, entry.revision, aux_files[k]));
        k = k + 1;
    }
    Ok(DownloadPlan { entry, checkpoint_url, max_bytes, aux_files, aux_urls })
}

/// The text of `String::from_utf8`'s error for bytes that are not UTF-8.
pub uninterp spec fn utf8_error_text(bytes: Seq<u8>) -> Seq<char>;

/// `String::from_utf8`: the text of valid UTF-8 bytes, else the error's
/// message. Claimed: success exactly on valid UTF-8, with the decoded text;
/// the message is the named function `utf8_error_text` of the bytes.
#[verifier::external_body]
fn utf8_text(bytes: Vec<u8>) -> (r: Result<String, String>)
    ensures
        r is Ok <==> valid_utf8(bytes@),
        r matches Ok(s) ==> s@ == decode_utf8(bytes@),
        r matches Err(m) ==> m@ == utf8_error_text(bytes@),
{
    String::from_utf8(bytes).map_err(|e| e.to_string())
}

/// The text of a downloaded auxiliary file; bytes that are not UTF-8 are
/// refused with a message naming the file.
pub fn aux_file_text(filename: &str, bytes: Vec<u8>) -> (r: Result<String, SttError>)
    ensures
        valid_utf8(bytes@) ==> (r matches Ok(s) && s@ == decode_utf8(bytes@)),
        !valid_utf8(bytes@) ==> (r matches Err(SttError::HttpRequest(m)) && m@ == filename@
            + " is not valid UTF-8: "@ + utf8_error_text(bytes@)),
{
    match utf8_text(bytes) {
        Ok(s) => Ok(s),
        Err(e) => {
            let mut m = String::from_str(filename);
            m.append(" is not valid UTF-8: ");
            m.append(e.as_str());
            Err(SttError::HttpRequest(m))
        },
    }
}

} // verus!
