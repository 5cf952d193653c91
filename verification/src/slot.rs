//! Bookkeeping of which local model is held in memory, and the decisions
//! taken before a model is (re)loaded. Reading the file and building the
//! inference engine are done by the caller between these steps.
use vstd::prelude::*;

use crate::error::SttError;
use crate::registry::{lookup, model_path, path_joined};
use crate::text::str_eq;

verus! {

/// Which model, if any, is currently loaded in memory.
#[derive(Debug, Clone)]
pub struct ModelSlot {
    loaded: Option<String>,
}

impl View for ModelSlot {
    type V = Option<Seq<char>>;

    closed spec fn view(&self) -> Option<Seq<char>> {
        match self.loaded {
            Some(s) => Some(s@),
            None => None,
        }
    }
}

/// The message for a model id that is not in the registry.
pub open spec fn unknown_model_text(id: Seq<char>) -> Seq<char> {
    "Unknown model: "@ + id
}

/// The message for a known model whose file is not on disk.
pub open spec fn not_downloaded_text(id: Seq<char>) -> Seq<char> {
    "Model '"@ + id + "' not downloaded. Download it in Settings first."@
}

/// The error for a model id that is not in the registry.
pub fn unknown_model_error(model_id: &str) -> (r: SttError)
    ensures
        r matches SttError::ModelNotFound(m) && m@ == unknown_model_text(model_id@),
{
    let mut m = String::from_str("Unknown model: ");
    m.append(model_id);
    SttError::ModelNotFound(m)
}

/// The error for a known model whose `.apr` file has not been downloaded.
pub fn not_downloaded_error(model_id: &str) -> (r: SttError)
    ensures
        r matches SttError::ModelNotDownloaded(m) && m@ == not_downloaded_text(model_id@),
{
    let mut m = String::from_str("Model '");
    m.append(model_id);
    m.append("' not downloaded. Download it in Settings first.");
    SttError::ModelNotDownloaded(m)
}

/// Whether the file of a known model is on disk decides whether it can be
/// loaded: a missing file is reported as not downloaded.
pub fn require_downloaded(model_id: &str, file_exists: bool) -> (r: Result<(), SttError>)
    ensures
        file_exists <==> r is Ok,
        !file_exists ==> (r matches Err(SttError::ModelNotDownloaded(m)) && m@ == not_downloaded_text(
            model_id@,
        )),
{
    if file_exists {
        Ok(())
    } else {
        Err(not_downloaded_error(model_id))
    }
}

/// Whether a model is loaded ahead of its first use: exactly when its id is
/// in the registry and its file is on disk; otherwise preloading is skipped
/// without an error.
pub fn preload_wanted(model_id: &str, file_exists: bool) -> (r: bool)
    ensures
        r == (lookup(model_id@) is Some && file_exists),
{
    match crate::registry::find_model_entry(model_id) {
        Some(_) => file_exists,
        None => false,
    }
}

/// The message for a model file the engine cannot be built from.
pub open spec fn model_load_text(e: Seq<char>) -> Seq<char> {
    "Failed to load model: "@ + e
}

/// The error for a model file that the engine refused with `engine_error`.
pub fn model_load_error(engine_error: &str) -> (r: SttError)
    ensures
        r matches SttError::ModelLoad(m) && m@ == model_load_text(engine_error@),
{
    let mut m = String::from_str("Failed to load model: ");
    m.append(engine_error);
    SttError::ModelLoad(m)
}

impl ModelSlot {
    /// A slot with no model loaded.
    pub fn new() -> (r: ModelSlot)
        ensures
            r@ == None::<Seq<char>>,
    {
        ModelSlot { loaded: None }
    }

    /// Whether `model_id` is the model currently loaded.
    pub fn is_loaded(&self, model_id: &str) -> (r: bool)
        ensures
            r == (self@ == Some(model_id@)),
    {
        match &self.loaded {
            Some(s) => str_eq(s.as_str(), model_id),
            None => false,
        }
    }

    /// The step before loading `model_id`: `Ok(None)` when it is already the
    /// loaded model (nothing to do), an error for an unknown id, else the
    /// path of the file to load.
    pub fn plan_load(&self, models_dir: &std::path::Path, model_id: &str) -> (r: Result<
        Option<std::path::PathBuf>,
        SttError,
    >)
        ensures
            load_decision(self@, model_id@) == LoadDecision::AlreadyLoaded ==> r matches Ok(None),
            load_decision(self@, model_id@) == LoadDecision::Unknown ==> (r matches Err(
                SttError::ModelNotFound(m),
            ) && m@ == unknown_model_text(model_id@)),
            load_decision(self@, model_id@) == LoadDecision::Load ==> r == Ok::<
                Option<std::path::PathBuf>,
                SttError,
            >(Some(path_joined(models_dir, lookup(model_id@)->0.apr_filename@))),
    {
        if self.is_loaded(model_id) {
            return Ok(None);
        }
        match model_path(models_dir, model_id) {
            Some(p) => Ok(Some(p)),
            None => Err(unknown_model_error(model_id)),
        }
    }

    /// Records that `model_id` has been loaded.
    pub fn record_loaded(&mut self, model_id: &str)
        ensures
            final(self)@ == after_load(model_id@),
    {
        self.loaded = Some(String::from_str(model_id));
    }

    /// Forgets the loaded model if it is `model_id`; returns whether it did.
    /// A different (or no) loaded model is left as it is.
    pub fn unload_if_loaded(&mut self, model_id: &str) -> (r: bool)
        ensures
            r == (old(self)@ == Some(model_id@)),
            final(self)@ == after_unload(old(self)@, model_id@),
    {
        if self.is_loaded(model_id) {
            self.loaded = None;
            true
        } else {
            false
        }
    }
}

/// What loading a model amounts to, given the loaded model.
#[derive(Debug, Clone, Copy, PartialEq, Eq, Structural)]
pub enum LoadDecision {
    /// The model is already in memory.
    AlreadyLoaded,
    /// The id is not in the registry.
    Unknown,
    /// The model's file must be read and loaded.
    Load,
}

/// The decision for loading `id` while `state` is loaded.
pub open spec fn load_decision(state: Option<Seq<char>>, id: Seq<char>) -> LoadDecision {
    if state == Some(id) {
        LoadDecision::AlreadyLoaded
    } else if lookup(id) is None {
        LoadDecision::Unknown
    } else {
        LoadDecision::Load
    }
}

/// The loaded model after `id` has been loaded.
pub open spec fn after_load(id: Seq<char>) -> Option<Seq<char>> {
    Some(id)
}

/// The loaded model after unloading `id` while `state` is loaded.
pub open spec fn after_unload(state: Option<Seq<char>>, id: Seq<char>) -> Option<Seq<char>> {
    if state == Some(id) {
        None
    } else {
        state
    }
}

/// A loaded model is not loaded again, unloading it leaves nothing loaded,
/// and unloading any other id keeps it.
pub proof fn lemma_load_unload(id: Seq<char>, other: Seq<char>)
    requires
        other != id,
    ensures
        load_decision(after_load(id), id) == LoadDecision::AlreadyLoaded,
        after_unload(after_load(id), id) == None::<Seq<char>>,
        after_unload(after_load(id), other) == after_load(id),
        load_decision(after_unload(after_load(id), id), id) != LoadDecision::AlreadyLoaded,
{
}

} // verus!
