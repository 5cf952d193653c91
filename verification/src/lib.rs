//! Framework-agnostic speech-to-text logic: request routing, the model
//! registry, the live-transcription commit policy, tensor and vocabulary
//! conversion for local models, and the bookkeeping around downloads and
//! cloud requests.

pub mod convert;
pub mod download;
pub mod elevenlabs;
pub mod error;
pub mod live;
pub mod local;
pub mod metadata;
pub mod registry;
pub mod slot;
pub mod tensors;
pub mod text;
pub mod types;
pub mod vocab;

pub use error::SttError;
pub use registry::{find_model_entry, model_path, ModelEntry, WhisperModelInfo};
pub use types::{route_provider, AudioFormat, Provider, SttConfig};
