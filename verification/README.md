# stt_core

Speech-to-text logic for Rust apps: cloud transcription through ElevenLabs and
local, offline transcription of Whisper/Moonshine models through `whisper-apr`.
The decisions of the library are written in Verus and proved against their
contracts; the I/O around them is ordinary Rust.

## Layout

- `src/` — the verified library.
  - `types.rs`: audio formats, configuration, provider routing.
  - `error.rs`: the error type and its messages.
  - `elevenlabs.rs`: what a cloud request sends and what a response body yields.
  - `registry.rs`: the registry of local models, lookups, download bounds,
    architecture configurations, model file paths.
  - `download.rs`: download plans at pinned revisions and the byte-limit guard
    of every transfer.
  - `slot.rs`: which model is loaded, and the steps before (re)loading one.
  - `local.rs`: the checks around a local transcription.
  - `live.rs`: the commit policy of incremental live transcription.
  - `convert.rs`: half-precision and bfloat16 conversion, tensor payloads,
    the GPT-2 byte decoder.
  - `vocab.rs`: the Whisper and Moonshine vocabularies embedded in models.
  - `tensors.rs`: which checkpoint tensors are written under which names.
  - `metadata.rs`: the metadata of a converted model.
  - `text.rs`: string helpers with exact contracts.
- `app/` — the HTTP transfers, WAV decoding, resampling, inference and model
  writing, which work on the network, the disk or floating-point samples.
- `tests/` — tests of the library on concrete values.
