//! Capability-oriented speech runtime: language metadata, profiles and
//! manifests, execution-provider selection, node configuration and the
//! decision logic of the audio pipeline.

pub mod asr;
pub mod audio;
pub mod choices;
pub mod gui;
pub mod ep;
pub mod languages;
pub mod mobile;
pub mod mt;
pub mod nodes;
pub mod paths;
pub mod pipeline;
pub mod profile;
pub mod slm;
pub mod text;
pub mod tts;
pub mod vad;
