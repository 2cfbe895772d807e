//! Playback core of a desktop soundboard: a registry that binds numbered
//! slots to audio files, and the decisions that turn what the host
//! observed on disk and on the audio device into results and messages.

pub mod commands;
pub mod laws;
pub mod registry;
pub mod report;
pub mod sound;
pub mod text;
