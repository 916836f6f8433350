//! Core of a screen/audio recording session orchestrator.
//!
//! The library owns the logic of a recording session: resolving the output
//! path, deriving the temporary artifact names, building the encoder command
//! lines, and planning the ordered stop/merge/convert pipeline. Process
//! spawning, signalling, the compositor IPC call and all filesystem actions
//! are carried out by the embedding program, which executes the plans this
//! library produces and reports the outcomes back.

pub mod clock;
pub mod commands;
pub mod config;
pub mod effects;
pub mod errors;
pub mod laws;
pub mod paths;
pub mod session;
pub mod text;
