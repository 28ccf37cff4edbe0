//! Decoders for the fixed-layout music-pattern and sound-effect sections of a
//! PICO-8 cartridge ROM, and a translation engine that maps the decoded
//! patterns and sound effects onto WASM-4 tone-call parameters.
//!
//! Raw bytes flow one way: a byte span read from the cartridge is decoded into
//! typed section structures, and the translation engine maps each decoded
//! record into a platform-feasible record or a discrete skip reason, never
//! aborting the surrounding batch.

pub mod music;
pub mod rom;
pub mod sfx;
pub mod translate;
