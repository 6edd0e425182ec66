//! Text-to-tensor preparation and model residency for a Japanese speech synthesiser.
//!
//! The crate turns analysed text into the sequences a synthesis network consumes,
//! resolves style vectors, keeps a bounded registry of resident voice models and
//! frames synthesised samples as a WAVE file.

pub mod align;
pub mod audio;
pub mod cache;
pub mod catalog;
pub mod error;
pub mod mora;
pub mod norm;
pub mod style;
pub mod tts_util;
pub mod utils;
pub mod wav;
