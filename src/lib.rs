//! Handle-level logic of a soundfont synthesizer: output configuration,
//! note-event validation and render buffer sizing. Each operation decides
//! which single call the synthesis engine is to receive; the engine itself
//! is driven by the caller.

pub mod error;
pub mod handle;
pub mod params;

pub use error::TsfError;
pub use handle::{EngineCall, Tsf, TsfView};
pub use params::OutputMode;
