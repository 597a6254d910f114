//! Audio-signal primitives for a real-time callback: a sliding window over the most
//! recent samples of a stream, a phase-continuous tone renderer, and the interleaving
//! of two mono streams.
//!
//! All of them are generic over the sample representation. Whatever computes with samples,
//! be it the value of a tone at a phase, the sum of two samples or the loudness of a
//! window, is handed in by the caller. The library decides which samples are kept,
//! when a window can be measured, which slots of a buffer are written and how the
//! phase advances.

pub mod config;
pub mod span;
pub mod stereo;
pub mod tone;
pub mod window;

pub use config::{ConfigError, TonePlayerConfig, TonePlayerConfigBuilder};
pub use tone::TonePlayer;
