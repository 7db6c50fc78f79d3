//! Normalisation of recorded audio into speech-recogniser input: mono,
//! 16 kHz, 16-bit signed PCM, long enough to transcribe and not silent.
//!
//! Samples are held as fixed-point integers (see [`sample`]), so every
//! decision the pipeline takes is exact and verified.

pub mod audio;
pub mod bridge;
pub mod container;
pub mod encoder;
pub mod error;
pub mod loader;
pub mod mixer;
pub mod pipeline;
pub mod records;
pub mod resampler;
pub mod sample;
pub mod sniffer;
pub mod validator;
