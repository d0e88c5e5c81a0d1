//! Smoothed, frequency-limited magnitude spectra for real-time visualisation.
//!
//! The analyzer keeps one smoothed bin per positive frequency of its transform size and
//! folds every new spectrum into them. The numeric primitives (window, transform and the
//! per-bin blend) are handed in by the caller, so this crate states and proves the
//! orchestration: configuration checks, input checks, alignment of the fold and the
//! untouched state on every failure.
pub mod analyzer;
pub mod config;
pub mod error;
pub mod laws;
pub mod smoothing;

pub use analyzer::WasmSpectrumAnalyzer;
pub use error::AnalyzerError;
