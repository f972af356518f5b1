//! Audio-reactive character-grid rendering: the signal-to-visual pipeline.
//!
//! Every scalar parameter is a [`fixed::Fixed`], a signed decimal number with
//! six fractional digits, so that each stage is exact integer arithmetic.

pub mod charset;
pub mod color;
pub mod config;
pub mod dither;
pub mod effects;
pub mod features;
pub mod fixed;
pub mod frame;
pub mod halfblock;
pub mod mapping;
pub mod mfcc;
pub mod pipeline;
pub mod smoothing;
pub mod source;
