//! Post-processing effects on a character grid, applied in a fixed order:
//! strobe, fade trails, glow, chromatic aberration, wave distortion, colour
//! pulse, temporal stability, scan lines.
//!
//! Each effect is a function of the grid before it (and, for the temporal
//! ones, of the previous frame's grid); an effect whose driving parameter is
//! below its threshold leaves the grid as it is.

pub mod cells;
pub mod chain;
pub mod chromatic;
pub mod glow;
pub mod pulse;
pub mod scanlines;
pub mod stability;
pub mod strobe;
pub mod trails;
pub mod wave;

pub use chain::apply_effects;
pub use chain::EffectParams;
pub use chain::EffectScratch;
pub use chromatic::apply_chromatic_aberration;
pub use glow::apply_glow;
pub use pulse::apply_color_pulse;
pub use scanlines::apply_scan_lines;
pub use stability::apply_temporal_stability;
pub use stability::char_density;
pub use stability::grid_set_ch;
pub use strobe::apply_strobe;
pub use trails::apply_fade_trails;
pub use wave::apply_wave_distortion;
