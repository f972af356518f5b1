//! The tunable render parameters and the rules that map audio onto them.

use vstd::prelude::*;
use crate::features::FeatureSource;
use crate::features::str_eq;
use crate::fixed::Fixed;

verus! {

/// How a rule shapes its source value before scaling.
#[derive(Clone, Copy, Debug, PartialEq, Eq, Structural)]
pub enum MappingCurve {
    /// The value itself.
    Linear,
    /// The square of the value.
    Exponential,
    /// Zero up to 0.3, then rescaled so that 1.0 stays 1.0.
    Threshold,
    /// `3x^2 - 2x^3`.
    Smooth,
}

/// The ordered-dithering matrix applied before quantisation.
#[derive(Clone, Copy, Debug, PartialEq, Eq, Structural)]
pub enum DitherMode {
    Bayer8x8,
    BlueNoise16,
    /// No dithering.
    Off,
}

/// The render parameters that a mapping rule can drive.
#[derive(Clone, Copy, Debug, PartialEq, Eq, Structural)]
pub enum MappingTarget {
    EdgeThreshold,
    EdgeMix,
    Contrast,
    Brightness,
    Saturation,
    DensityScale,
    Invert,
    BeatFlashIntensity,
    ChromaticOffset,
    WaveAmplitude,
    ColorPulseSpeed,
    FadeDecay,
    GlowIntensity,
    ZalgoIntensity,
    /// Any name that is not one of the above; rules aimed at it do nothing.
    Unknown,
}

impl MappingTarget {
    /// The parameter that a symbolic name selects.
    pub open spec fn from_name_spec(name: Seq<char>) -> MappingTarget {
        if name == "edge_threshold"@ {
            MappingTarget::EdgeThreshold
        } else if name == "edge_mix"@ {
            MappingTarget::EdgeMix
        } else if name == "contrast"@ {
            MappingTarget::Contrast
        } else if name == "brightness"@ {
            MappingTarget::Brightness
        } else if name == "saturation"@ {
            MappingTarget::Saturation
        } else if name == "density_scale"@ {
            MappingTarget::DensityScale
        } else if name == "invert"@ {
            MappingTarget::Invert
        } else if name == "beat_flash_intensity"@ {
            MappingTarget::BeatFlashIntensity
        } else if name == "chromatic_offset"@ {
            MappingTarget::ChromaticOffset
        } else if name == "wave_amplitude"@ {
            MappingTarget::WaveAmplitude
        } else if name == "color_pulse_speed"@ {
            MappingTarget::ColorPulseSpeed
        } else if name == "fade_decay"@ {
            MappingTarget::FadeDecay
        } else if name == "glow_intensity"@ {
            MappingTarget::GlowIntensity
        } else if name == "zalgo_intensity"@ {
            MappingTarget::ZalgoIntensity
        } else {
            MappingTarget::Unknown
        }
    }

    /// Resolves a symbolic parameter name; every other name is `Unknown`.
    pub fn from_name(name: &str) -> (t: MappingTarget)
        ensures
            t == MappingTarget::from_name_spec(name@),
    {
        if str_eq(name, "edge_threshold") {
            MappingTarget::EdgeThreshold
        } else if str_eq(name, "edge_mix") {
            MappingTarget::EdgeMix
        } else if str_eq(name, "contrast") {
            MappingTarget::Contrast
        } else if str_eq(name, "brightness") {
            MappingTarget::Brightness
        } else if str_eq(name, "saturation") {
            MappingTarget::Saturation
        } else if str_eq(name, "density_scale") {
            MappingTarget::DensityScale
        } else if str_eq(name, "invert") {
            MappingTarget::Invert
        } else if str_eq(name, "beat_flash_intensity") {
            MappingTarget::BeatFlashIntensity
        } else if str_eq(name, "chromatic_offset") {
            MappingTarget::ChromaticOffset
        } else if str_eq(name, "wave_amplitude") {
            MappingTarget::WaveAmplitude
        } else if str_eq(name, "color_pulse_speed") {
            MappingTarget::ColorPulseSpeed
        } else if str_eq(name, "fade_decay") {
            MappingTarget::FadeDecay
        } else if str_eq(name, "glow_intensity") {
            MappingTarget::GlowIntensity
        } else if str_eq(name, "zalgo_intensity") {
            MappingTarget::ZalgoIntensity
        } else {
            MappingTarget::Unknown
        }
    }

    /// Whether the target is a number with a clamp range, as opposed to the
    /// invert toggle or an unknown name.
    pub open spec fn is_numeric(self) -> bool {
        self != MappingTarget::Invert && self != MappingTarget::Unknown
    }

    /// The lower end, in millionths, of the range a numeric target is
    /// clamped to.
    pub open spec fn range_min(self) -> int {
        match self {
            MappingTarget::Contrast => 100_000,
            MappingTarget::Brightness => -1_000_000,
            MappingTarget::DensityScale => 250_000,
            _ => 0,
        }
    }

    /// The upper end, in millionths, of the range a numeric target is
    /// clamped to.
    pub open spec fn range_max(self) -> int {
        match self {
            MappingTarget::EdgeThreshold => 1_000_000,
            MappingTarget::EdgeMix => 1_000_000,
            MappingTarget::Contrast => 3_000_000,
            MappingTarget::Brightness => 1_000_000,
            MappingTarget::Saturation => 3_000_000,
            MappingTarget::DensityScale => 4_000_000,
            MappingTarget::BeatFlashIntensity => 2_000_000,
            MappingTarget::ChromaticOffset => 5_000_000,
            MappingTarget::WaveAmplitude => 1_000_000,
            MappingTarget::ColorPulseSpeed => 5_000_000,
            MappingTarget::FadeDecay => 1_000_000,
            MappingTarget::GlowIntensity => 2_000_000,
            MappingTarget::ZalgoIntensity => 1_000_000,
            MappingTarget::Invert => 0,
            MappingTarget::Unknown => 0,
        }
    }

    /// The clamp range of a target, as `(min, max)`.
    pub fn range(self) -> (r: (Fixed, Fixed))
        ensures
            r.0.raw == self.range_min(),
            r.1.raw == self.range_max(),
    {
        let lo: i64 = match self {
            MappingTarget::Contrast => 100_000,
            MappingTarget::Brightness => -1_000_000,
            MappingTarget::DensityScale => 250_000,
            _ => 0,
        };
        let hi: i64 = match self {
            MappingTarget::EdgeThreshold => 1_000_000,
            MappingTarget::EdgeMix => 1_000_000,
            MappingTarget::Contrast => 3_000_000,
            MappingTarget::Brightness => 1_000_000,
            MappingTarget::Saturation => 3_000_000,
            MappingTarget::DensityScale => 4_000_000,
            MappingTarget::BeatFlashIntensity => 2_000_000,
            MappingTarget::ChromaticOffset => 5_000_000,
            MappingTarget::WaveAmplitude => 1_000_000,
            MappingTarget::ColorPulseSpeed => 5_000_000,
            MappingTarget::FadeDecay => 1_000_000,
            MappingTarget::GlowIntensity => 2_000_000,
            MappingTarget::ZalgoIntensity => 1_000_000,
            MappingTarget::Invert => 0,
            MappingTarget::Unknown => 0,
        };
        (Fixed { raw: lo }, Fixed { raw: hi })
    }
}

/// One rule of the mapping engine: source feature, response curve, gain,
/// offset and target parameter.
#[derive(Clone, Copy, Debug)]
pub struct AudioMapping {
    pub enabled: bool,
    pub source: FeatureSource,
    pub target: MappingTarget,
    pub amount: Fixed,
    pub offset: Fixed,
    pub curve: MappingCurve,
    /// Smoothing coefficient of this rule; the global one applies when absent.
    pub smoothing: Option<Fixed>,
}

/// The full set of render parameters.
#[derive(Clone, Debug)]
pub struct RenderConfig {
    pub edge_threshold: Fixed,
    pub edge_mix: Fixed,
    pub contrast: Fixed,
    pub brightness: Fixed,
    pub saturation: Fixed,
    pub density_scale: Fixed,
    pub invert: bool,
    pub beat_flash_intensity: Fixed,
    pub chromatic_offset: Fixed,
    pub wave_amplitude: Fixed,
    pub color_pulse_speed: Fixed,
    pub fade_decay: Fixed,
    pub glow_intensity: Fixed,
    pub zalgo_intensity: Fixed,
    pub target_fps: u32,
    pub audio_sensitivity: Fixed,
    pub audio_smoothing: Fixed,
    pub dither_mode: DitherMode,
    pub charset: String,
    pub audio_mappings: Vec<AudioMapping>,
}

impl RenderConfig {
    /// The current value of a numeric target; zero for the others.
    pub open spec fn target_value_spec(&self, target: MappingTarget) -> Fixed {
        match target {
            MappingTarget::EdgeThreshold => self.edge_threshold,
            MappingTarget::EdgeMix => self.edge_mix,
            MappingTarget::Contrast => self.contrast,
            MappingTarget::Brightness => self.brightness,
            MappingTarget::Saturation => self.saturation,
            MappingTarget::DensityScale => self.density_scale,
            MappingTarget::BeatFlashIntensity => self.beat_flash_intensity,
            MappingTarget::ChromaticOffset => self.chromatic_offset,
            MappingTarget::WaveAmplitude => self.wave_amplitude,
            MappingTarget::ColorPulseSpeed => self.color_pulse_speed,
            MappingTarget::FadeDecay => self.fade_decay,
            MappingTarget::GlowIntensity => self.glow_intensity,
            MappingTarget::ZalgoIntensity => self.zalgo_intensity,
            MappingTarget::Invert => Fixed { raw: 0 },
            MappingTarget::Unknown => Fixed { raw: 0 },
        }
    }

    /// The configuration with one numeric target replaced; unchanged for the
    /// other targets.
    pub open spec fn with_target_spec(self, target: MappingTarget, v: Fixed) -> RenderConfig {
        match target {
            MappingTarget::EdgeThreshold => RenderConfig { edge_threshold: v, ..self },
            MappingTarget::EdgeMix => RenderConfig { edge_mix: v, ..self },
            MappingTarget::Contrast => RenderConfig { contrast: v, ..self },
            MappingTarget::Brightness => RenderConfig { brightness: v, ..self },
            MappingTarget::Saturation => RenderConfig { saturation: v, ..self },
            MappingTarget::DensityScale => RenderConfig { density_scale: v, ..self },
            MappingTarget::BeatFlashIntensity => RenderConfig { beat_flash_intensity: v, ..self },
            MappingTarget::ChromaticOffset => RenderConfig { chromatic_offset: v, ..self },
            MappingTarget::WaveAmplitude => RenderConfig { wave_amplitude: v, ..self },
            MappingTarget::ColorPulseSpeed => RenderConfig { color_pulse_speed: v, ..self },
            MappingTarget::FadeDecay => RenderConfig { fade_decay: v, ..self },
            MappingTarget::GlowIntensity => RenderConfig { glow_intensity: v, ..self },
            MappingTarget::ZalgoIntensity => RenderConfig { zalgo_intensity: v, ..self },
            MappingTarget::Invert => self,
            MappingTarget::Unknown => self,
        }
    }

    pub fn target_value(&self, target: MappingTarget) -> (v: Fixed)
        ensures
            v == self.target_value_spec(target),
    {
        match target {
            MappingTarget::EdgeThreshold => self.edge_threshold,
            MappingTarget::EdgeMix => self.edge_mix,
            MappingTarget::Contrast => self.contrast,
            MappingTarget::Brightness => self.brightness,
            MappingTarget::Saturation => self.saturation,
            MappingTarget::DensityScale => self.density_scale,
            MappingTarget::BeatFlashIntensity => self.beat_flash_intensity,
            MappingTarget::ChromaticOffset => self.chromatic_offset,
            MappingTarget::WaveAmplitude => self.wave_amplitude,
            MappingTarget::ColorPulseSpeed => self.color_pulse_speed,
            MappingTarget::FadeDecay => self.fade_decay,
            MappingTarget::GlowIntensity => self.glow_intensity,
            MappingTarget::ZalgoIntensity => self.zalgo_intensity,
            MappingTarget::Invert => Fixed::zero(),
            MappingTarget::Unknown => Fixed::zero(),
        }
    }

    pub fn set_target_value(&mut self, target: MappingTarget, v: Fixed)
        ensures
            *final(self) == old(self).with_target_spec(target, v),
    {
        match target {
            MappingTarget::EdgeThreshold => {
                self.edge_threshold = v;
            },
            MappingTarget::EdgeMix => {
                self.edge_mix = v;
            },
            MappingTarget::Contrast => {
                self.contrast = v;
            },
            MappingTarget::Brightness => {
                self.brightness = v;
            },
            MappingTarget::Saturation => {
                self.saturation = v;
            },
            MappingTarget::DensityScale => {
                self.density_scale = v;
            },
            MappingTarget::BeatFlashIntensity => {
                self.beat_flash_intensity = v;
            },
            MappingTarget::ChromaticOffset => {
                self.chromatic_offset = v;
            },
            MappingTarget::WaveAmplitude => {
                self.wave_amplitude = v;
            },
            MappingTarget::ColorPulseSpeed => {
                self.color_pulse_speed = v;
            },
            MappingTarget::FadeDecay => {
                self.fade_decay = v;
            },
            MappingTarget::GlowIntensity => {
                self.glow_intensity = v;
            },
            MappingTarget::ZalgoIntensity => {
                self.zalgo_intensity = v;
            },
            MappingTarget::Invert => {},
            MappingTarget::Unknown => {},
        }
    }
}

impl AudioMapping {
    /// An enabled linear rule from `source` to `target` with the given
    /// gain, no offset and the global smoothing.
    pub fn new(source: FeatureSource, target: MappingTarget, amount: Fixed) -> (rule: AudioMapping)
        ensures
            rule == (AudioMapping {
                enabled: true,
                source,
                target,
                amount,
                offset: Fixed { raw: 0 },
                curve: MappingCurve::Linear,
                smoothing: None,
            }),
    {
        AudioMapping {
            enabled: true,
            source,
            target,
            amount,
            offset: Fixed { raw: 0 },
            curve: MappingCurve::Linear,
            smoothing: None,
        }
    }
}

impl Default for RenderConfig {
    /// Neutral image parameters, every effect at rest, thirty frames a
    /// second, the standard character set and no mapping rule.
    fn default() -> (c: RenderConfig)
        ensures
            c.edge_threshold.raw == 300_000,
            c.edge_mix.raw == 500_000,
            c.contrast.raw == 1_000_000,
            c.brightness.raw == 0,
            c.saturation.raw == 1_000_000,
            c.density_scale.raw == 1_000_000,
            !c.invert,
            c.beat_flash_intensity.raw == 0,
            c.chromatic_offset.raw == 0,
            c.wave_amplitude.raw == 0,
            c.color_pulse_speed.raw == 0,
            c.fade_decay.raw == 0,
            c.glow_intensity.raw == 0,
            c.zalgo_intensity.raw == 0,
            c.target_fps == 30,
            c.audio_sensitivity.raw == 1_000_000,
            c.audio_smoothing.raw == 300_000,
            c.dither_mode == DitherMode::Off,
            c.charset@ == crate::charset::CHARSET_STANDARD@,
            c.audio_mappings@.len() == 0,
    {
        RenderConfig {
            edge_threshold: Fixed { raw: 300_000 },
            edge_mix: Fixed { raw: 500_000 },
            contrast: Fixed { raw: 1_000_000 },
            brightness: Fixed { raw: 0 },
            saturation: Fixed { raw: 1_000_000 },
            density_scale: Fixed { raw: 1_000_000 },
            invert: false,
            beat_flash_intensity: Fixed { raw: 0 },
            chromatic_offset: Fixed { raw: 0 },
            wave_amplitude: Fixed { raw: 0 },
            color_pulse_speed: Fixed { raw: 0 },
            fade_decay: Fixed { raw: 0 },
            glow_intensity: Fixed { raw: 0 },
            zalgo_intensity: Fixed { raw: 0 },
            target_fps: 30,
            audio_sensitivity: Fixed { raw: 1_000_000 },
            audio_smoothing: Fixed { raw: 300_000 },
            dither_mode: DitherMode::Off,
            charset: crate::charset::CHARSET_STANDARD.to_owned(),
            audio_mappings: Vec::new(),
        }
    }
}

} // verus!
