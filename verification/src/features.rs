//! The audio feature vector handed from analysis to smoothing and mapping.

use vstd::prelude::*;
use crate::fixed::Fixed;
use crate::fixed::trunc_div;

verus! {

/// The tempo, in beats per minute, that maps to a source value of 1.0.
pub const BPM_FULL_SCALE: i64 = 200;

/// One analysis frame of audio features.
#[derive(Clone, Copy, Debug)]
pub struct AudioFeatures {
    pub rms: Fixed,
    pub peak: Fixed,
    pub sub_bass: Fixed,
    pub bass: Fixed,
    pub low_mid: Fixed,
    pub mid: Fixed,
    pub high_mid: Fixed,
    pub presence: Fixed,
    pub brilliance: Fixed,
    pub spectral_centroid: Fixed,
    pub spectral_flux: Fixed,
    pub spectral_flatness: Fixed,
    pub spectral_rolloff: Fixed,
    pub zero_crossing_rate: Fixed,
    pub bpm: Fixed,
    pub beat_intensity: Fixed,
    pub beat_phase: Fixed,
    pub onset: bool,
    pub timbral_brightness: Fixed,
    pub timbral_roughness: Fixed,
    pub onset_envelope: Fixed,
    pub spectrum_bands: [Fixed; 32],
}

/// The features that a mapping rule can read.
#[derive(Clone, Copy, Debug, PartialEq, Eq, Structural)]
pub enum FeatureSource {
    Rms,
    Peak,
    SubBass,
    Bass,
    LowMid,
    Mid,
    HighMid,
    Presence,
    Brilliance,
    SpectralCentroid,
    SpectralFlux,
    SpectralFlatness,
    BeatIntensity,
    Onset,
    BeatPhase,
    Bpm,
    TimbralBrightness,
    TimbralRoughness,
    OnsetEnvelope,
    /// Any name that is not one of the above; it reads as zero.
    Unknown,
}

/// Whether two strings hold the same characters.
pub(crate) fn str_eq(a: &str, b: &str) -> (r: bool)
    ensures
        r == (a@ == b@),
{
    a.to_owned() == b.to_owned()
}

impl FeatureSource {
    /// The feature that a symbolic name selects.
    pub open spec fn from_name_spec(name: Seq<char>) -> FeatureSource {
        if name == "rms"@ {
            FeatureSource::Rms
        } else if name == "peak"@ {
            FeatureSource::Peak
        } else if name == "sub_bass"@ {
            FeatureSource::SubBass
        } else if name == "bass"@ {
            FeatureSource::Bass
        } else if name == "low_mid"@ {
            FeatureSource::LowMid
        } else if name == "mid"@ {
            FeatureSource::Mid
        } else if name == "high_mid"@ {
            FeatureSource::HighMid
        } else if name == "presence"@ {
            FeatureSource::Presence
        } else if name == "brilliance"@ {
            FeatureSource::Brilliance
        } else if name == "spectral_centroid"@ {
            FeatureSource::SpectralCentroid
        } else if name == "spectral_flux"@ {
            FeatureSource::SpectralFlux
        } else if name == "spectral_flatness"@ {
            FeatureSource::SpectralFlatness
        } else if name == "beat_intensity"@ {
            FeatureSource::BeatIntensity
        } else if name == "onset"@ {
            FeatureSource::Onset
        } else if name == "beat_phase"@ {
            FeatureSource::BeatPhase
        } else if name == "bpm"@ {
            FeatureSource::Bpm
        } else if name == "timbral_brightness"@ {
            FeatureSource::TimbralBrightness
        } else if name == "timbral_roughness"@ {
            FeatureSource::TimbralRoughness
        } else if name == "onset_envelope"@ {
            FeatureSource::OnsetEnvelope
        } else {
            FeatureSource::Unknown
        }
    }

    /// Resolves a symbolic feature name; every other name is `Unknown`.
    pub fn from_name(name: &str) -> (s: FeatureSource)
        ensures
            s == FeatureSource::from_name_spec(name@),
    {
        if str_eq(name, "rms") {
            FeatureSource::Rms
        } else if str_eq(name, "peak") {
            FeatureSource::Peak
        } else if str_eq(name, "sub_bass") {
            FeatureSource::SubBass
        } else if str_eq(name, "bass") {
            FeatureSource::Bass
        } else if str_eq(name, "low_mid") {
            FeatureSource::LowMid
        } else if str_eq(name, "mid") {
            FeatureSource::Mid
        } else if str_eq(name, "high_mid") {
            FeatureSource::HighMid
        } else if str_eq(name, "presence") {
            FeatureSource::Presence
        } else if str_eq(name, "brilliance") {
            FeatureSource::Brilliance
        } else if str_eq(name, "spectral_centroid") {
            FeatureSource::SpectralCentroid
        } else if str_eq(name, "spectral_flux") {
            FeatureSource::SpectralFlux
        } else if str_eq(name, "spectral_flatness") {
            FeatureSource::SpectralFlatness
        } else if str_eq(name, "beat_intensity") {
            FeatureSource::BeatIntensity
        } else if str_eq(name, "onset") {
            FeatureSource::Onset
        } else if str_eq(name, "beat_phase") {
            FeatureSource::BeatPhase
        } else if str_eq(name, "bpm") {
            FeatureSource::Bpm
        } else if str_eq(name, "timbral_brightness") {
            FeatureSource::TimbralBrightness
        } else if str_eq(name, "timbral_roughness") {
            FeatureSource::TimbralRoughness
        } else if str_eq(name, "onset_envelope") {
            FeatureSource::OnsetEnvelope
        } else {
            FeatureSource::Unknown
        }
    }
}

impl AudioFeatures {
    /// The scalar that a mapping rule reads from `source`. The onset flag
    /// reads as 0 or 1, the tempo as a fraction of 200 beats per minute, the
    /// onset envelope is the caller's synthetic signal, and an unknown source
    /// reads as zero.
    pub open spec fn source_value_spec(
        &self,
        source: FeatureSource,
        onset_envelope: Fixed,
    ) -> Fixed {
        match source {
            FeatureSource::Rms => self.rms,
            FeatureSource::Peak => self.peak,
            FeatureSource::SubBass => self.sub_bass,
            FeatureSource::Bass => self.bass,
            FeatureSource::LowMid => self.low_mid,
            FeatureSource::Mid => self.mid,
            FeatureSource::HighMid => self.high_mid,
            FeatureSource::Presence => self.presence,
            FeatureSource::Brilliance => self.brilliance,
            FeatureSource::SpectralCentroid => self.spectral_centroid,
            FeatureSource::SpectralFlux => self.spectral_flux,
            FeatureSource::SpectralFlatness => self.spectral_flatness,
            FeatureSource::BeatIntensity => self.beat_intensity,
            FeatureSource::Onset => Fixed {
                raw: if self.onset {
                    1_000_000i64
                } else {
                    0i64
                },
            },
            FeatureSource::BeatPhase => self.beat_phase,
            FeatureSource::Bpm => Fixed {
                raw: trunc_div(self.bpm.raw as int, BPM_FULL_SCALE as int) as i64,
            },
            FeatureSource::TimbralBrightness => self.timbral_brightness,
            FeatureSource::TimbralRoughness => self.timbral_roughness,
            FeatureSource::OnsetEnvelope => onset_envelope,
            FeatureSource::Unknown => Fixed { raw: 0 },
        }
    }

    pub fn source_value(&self, source: FeatureSource, onset_envelope: Fixed) -> (v: Fixed)
        ensures
            v == self.source_value_spec(source, onset_envelope),
    {
        match source {
            FeatureSource::Rms => self.rms,
            FeatureSource::Peak => self.peak,
            FeatureSource::SubBass => self.sub_bass,
            FeatureSource::Bass => self.bass,
            FeatureSource::LowMid => self.low_mid,
            FeatureSource::Mid => self.mid,
            FeatureSource::HighMid => self.high_mid,
            FeatureSource::Presence => self.presence,
            FeatureSource::Brilliance => self.brilliance,
            FeatureSource::SpectralCentroid => self.spectral_centroid,
            FeatureSource::SpectralFlux => self.spectral_flux,
            FeatureSource::SpectralFlatness => self.spectral_flatness,
            FeatureSource::BeatIntensity => self.beat_intensity,
            FeatureSource::Onset => if self.onset {
                Fixed::one()
            } else {
                Fixed::zero()
            },
            FeatureSource::BeatPhase => self.beat_phase,
            FeatureSource::Bpm => Fixed { raw: self.bpm.raw / BPM_FULL_SCALE },
            FeatureSource::TimbralBrightness => self.timbral_brightness,
            FeatureSource::TimbralRoughness => self.timbral_roughness,
            FeatureSource::OnsetEnvelope => onset_envelope,
            FeatureSource::Unknown => Fixed::zero(),
        }
    }

    /// Every scalar is zero and the onset flag is clear.
    pub open spec fn is_silent(&self) -> bool {
        &&& self.rms.raw == 0
        &&& self.peak.raw == 0
        &&& self.sub_bass.raw == 0
        &&& self.bass.raw == 0
        &&& self.low_mid.raw == 0
        &&& self.mid.raw == 0
        &&& self.high_mid.raw == 0
        &&& self.presence.raw == 0
        &&& self.brilliance.raw == 0
        &&& self.spectral_centroid.raw == 0
        &&& self.spectral_flux.raw == 0
        &&& self.spectral_flatness.raw == 0
        &&& self.spectral_rolloff.raw == 0
        &&& self.zero_crossing_rate.raw == 0
        &&& self.bpm.raw == 0
        &&& self.beat_intensity.raw == 0
        &&& self.beat_phase.raw == 0
        &&& !self.onset
        &&& self.timbral_brightness.raw == 0
        &&& self.timbral_roughness.raw == 0
        &&& self.onset_envelope.raw == 0
        &&& forall|i: int| 0 <= i < 32 ==> (#[trigger] self.spectrum_bands@[i]).raw == 0
    }
}

impl Default for AudioFeatures {
    /// Silence: every feature zero.
    fn default() -> (f: AudioFeatures)
        ensures
            f.is_silent(),
    {
        let z = Fixed::zero();
        let bands: [Fixed; 32] = [z; 32];
        assert(bands == vstd::array::spec_array_fill_for_copy_type::<Fixed, 32>(z));
        AudioFeatures {
            rms: z,
            peak: z,
            sub_bass: z,
            bass: z,
            low_mid: z,
            mid: z,
            high_mid: z,
            presence: z,
            brilliance: z,
            spectral_centroid: z,
            spectral_flux: z,
            spectral_flatness: z,
            spectral_rolloff: z,
            zero_crossing_rate: z,
            bpm: z,
            beat_intensity: z,
            beat_phase: z,
            onset: false,
            timbral_brightness: z,
            timbral_roughness: z,
            onset_envelope: z,
            spectrum_bands: bands,
        }
    }
}

} // verus!
