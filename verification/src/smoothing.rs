//! Attack/release smoothing of the audio feature vector.

use vstd::prelude::*;
use crate::features::AudioFeatures;
use crate::fixed::clamp_int;
use crate::fixed::lemma_blend_bounds;
use crate::fixed::Fixed;
use crate::fixed::SCALE;

verus! {

/// The smallest smoothing coefficient (0.01).
pub const MIN_COEFF: i64 = 10_000;

/// Coefficient scale of the low-frequency bands: slower (1.3).
pub const LOW_BAND_SCALE: i64 = 1_300_000;

/// Coefficient scale of the high-frequency and timbral features: faster (0.7).
pub const HIGH_BAND_SCALE: i64 = 700_000;

/// Coefficient scale of the percussive event intensities: fastest (0.5).
pub const EVENT_SCALE: i64 = 500_000;

/// The attack coefficient for a responsiveness `alpha`: `min(2a, 1)` with
/// `a` the value of `alpha` clamped to `[0.01, 1]`.
pub open spec fn attack_spec(alpha: Fixed) -> Fixed {
    let a = clamp_int(alpha.raw as int, MIN_COEFF as int, SCALE as int);
    Fixed {
        raw: if 2 * a < SCALE {
            (2 * a) as i64
        } else {
            SCALE
        },
    }
}

/// The release coefficient for a responsiveness `alpha`: `max(a / 2, 0.01)`
/// with `a` the value of `alpha` clamped to `[0.01, 1]`.
pub open spec fn release_spec(alpha: Fixed) -> Fixed {
    let a = clamp_int(alpha.raw as int, MIN_COEFF as int, SCALE as int);
    Fixed {
        raw: if a / 2 > MIN_COEFF {
            (a / 2) as i64
        } else {
            MIN_COEFF
        },
    }
}

/// The coefficient that applies to one value: attack while it rises, release
/// otherwise.
pub open spec fn base_coeff_spec(attack: Fixed, release: Fixed, current: Fixed, previous: Fixed)
    -> Fixed {
    if current.raw > previous.raw {
        attack
    } else {
        release
    }
}

/// One smoothed value: `coeff * current + (1 - coeff) * previous`.
pub open spec fn ar_spec(attack: Fixed, release: Fixed, current: Fixed, previous: Fixed)
    -> Fixed {
    Fixed::blend_spec(base_coeff_spec(attack, release, current, previous), current, previous)
}

/// One smoothed value whose coefficient is first multiplied by `scale` and
/// clamped to `[0.01, 1]`.
pub open spec fn ar_scaled_spec(
    attack: Fixed,
    release: Fixed,
    current: Fixed,
    previous: Fixed,
    scale: Fixed,
) -> Fixed {
    Fixed::blend_spec(
        base_coeff_spec(attack, release, current, previous).times_spec(scale).clamp_spec(
            Fixed { raw: MIN_COEFF },
            Fixed { raw: SCALE },
        ),
        current,
        previous,
    )
}

/// `out` is the smoothing of `cur` against the state `prev`: every scalar is
/// filtered with the scale of its category, the 32 spectrum bands with the
/// unscaled pair, and the onset flag and the beat phase are those of `cur`.
pub open spec fn is_smoothed(
    attack: Fixed,
    release: Fixed,
    cur: AudioFeatures,
    prev: AudioFeatures,
    out: AudioFeatures,
) -> bool {
    let low = Fixed { raw: LOW_BAND_SCALE };
    let high = Fixed { raw: HIGH_BAND_SCALE };
    let event = Fixed { raw: EVENT_SCALE };
    &&& out.rms == ar_spec(attack, release, cur.rms, prev.rms)
    &&& out.peak == ar_spec(attack, release, cur.peak, prev.peak)
    &&& out.sub_bass == ar_scaled_spec(attack, release, cur.sub_bass, prev.sub_bass, low)
    &&& out.bass == ar_scaled_spec(attack, release, cur.bass, prev.bass, low)
    &&& out.low_mid == ar_spec(attack, release, cur.low_mid, prev.low_mid)
    &&& out.mid == ar_spec(attack, release, cur.mid, prev.mid)
    &&& out.high_mid == ar_scaled_spec(attack, release, cur.high_mid, prev.high_mid, high)
    &&& out.presence == ar_scaled_spec(attack, release, cur.presence, prev.presence, high)
    &&& out.brilliance == ar_scaled_spec(attack, release, cur.brilliance, prev.brilliance, high)
    &&& out.spectral_centroid == ar_spec(
        attack,
        release,
        cur.spectral_centroid,
        prev.spectral_centroid,
    )
    &&& out.spectral_flux == ar_spec(attack, release, cur.spectral_flux, prev.spectral_flux)
    &&& out.spectral_flatness == ar_spec(
        attack,
        release,
        cur.spectral_flatness,
        prev.spectral_flatness,
    )
    &&& out.spectral_rolloff == ar_spec(
        attack,
        release,
        cur.spectral_rolloff,
        prev.spectral_rolloff,
    )
    &&& out.zero_crossing_rate == ar_scaled_spec(
        attack,
        release,
        cur.zero_crossing_rate,
        prev.zero_crossing_rate,
        high,
    )
    &&& out.bpm == ar_spec(attack, release, cur.bpm, prev.bpm)
    &&& out.beat_intensity == ar_scaled_spec(
        attack,
        release,
        cur.beat_intensity,
        prev.beat_intensity,
        event,
    )
    &&& out.timbral_brightness == ar_spec(
        attack,
        release,
        cur.timbral_brightness,
        prev.timbral_brightness,
    )
    &&& out.timbral_roughness == ar_spec(
        attack,
        release,
        cur.timbral_roughness,
        prev.timbral_roughness,
    )
    &&& out.onset_envelope == ar_scaled_spec(
        attack,
        release,
        cur.onset_envelope,
        prev.onset_envelope,
        event,
    )
    &&& out.onset == cur.onset
    &&& out.beat_phase == cur.beat_phase
    &&& forall|i: int|
        0 <= i < 32 ==> #[trigger] out.spectrum_bands@[i] == ar_spec(
            attack,
            release,
            cur.spectrum_bands@[i],
            prev.spectrum_bands@[i],
        )
}

/// Smooths successive feature vectors with a fast attack and a slow release.
#[derive(Clone, Copy, Debug)]
pub struct FeatureSmoother {
    attack: Fixed,
    release: Fixed,
    prev: AudioFeatures,
    initialized: bool,
}

impl FeatureSmoother {
    /// Both coefficients lie in `[0.01, 1]`.
    pub closed spec fn wf(&self) -> bool {
        &&& MIN_COEFF <= self.attack.raw <= SCALE
        &&& MIN_COEFF <= self.release.raw <= SCALE
    }

    /// The coefficient applied to a rising value.
    pub closed spec fn attack(&self) -> Fixed {
        self.attack
    }

    /// The coefficient applied to a falling or steady value.
    pub closed spec fn release(&self) -> Fixed {
        self.release
    }

    /// The last output; meaningful once `initialized`.
    pub closed spec fn previous(&self) -> AudioFeatures {
        self.prev
    }

    /// Whether a first vector has been seen.
    pub closed spec fn initialized(&self) -> bool {
        self.initialized
    }

    /// A smoother with responsiveness `alpha`, clamped to `[0.01, 1]`.
    pub fn new(alpha: Fixed) -> (s: FeatureSmoother)
        ensures
            s.wf(),
            !s.initialized(),
            s.previous().is_silent(),
            s.attack() == attack_spec(alpha),
            s.release() == release_spec(alpha),
    {
        let a: i64 = alpha.clamp(Fixed { raw: MIN_COEFF }, Fixed { raw: SCALE }).raw;
        let attack: i64 = if 2 * a < SCALE {
            2 * a
        } else {
            SCALE
        };
        let release: i64 = if a / 2 > MIN_COEFF {
            a / 2
        } else {
            MIN_COEFF
        };
        FeatureSmoother {
            attack: Fixed { raw: attack },
            release: Fixed { raw: release },
            prev: AudioFeatures::default(),
            initialized: false,
        }
    }

    /// Smooths one feature vector. The first vector passes unchanged and
    /// becomes the state; every later one is filtered against the previous
    /// output, which the new output then replaces.
    pub fn smooth(&mut self, current: &AudioFeatures) -> (out: AudioFeatures)
        requires
            old(self).wf(),
        ensures
            final(self).wf(),
            final(self).initialized(),
            final(self).attack() == old(self).attack(),
            final(self).release() == old(self).release(),
            final(self).previous() == out,
            !old(self).initialized() ==> out == *current,
            old(self).initialized() ==> is_smoothed(
                old(self).attack(),
                old(self).release(),
                *current,
                old(self).previous(),
                out,
            ),
            out.onset == current.onset,
            out.beat_phase == current.beat_phase,
    {
        if !self.initialized {
            self.prev = *current;
            self.initialized = true;
            return *current;
        }
        let low = Fixed { raw: LOW_BAND_SCALE };
        let high = Fixed { raw: HIGH_BAND_SCALE };
        let event = Fixed { raw: EVENT_SCALE };
        let prev: AudioFeatures = self.prev;

        let mut smoothed: AudioFeatures = *current;
        smoothed.rms = self.ar(current.rms, prev.rms);
        smoothed.peak = self.ar(current.peak, prev.peak);
        smoothed.sub_bass = self.ar_scaled(current.sub_bass, prev.sub_bass, low);
        smoothed.bass = self.ar_scaled(current.bass, prev.bass, low);
        smoothed.low_mid = self.ar(current.low_mid, prev.low_mid);
        smoothed.mid = self.ar(current.mid, prev.mid);
        smoothed.high_mid = self.ar_scaled(current.high_mid, prev.high_mid, high);
        smoothed.presence = self.ar_scaled(current.presence, prev.presence, high);
        smoothed.brilliance = self.ar_scaled(current.brilliance, prev.brilliance, high);
        smoothed.spectral_centroid = self.ar(current.spectral_centroid, prev.spectral_centroid);
        smoothed.spectral_flux = self.ar(current.spectral_flux, prev.spectral_flux);
        smoothed.spectral_flatness = self.ar(current.spectral_flatness, prev.spectral_flatness);
        smoothed.bpm = self.ar(current.bpm, prev.bpm);
        smoothed.beat_intensity = self.ar_scaled(
            current.beat_intensity,
            prev.beat_intensity,
            event,
        );
        smoothed.timbral_brightness = self.ar(current.timbral_brightness, prev.timbral_brightness);
        smoothed.timbral_roughness = self.ar(current.timbral_roughness, prev.timbral_roughness);
        smoothed.spectral_rolloff = self.ar(current.spectral_rolloff, prev.spectral_rolloff);
        smoothed.zero_crossing_rate = self.ar_scaled(
            current.zero_crossing_rate,
            prev.zero_crossing_rate,
            high,
        );
        smoothed.onset_envelope = self.ar_scaled(
            current.onset_envelope,
            prev.onset_envelope,
            event,
        );

        let ghost scalars = smoothed;
        let mut i: usize = 0;
        while i < 32
            invariant
                i <= 32,
                self.wf(),
                *self == *old(self),
                prev == self.prev,
                smoothed == (AudioFeatures { spectrum_bands: smoothed.spectrum_bands, ..scalars }),
                forall|j: int|
                    0 <= j < i ==> #[trigger] smoothed.spectrum_bands@[j] == ar_spec(
                        self.attack,
                        self.release,
                        current.spectrum_bands@[j],
                        prev.spectrum_bands@[j],
                    ),
            decreases 32 - i,
        {
            smoothed.spectrum_bands[i] = self.ar(current.spectrum_bands[i], prev.spectrum_bands[i]);
            i += 1;
        }

        self.prev = smoothed;
        smoothed
    }

    /// Attack/release smoothing of a single value.
    fn ar(&self, current: Fixed, previous: Fixed) -> (r: Fixed)
        requires
            self.wf(),
        ensures
            r == ar_spec(self.attack, self.release, current, previous),
    {
        let coeff = if current.raw > previous.raw {
            self.attack
        } else {
            self.release
        };
        Fixed::blend(coeff, current, previous)
    }

    /// Attack/release smoothing with a per-category scale on the
    /// coefficient: below 1 responds faster, above 1 slower.
    fn ar_scaled(&self, current: Fixed, previous: Fixed, scale: Fixed) -> (r: Fixed)
        requires
            self.wf(),
        ensures
            r == ar_scaled_spec(self.attack, self.release, current, previous, scale),
    {
        let base = if current.raw > previous.raw {
            self.attack
        } else {
            self.release
        };
        let coeff = base.times(scale).clamp(Fixed { raw: MIN_COEFF }, Fixed { raw: SCALE });
        Fixed::blend(coeff, current, previous)
    }
}

impl FeatureSmoother {
    /// A smoother never overshoots: each smoothed value lies between the
    /// value in its state and the current one, with or without a scale on
    /// the coefficient.
    pub proof fn lemma_never_overshoots(&self, current: Fixed, previous: Fixed, scale: Fixed)
        requires
            self.wf(),
        ensures
            MIN_COEFF <= self.attack().raw <= SCALE,
            MIN_COEFF <= self.release().raw <= SCALE,
            previous.raw <= current.raw ==> previous.raw <= ar_spec(
                self.attack(),
                self.release(),
                current,
                previous,
            ).raw <= current.raw,
            current.raw <= previous.raw ==> current.raw <= ar_spec(
                self.attack(),
                self.release(),
                current,
                previous,
            ).raw <= previous.raw,
            previous.raw <= current.raw ==> previous.raw <= ar_scaled_spec(
                self.attack(),
                self.release(),
                current,
                previous,
                scale,
            ).raw <= current.raw,
            current.raw <= previous.raw ==> current.raw <= ar_scaled_spec(
                self.attack(),
                self.release(),
                current,
                previous,
                scale,
            ).raw <= previous.raw,
    {
        lemma_smoothed_value_between(self.attack, self.release, current, previous, scale);
    }
}

/// A weighted mean of a value with itself is that value.
pub proof fn lemma_blend_same(coeff: Fixed, c: Fixed)
    ensures
        Fixed::blend_spec(coeff, c, c) == c,
{
    let s = SCALE as int;
    assert(coeff.raw * c.raw + (s - coeff.raw) * c.raw == s * c.raw) by (nonlinear_arith);
}

/// A smoothed value never leaves the interval between the previous value
/// and the current one: the filter does not overshoot.
pub proof fn lemma_smoothed_value_between(
    attack: Fixed,
    release: Fixed,
    current: Fixed,
    previous: Fixed,
    scale: Fixed,
)
    requires
        0 <= attack.raw <= SCALE,
        0 <= release.raw <= SCALE,
    ensures
        previous.raw <= current.raw ==> previous.raw <= ar_spec(
            attack,
            release,
            current,
            previous,
        ).raw <= current.raw,
        current.raw <= previous.raw ==> current.raw <= ar_spec(
            attack,
            release,
            current,
            previous,
        ).raw <= previous.raw,
        previous.raw <= current.raw ==> previous.raw <= ar_scaled_spec(
            attack,
            release,
            current,
            previous,
            scale,
        ).raw <= current.raw,
        current.raw <= previous.raw ==> current.raw <= ar_scaled_spec(
            attack,
            release,
            current,
            previous,
            scale,
        ).raw <= previous.raw,
{
    let base = base_coeff_spec(attack, release, current, previous);
    let scaled = base.times_spec(scale).clamp_spec(Fixed { raw: MIN_COEFF }, Fixed { raw: SCALE });
    lemma_blend_bounds(base.raw as int, current.raw as int, previous.raw as int);
    lemma_blend_bounds(scaled.raw as int, current.raw as int, previous.raw as int);
}

/// While the input is held constant at the smoother's state, the output is
/// that input exactly: a constant signal is a fixed point of the filter.
pub proof fn lemma_constant_input_is_fixed_point(
    attack: Fixed,
    release: Fixed,
    c: AudioFeatures,
    out: AudioFeatures,
)
    requires
        is_smoothed(attack, release, c, c, out),
    ensures
        out == c,
{
    let low = Fixed { raw: LOW_BAND_SCALE };
    let high = Fixed { raw: HIGH_BAND_SCALE };
    let event = Fixed { raw: EVENT_SCALE };
    let lo = Fixed { raw: MIN_COEFF };
    let hi = Fixed { raw: SCALE };
    assert forall|x: Fixed| #![auto] ar_spec(attack, release, x, x) == x by {
        lemma_blend_same(release, x);
    }
    assert forall|x: Fixed, scale: Fixed| #![auto]
        ar_scaled_spec(attack, release, x, x, scale) == x by {
        lemma_blend_same(release.times_spec(scale).clamp_spec(lo, hi), x);
    }
    assert forall|i: int| 0 <= i < 32 implies out.spectrum_bands@[i] == c.spectrum_bands@[i] by {
        assert(out.spectrum_bands@[i] == ar_spec(
            attack,
            release,
            c.spectrum_bands@[i],
            c.spectrum_bands@[i],
        ));
    }
    assert(out.spectrum_bands =~= c.spectrum_bands);
}

} // verus!
