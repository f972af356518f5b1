use classcii::features::AudioFeatures;
use classcii::fixed::Fixed;
use classcii::smoothing::FeatureSmoother;

fn fx(raw: i64) -> Fixed {
    Fixed::from_micros(raw)
}

fn uniform(level: i64, onset: bool, phase: i64) -> AudioFeatures {
    let mut f = AudioFeatures::default();
    let v = fx(level);
    f.rms = v;
    f.peak = v;
    f.sub_bass = v;
    f.bass = v;
    f.low_mid = v;
    f.mid = v;
    f.high_mid = v;
    f.presence = v;
    f.brilliance = v;
    f.spectral_centroid = v;
    f.spectral_flux = v;
    f.spectral_flatness = v;
    f.spectral_rolloff = v;
    f.zero_crossing_rate = v;
    f.bpm = v;
    f.beat_intensity = v;
    f.timbral_brightness = v;
    f.timbral_roughness = v;
    f.onset_envelope = v;
    f.spectrum_bands = [v; 32];
    f.onset = onset;
    f.beat_phase = fx(phase);
    f
}

fn scalars(f: &AudioFeatures) -> Vec<i64> {
    let mut v = vec![
        f.rms.raw,
        f.peak.raw,
        f.sub_bass.raw,
        f.bass.raw,
        f.low_mid.raw,
        f.mid.raw,
        f.high_mid.raw,
        f.presence.raw,
        f.brilliance.raw,
        f.spectral_centroid.raw,
        f.spectral_flux.raw,
        f.spectral_flatness.raw,
        f.spectral_rolloff.raw,
        f.zero_crossing_rate.raw,
        f.bpm.raw,
        f.beat_intensity.raw,
        f.beat_phase.raw,
        f.timbral_brightness.raw,
        f.timbral_roughness.raw,
        f.onset_envelope.raw,
    ];
    for b in f.spectrum_bands {
        v.push(b.raw);
    }
    v
}

#[test]
fn default_features_are_silent() {
    let f = AudioFeatures::default();
    assert!(scalars(&f).iter().all(|&x| x == 0));
    assert!(!f.onset);
}

#[test]
fn first_call_returns_input_unchanged() {
    let input = uniform(730_000, true, 250_000);
    let mut s = FeatureSmoother::new(fx(300_000));
    let out = s.smooth(&input);
    assert_eq!(scalars(&out), scalars(&input));
    assert!(out.onset);
}

#[test]
fn constant_input_converges() {
    let input = uniform(415_927, false, 600_000);
    let mut s = FeatureSmoother::new(fx(300_000));
    let mut out = s.smooth(&input);
    for _ in 0..10 {
        out = s.smooth(&input);
    }
    for (got, want) in scalars(&out).iter().zip(scalars(&input).iter()) {
        assert!((got - want).abs() <= 1);
    }
    assert_eq!(scalars(&out), scalars(&input));
}

#[test]
fn step_input_converges_within_epsilon() {
    let mut s = FeatureSmoother::new(fx(500_000));
    s.smooth(&uniform(0, false, 0));
    let target = uniform(1_000_000, false, 0);
    let mut out = target;
    for _ in 0..60 {
        out = s.smooth(&target);
    }
    for got in scalars(&out) {
        if got != 0 {
            assert!((1_000_000 - got).abs() <= 1_000);
        }
    }
    assert!((1_000_000 - out.rms.raw).abs() <= 10);
}

#[test]
fn onset_and_beat_phase_pass_through() {
    let mut s = FeatureSmoother::new(fx(100_000));
    s.smooth(&uniform(100_000, false, 0));
    let out = s.smooth(&uniform(900_000, true, 987_654));
    assert!(out.onset);
    assert_eq!(out.beat_phase.raw, 987_654);
    let out = s.smooth(&uniform(900_000, false, 12));
    assert!(!out.onset);
    assert_eq!(out.beat_phase.raw, 12);
}

#[test]
fn rising_values_use_the_attack() {
    // alpha 0.3: attack 0.6, release 0.15
    let mut s = FeatureSmoother::new(fx(300_000));
    s.smooth(&uniform(0, false, 0));
    let out = s.smooth(&uniform(1_000_000, false, 0));
    assert_eq!(out.rms.raw, 600_000);
    assert_eq!(out.peak.raw, 600_000);
    assert_eq!(out.low_mid.raw, 600_000);
    assert_eq!(out.mid.raw, 600_000);
    assert_eq!(out.spectral_centroid.raw, 600_000);
    assert_eq!(out.spectral_flux.raw, 600_000);
    assert_eq!(out.spectral_flatness.raw, 600_000);
    assert_eq!(out.spectral_rolloff.raw, 600_000);
    assert_eq!(out.bpm.raw, 600_000);
    assert_eq!(out.timbral_brightness.raw, 600_000);
    assert_eq!(out.timbral_roughness.raw, 600_000);
    // low bands: 0.6 * 1.3
    assert_eq!(out.sub_bass.raw, 780_000);
    assert_eq!(out.bass.raw, 780_000);
    // high bands: 0.6 * 0.7
    assert_eq!(out.high_mid.raw, 420_000);
    assert_eq!(out.presence.raw, 420_000);
    assert_eq!(out.brilliance.raw, 420_000);
    assert_eq!(out.zero_crossing_rate.raw, 420_000);
    // events: 0.6 * 0.5
    assert_eq!(out.beat_intensity.raw, 300_000);
    assert_eq!(out.onset_envelope.raw, 300_000);
    for b in out.spectrum_bands {
        assert_eq!(b.raw, 600_000);
    }
}

#[test]
fn falling_values_use_the_release() {
    let mut s = FeatureSmoother::new(fx(300_000));
    s.smooth(&uniform(1_000_000, false, 0));
    let out = s.smooth(&uniform(0, false, 0));
    assert_eq!(out.rms.raw, 850_000);
    // 0.15 * 1.3 = 0.195
    assert_eq!(out.sub_bass.raw, 805_000);
    // 0.15 * 0.7 = 0.105
    assert_eq!(out.presence.raw, 895_000);
    // 0.15 * 0.5 = 0.075
    assert_eq!(out.beat_intensity.raw, 925_000);
    for b in out.spectrum_bands {
        assert_eq!(b.raw, 850_000);
    }
}

#[test]
fn state_is_the_smoothed_output() {
    let mut s = FeatureSmoother::new(fx(300_000));
    s.smooth(&uniform(0, false, 0));
    let one = uniform(1_000_000, false, 0);
    assert_eq!(s.smooth(&one).rms.raw, 600_000);
    // 0.6 * 1 + 0.4 * 0.6
    assert_eq!(s.smooth(&one).rms.raw, 840_000);
    assert_eq!(s.smooth(&one).rms.raw, 936_000);
}

#[test]
fn responsiveness_is_clamped() {
    // alpha below 0.01 counts as 0.01: attack 0.02, release 0.01
    let mut s = FeatureSmoother::new(fx(-5_000_000));
    s.smooth(&uniform(0, false, 0));
    assert_eq!(s.smooth(&uniform(1_000_000, false, 0)).rms.raw, 20_000);
    let mut s = FeatureSmoother::new(fx(0));
    s.smooth(&uniform(1_000_000, false, 0));
    assert_eq!(s.smooth(&uniform(0, false, 0)).rms.raw, 990_000);
    // alpha above 1 counts as 1: attack 1, release 0.5
    let mut s = FeatureSmoother::new(fx(9_000_000));
    s.smooth(&uniform(0, false, 0));
    let up = s.smooth(&uniform(1_000_000, false, 0));
    assert_eq!(up.rms.raw, 1_000_000);
    // scaled coefficients are clamped to 1 as well: min(1 * 1.3, 1)
    assert_eq!(up.sub_bass.raw, 1_000_000);
    assert_eq!(s.smooth(&uniform(0, false, 0)).rms.raw, 500_000);
}

#[test]
fn output_stays_between_state_and_input() {
    let mut s = FeatureSmoother::new(fx(270_000));
    s.smooth(&uniform(-3_000_000, false, 0));
    let mut prev = -3_000_000i64;
    for _ in 0..20 {
        let out = s.smooth(&uniform(5_000_000, false, 0));
        for v in [out.rms.raw, out.bass.raw, out.presence.raw, out.beat_intensity.raw] {
            assert!((-3_000_000..=5_000_000).contains(&v));
        }
        assert!(out.rms.raw >= prev);
        prev = out.rms.raw;
    }
}
