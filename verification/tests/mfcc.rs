use classcii::fixed::Fixed;
use classcii::mfcc::band_weight;
use classcii::mfcc::bin_freq;
use classcii::mfcc::bin_of;
use classcii::mfcc::cepstrum;
use classcii::mfcc::MelFilterbank;
use classcii::mfcc::DCT_COS;
use classcii::mfcc::ENERGY_SCALE;

fn fx(raw: i64) -> Fixed {
    Fixed::from_micros(raw)
}

fn hz(v: i64) -> Fixed {
    fx(v * 1_000_000)
}

fn edges(first: i64, step: i64) -> [Fixed; 28] {
    let mut e = [fx(0); 28];
    for (i, slot) in e.iter_mut().enumerate() {
        *slot = hz(first + step * i as i64);
    }
    e
}

fn raws(w: &[Fixed]) -> Vec<i64> {
    w.iter().map(|x| x.raw).collect()
}

#[test]
fn bins_round_down() {
    // 16000 / 512 = 31.25 Hz per bin
    assert_eq!(bin_of(hz(300), 512, 16_000), 9);
    assert_eq!(bin_of(hz(400), 512, 16_000), 12);
    assert_eq!(bin_of(hz(500), 512, 16_000), 16);
    assert_eq!(bin_of(fx(31_249_999), 512, 16_000), 0);
    assert_eq!(bin_of(fx(31_250_000), 512, 16_000), 1);
    assert_eq!(bin_of(hz(0), 512, 16_000), 0);
    assert_eq!(bin_of(hz(-440), 512, 16_000), 0);
    assert_eq!(bin_of(hz(440), 512, 0), 0);
    assert_eq!(bin_of(hz(440), 0, 16_000), 0);
    assert_eq!(bin_of(fx(i64::MAX), usize::MAX, 1), usize::MAX);
}

#[test]
fn bin_frequencies() {
    assert_eq!(bin_freq(10, 512, 16_000), 312_500_000);
    assert_eq!(bin_freq(0, 512, 16_000), 0);
    assert_eq!(bin_freq(256, 512, 16_000), 8_000_000_000);
    assert_eq!(bin_freq(1, 3, 1), 333_333);
    assert_eq!(bin_freq(7, 0, 16_000), 0);
    assert_eq!(bin_freq(usize::MAX, 1, u32::MAX), i64::MAX);
}

#[test]
fn triangle_weights() {
    let (s, c, e) = (hz(300), hz(400), hz(500));
    assert_eq!(band_weight(281_250_000, s, c, e).raw, 0);
    assert_eq!(band_weight(300_000_000, s, c, e).raw, 0);
    assert_eq!(band_weight(312_500_000, s, c, e).raw, 125_000);
    assert_eq!(band_weight(399_999_999, s, c, e).raw, 999_999);
    assert_eq!(band_weight(400_000_000, s, c, e).raw, 1_000_000);
    assert_eq!(band_weight(406_250_000, s, c, e).raw, 937_500);
    assert_eq!(band_weight(500_000_000, s, c, e).raw, 0);
    assert_eq!(band_weight(900_000_000, s, c, e).raw, 0);
    // a side without width weighs 1
    assert_eq!(band_weight(350_000_000, c, c, e).raw, 1_000_000);
    assert_eq!(band_weight(450_000_000, s, c, c).raw, 1_000_000);
    assert_eq!(band_weight(i64::MAX, fx(i64::MIN), fx(0), fx(i64::MAX)).raw, 0);
    assert_eq!(band_weight(0, fx(i64::MIN), fx(0), fx(i64::MAX)).raw, 1_000_000);
    assert_eq!(band_weight(-1, fx(i64::MIN), fx(0), fx(i64::MAX)).raw, 999_999);
}

#[test]
fn filterbank_layout() {
    let bank = MelFilterbank::new(512, 16_000, &edges(300, 100));
    assert_eq!(bank.band_bins(0), (9, 12, 16));
    assert_eq!(bank.band_bins(1), (12, 16, 19));
    assert_eq!(bank.band_bins(25), (89, 92, 96));
    assert_eq!(
        raws(bank.weights_of(0)),
        vec![0, 125_000, 437_500, 750_000, 937_500, 625_000, 312_500, 0]
    );
    assert_eq!(
        raws(bank.weights_of(1)),
        vec![0, 62_500, 375_000, 687_500, 1_000_000, 687_500, 375_000, 62_500]
    );
    for f in 0..26 {
        let (start, _, end) = bank.band_bins(f);
        assert_eq!(bank.weights_of(f).len(), end - start + 1);
        assert!(bank.weights_of(f).iter().all(|w| (0..=1_000_000).contains(&w.raw)));
    }
}

#[test]
fn filterbank_stops_at_the_last_bin() {
    // 125 Hz per bin, 33 bins: the upper bands lie beyond the spectrum
    let bank = MelFilterbank::new(64, 8_000, &edges(300, 300));
    assert_eq!(bank.band_bins(0), (2, 4, 7));
    assert_eq!(raws(bank.weights_of(0)), vec![0, 250_000, 666_666, 916_666, 500_000, 83_333]);
    assert_eq!(bank.band_bins(11), (28, 31, 32));
    assert_eq!(raws(bank.weights_of(11)), vec![0, 83_333, 500_000, 916_666, 666_666]);
    assert_eq!(bank.band_bins(12), (31, 33, 32));
    assert_eq!(raws(bank.weights_of(12)), vec![0, 333_333]);
    assert_eq!(bank.band_bins(13), (33, 36, 32));
    assert!(bank.weights_of(13).is_empty());
    assert_eq!(bank.band_bins(25), (62, 64, 32));
    for f in 0..26 {
        assert!(bank.band_bins(f).2 <= 32);
    }
}

#[test]
fn filterbank_of_degenerate_transforms() {
    for (fft, sr) in [(0usize, 16_000u32), (512, 0), (0, 0)] {
        let bank = MelFilterbank::new(fft, sr, &edges(300, 100));
        let e = bank.band_energies(&vec![fx(1_000_000); 4]);
        for f in 0..26 {
            assert_eq!(bank.band_bins(f), (0, 0, 0));
            assert_eq!(raws(bank.weights_of(f)), vec![0]);
            assert_eq!(e[f].raw, 0);
        }
    }
    // one bin of one hertz: every band starts beyond it
    let bank = MelFilterbank::new(1, 1, &edges(300, 100));
    assert_eq!(bank.band_bins(0), (300, 400, 0));
    assert!(bank.weights_of(0).is_empty());
    assert!(bank.band_energies(&vec![fx(1_000_000); 4]).iter().all(|x| x.raw == 0));
}

#[test]
fn band_energies_are_weighted_sums() {
    let bank = MelFilterbank::new(512, 16_000, &edges(300, 100));
    let flat = vec![fx(1_000_000); 257];
    let e = bank.band_energies(&flat);
    // energies count millionths of a millionth
    assert_eq!(e[0].raw, 3_187_500_000_000);
    assert_eq!(e[1].raw, 3_250_000_000_000);
    assert_eq!(e[25].raw, 3_187_500_000_000);
    assert_eq!(e[0].raw / ENERGY_SCALE, 3);
    let mut line = vec![fx(0); 257];
    line[13] = fx(2_000_000);
    let e = bank.band_energies(&line);
    // bin 13 belongs to bands 0 and 1
    assert_eq!(e[0].raw, 1_875_000_000_000);
    assert_eq!(e[1].raw, 125_000_000_000);
    for f in 2..26 {
        assert_eq!(e[f].raw, 0);
    }
}

#[test]
fn short_spectrum_is_never_read_past_its_end() {
    let bank = MelFilterbank::new(512, 16_000, &edges(300, 100));
    // bins 0 to 11: band 0 keeps its bins 9, 10 and 11
    let e = bank.band_energies(&vec![fx(1_000_000); 12]);
    assert_eq!(e[0].raw, 562_500_000_000);
    for f in 1..26 {
        assert_eq!(e[f].raw, 0);
    }
    let e = bank.band_energies(&vec![fx(1_000_000); 13]);
    assert_eq!(e[0].raw, 1_312_500_000_000);
    assert_eq!(e[1].raw, 0);
    for len in [0usize, 1, 9] {
        let e = bank.band_energies(&vec![fx(1_000_000); len]);
        assert!(e.iter().all(|x| x.raw == 0));
    }
    let e = bank.band_energies(&vec![fx(1_000_000); 10]);
    assert_eq!(e[0].raw, 0);
    let e = bank.band_energies(&vec![fx(1_000_000); 11]);
    assert_eq!(e[0].raw, 125_000_000_000);
}

#[test]
fn band_energies_keep_large_products() {
    let bank = MelFilterbank::new(512, 16_000, &edges(300, 100));
    let e = bank.band_energies(&vec![fx(i64::MAX); 257]);
    assert_eq!(e[1].raw, i64::MAX as i128 * 3_250_000);
    let e = bank.band_energies(&vec![fx(i64::MIN); 257]);
    assert_eq!(e[1].raw, i64::MIN as i128 * 3_250_000);
}

#[test]
fn small_band_energies_are_told_from_zero() {
    let bank = MelFilterbank::new(512, 16_000, &edges(300, 100));
    // a magnitude of one millionth in every bin
    let e = bank.band_energies(&vec![fx(1); 257]);
    assert_eq!(e[0].raw, 3_187_500);
    assert_eq!(e[1].raw, 3_250_000);
    let mut line = vec![fx(0); 257];
    line[10] = fx(3);
    // 0.000003 * 0.125
    assert_eq!(bank.band_energies(&line)[0].raw, 375_000);
    line[10] = fx(-3);
    assert_eq!(bank.band_energies(&line)[0].raw, -375_000);
}

#[test]
fn cepstrum_of_flat_energies() {
    let c = cepstrum(&[fx(1_000_000); 26]);
    assert_eq!(c[0].raw, 26_000_000);
    for k in 1..5 {
        assert_eq!(c[k].raw, 0);
    }
    let c = cepstrum(&[fx(0); 26]);
    assert!(c.iter().all(|x| x.raw == 0));
}

#[test]
fn cepstrum_of_silence() {
    // every band at the logarithm of the floor, ln(1e-10)
    let c = cepstrum(&[fx(-23_025_851); 26]);
    // the rows of the higher coefficients sum to zero, up to the rounding
    // of each term
    assert_eq!(
        c.iter().map(|x| x.raw).collect::<Vec<i64>>(),
        vec![26 * -23_025_851, 0, 0, 0, 6]
    );
}

#[test]
fn cepstrum_of_a_ramp() {
    let mut logs = [fx(0); 26];
    for (n, slot) in logs.iter_mut().enumerate() {
        *slot = fx(n as i64 * 100_000 - 1_300_000);
    }
    let c = cepstrum(&logs);
    assert_eq!(
        c.iter().map(|x| x.raw).collect::<Vec<i64>>(),
        vec![-1_300_000, -13_690_272, 0, -1_513_644, -1]
    );
}

#[test]
fn cepstrum_of_a_single_band() {
    for n in [0usize, 7, 25] {
        let mut logs = [fx(0); 26];
        logs[n] = fx(1_000_000);
        let c = cepstrum(&logs);
        for k in 0..5 {
            assert_eq!(c[k].raw, DCT_COS[k][n]);
        }
    }
}

#[test]
fn cosine_table_matches_the_cosine() {
    for k in 0..5 {
        for n in 0..26 {
            let exact = (std::f64::consts::PI * k as f64 * (n as f64 + 0.5) / 26.0).cos();
            assert_eq!(DCT_COS[k][n], (exact * 1_000_000.0).round() as i64);
        }
    }
}
