//! Mel filterbank and cepstral transform.
//!
//! The filterbank has 26 triangular bands. Its band edges, 28 frequencies
//! equally spaced on the mel scale, are supplied by the caller, and so is
//! the logarithm taken between the band energies and the cepstral
//! transform: this module holds the arithmetic on bins, weights and sums.
//! Band energies are exact sums of products, in millionths of a millionth,
//! so that the floor added before the logarithm keeps its meaning.

use vstd::prelude::*;
use crate::fixed::wide_mul;
use crate::fixed::Fixed;
use crate::fixed::SCALE;

verus! {

/// `cos(pi * k * (n + 1/2) / 26)` in millionths, for coefficient `k` and
/// band `n`.
pub const DCT_COS: [[i64; 26]; 5] = [
    [
        1000000, 1000000, 1000000, 1000000, 1000000, 1000000, 1000000, 1000000, 1000000,
        1000000, 1000000, 1000000, 1000000, 1000000, 1000000, 1000000, 1000000, 1000000,
        1000000, 1000000, 1000000, 1000000, 1000000, 1000000, 1000000, 1000000,
    ],
    [
        998176, 983620, 954721, 911900, 855781, 787183, 707107, 616719, 517338, 410413, 297503,
        180255, 60378, -60378, -180255, -297503, -410413, -517338, -616719, -707107, -787183,
        -855781, -911900, -954721, -983620, -998176,
    ],
    [
        992709, 935016, 822984, 663123, 464723, 239316, 0, -239316, -464723, -663123, -822984,
        -935016, -992709, -992709, -935016, -822984, -663123, -464723, -239316, 0, 239316,
        464723, 663123, 822984, 935016, 992709,
    ],
    [
        983620, 855781, 616719, 297503, -60378, -410413, -707107, -911900, -998176, -954721,
        -787183, -517338, -180255, 180255, 517338, 787183, 954721, 998176, 911900, 707107,
        410413, 60378, -297503, -616719, -855781, -983620,
    ],
    [
        970942, 748511, 354605, -120537, -568065, -885456, -1000000, -885456, -568065, -120537,
        354605, 748511, 970942, 970942, 748511, 354605, -120537, -568065, -885456, -1000000,
        -885456, -568065, -120537, 354605, 748511, 970942,
    ],
];

/// The spectrum bin that holds the frequency `hz`: `hz / (sample_rate /
/// fft_size)` rounded down, zero for a frequency that is not positive or a
/// sample rate of zero, and never beyond what a `usize` holds.
pub open spec fn bin_of_spec(hz: Fixed, fft_size: int, sample_rate: int) -> int {
    if hz.raw <= 0 || sample_rate == 0 {
        0
    } else {
        let q = (hz.raw * fft_size) / (sample_rate * SCALE);
        if q > usize::MAX {
            usize::MAX as int
        } else {
            q
        }
    }
}

/// The frequency at the lower edge of a bin, in millionths of a hertz:
/// `bin * sample_rate / fft_size` rounded down, zero for a transform of
/// size zero, and never beyond what an `i64` holds.
pub open spec fn bin_freq_spec(bin: int, fft_size: int, sample_rate: int) -> int {
    if fft_size == 0 {
        0
    } else {
        let q = (bin * sample_rate * SCALE) / fft_size;
        if q > i64::MAX {
            i64::MAX as int
        } else {
            q
        }
    }
}

/// First, centre and last bin of band `f`. The last bin is held inside the
/// `fft_size / 2 + 1` bins of a spectrum.
pub open spec fn band_bins_spec(edges: Seq<Fixed>, f: int, fft_size: int, sample_rate: int) -> (
    int,
    int,
    int,
) {
    let last = bin_of_spec(edges[f + 2], fft_size, sample_rate);
    (
        bin_of_spec(edges[f], fft_size, sample_rate),
        bin_of_spec(edges[f + 1], fft_size, sample_rate),
        if last > fft_size / 2 {
            fft_size / 2
        } else {
            last
        },
    )
}

/// The weight of the frequency `freq` in a triangular band that rises from
/// `start` to `center` and falls from `center` to `end`, all in millionths
/// of a hertz; the weight is in millionths, between 0 and 1. A side of no
/// width has weight 1.
pub open spec fn weight_spec(freq: int, start: int, center: int, end: int) -> int {
    if freq < center {
        if center <= start {
            SCALE as int
        } else if freq <= start {
            0
        } else {
            ((freq - start) * SCALE) / (center - start)
        }
    } else if end <= center {
        SCALE as int
    } else if freq >= end {
        0
    } else {
        ((end - freq) * SCALE) / (end - center)
    }
}

/// The number of bins from `first` to `last`, both included.
pub open spec fn span_spec(first: int, last: int) -> int {
    if first <= last {
        last - first + 1
    } else {
        0
    }
}

/// The weights of band `f`, one per bin from its first to its last.
pub open spec fn band_weights_spec(
    edges: Seq<Fixed>,
    f: int,
    fft_size: int,
    sample_rate: int,
) -> Seq<Fixed> {
    let bins = band_bins_spec(edges, f, fft_size, sample_rate);
    Seq::new(
        span_spec(bins.0, bins.2) as nat,
        |i: int|
            Fixed {
                raw: weight_spec(
                    bin_freq_spec(bins.0 + i, fft_size, sample_rate),
                    edges[f].raw as int,
                    edges[f + 1].raw as int,
                    edges[f + 2].raw as int,
                ) as i64,
            },
    )
}

/// How many bins of a band are summed over a spectrum of `len` values:
/// those from `start` to `end` that the spectrum holds and that have a
/// weight.
pub open spec fn terms_spec(start: int, end: int, len: int, weights: int) -> int {
    if start <= end && start < len {
        let last = if end < len - 1 {
            end
        } else {
            len - 1
        };
        if last - start + 1 < weights {
            last - start + 1
        } else {
            weights
        }
    } else {
        0
    }
}

/// The nearest value to `x` that an `i128` holds.
pub open spec fn saturate_wide(x: int) -> int {
    if x < i128::MIN {
        i128::MIN as int
    } else if x > i128::MAX {
        i128::MAX as int
    } else {
        x
    }
}

/// The weighted sum of the first `n` bins of a band, in millionths of a
/// millionth: each term is the exact product of a magnitude and a weight,
/// and the sum saturates bin by bin.
pub open spec fn energy_sum(spectrum: Seq<Fixed>, start: int, weights: Seq<Fixed>, n: nat)
    -> int
    decreases n,
{
    if n == 0 {
        0
    } else {
        saturate_wide(
            energy_sum(spectrum, start, weights, (n - 1) as nat) + spectrum[start + n - 1].raw
                * weights[n - 1].raw,
        )
    }
}

/// The exact weighted sum of the first `n` bins of a band, in millionths of
/// a millionth.
pub open spec fn exact_energy_sum(spectrum: Seq<Fixed>, start: int, weights: Seq<Fixed>, n: nat)
    -> int
    decreases n,
{
    if n == 0 {
        0
    } else {
        exact_energy_sum(spectrum, start, weights, (n - 1) as nat) + spectrum[start + n - 1].raw
            * weights[n - 1].raw
    }
}

/// The energy of a band over a spectrum, in millionths of a millionth: the
/// weighted sum over the bins actually present.
pub open spec fn band_energy_spec(
    spectrum: Seq<Fixed>,
    start: int,
    end: int,
    weights: Seq<Fixed>,
) -> int {
    energy_sum(
        spectrum,
        start,
        weights,
        terms_spec(start, end, spectrum.len() as int, weights.len() as int) as nat,
    )
}

/// The first `n` terms of cepstral coefficient `k`: the sum over the bands
/// of log energy times cosine.
pub open spec fn dct_sum(log_energies: Seq<Fixed>, k: int, n: nat) -> Fixed
    decreases n,
{
    if n == 0 {
        Fixed { raw: 0 }
    } else {
        dct_sum(log_energies, k, (n - 1) as nat).plus_spec(
            log_energies[n - 1].times_spec(Fixed { raw: DCT_COS[k][n - 1] }),
        )
    }
}

/// Finds the bin of a frequency.
pub fn bin_of(hz: Fixed, fft_size: usize, sample_rate: u32) -> (b: usize)
    ensures
        b == bin_of_spec(hz, fft_size as int, sample_rate as int),
{
    if hz.raw <= 0 || sample_rate == 0 {
        return 0;
    }
    assert(0 <= hz.raw * fft_size <= 0x7fff_ffff_ffff_ffff * 0xffff_ffff_ffff_ffff)
        by (nonlinear_arith)
        requires
            0 <= hz.raw <= 0x7fff_ffff_ffff_ffff,
            0 <= fft_size <= 0xffff_ffff_ffff_ffff,
    ;
    let num: u128 = hz.raw as u128 * fft_size as u128;
    let den: u128 = sample_rate as u128 * 1_000_000;
    let q: u128 = num / den;
    if q > usize::MAX as u128 {
        usize::MAX
    } else {
        q as usize
    }
}

/// Finds the frequency at the lower edge of a bin, in millionths of a hertz.
pub fn bin_freq(bin: usize, fft_size: usize, sample_rate: u32) -> (hz: i64)
    ensures
        hz == bin_freq_spec(bin as int, fft_size as int, sample_rate as int),
        hz >= 0,
{
    if fft_size == 0 {
        return 0;
    }
    assert(0 <= bin * sample_rate <= 0xffff_ffff_ffff_ffff * 0xffff_ffff) by (nonlinear_arith)
        requires
            0 <= bin <= 0xffff_ffff_ffff_ffff,
            0 <= sample_rate <= 0xffff_ffff,
    ;
    let num: u128 = bin as u128 * sample_rate as u128 * 1_000_000;
    let q: u128 = num / (fft_size as u128);
    if q > i64::MAX as u128 {
        i64::MAX
    } else {
        q as i64
    }
}

/// Computes the weight of a frequency in a triangular band.
pub fn band_weight(freq: i64, start: Fixed, center: Fixed, end: Fixed) -> (w: Fixed)
    ensures
        w.raw == weight_spec(freq as int, start.raw as int, center.raw as int, end.raw as int),
        0 <= w.raw <= SCALE,
{
    if freq < center.raw {
        if center.raw <= start.raw {
            Fixed { raw: SCALE }
        } else if freq <= start.raw {
            Fixed { raw: 0 }
        } else {
            let part: i128 = freq as i128 - start.raw as i128;
            let whole: i128 = center.raw as i128 - start.raw as i128;
            assert(0 <= (part * 1_000_000) / (whole as int) <= 1_000_000) by (nonlinear_arith)
                requires
                    0 < part < whole,
            ;
            Fixed { raw: ((part * 1_000_000) / whole) as i64 }
        }
    } else if end.raw <= center.raw {
        Fixed { raw: SCALE }
    } else if freq >= end.raw {
        Fixed { raw: 0 }
    } else {
        let part: i128 = end.raw as i128 - freq as i128;
        let whole: i128 = end.raw as i128 - center.raw as i128;
        assert(0 <= (part * 1_000_000) / (whole as int) <= 1_000_000) by (nonlinear_arith)
            requires
                0 < part <= whole,
        ;
        Fixed { raw: ((part * 1_000_000) / whole) as i64 }
    }
}

/// The energy of a band: `raw` counts millionths of a millionth, the unit of
/// an exact product of two fixed-point numbers, so that an energy far below
/// one millionth is still told from zero.
#[derive(Clone, Copy, Debug, PartialEq, Eq, Structural)]
pub struct Energy {
    pub raw: i128,
}

/// The number of raw units of an [`Energy`] in 1.0.
pub const ENERGY_SCALE: i128 = 1_000_000_000_000;

/// Saturating sum of two wide numbers.
fn wide_plus(a: i128, b: i128) -> (r: i128)
    ensures
        r == saturate_wide(a + b),
{
    if b > 0 && a > i128::MAX - b {
        i128::MAX
    } else if b < 0 && a < i128::MIN - b {
        i128::MIN
    } else {
        a + b
    }
}

/// As long as the magnitudes are at most `bound` in size and the weights
/// lie in `[0, 1]`, a sum of `n` terms stays within `n * bound` millionths
/// and, where that fits, is exact: nothing is rounded and nothing
/// saturates.
pub proof fn lemma_energy_sum_is_exact(
    spectrum: Seq<Fixed>,
    start: int,
    weights: Seq<Fixed>,
    n: nat,
    bound: int,
)
    requires
        0 <= start,
        start + n <= spectrum.len(),
        n <= weights.len(),
        0 <= bound,
        n * bound * 1_000_000 <= i128::MAX,
        forall|i: int| 0 <= i < n ==> -bound <= (#[trigger] spectrum[start + i]).raw <= bound,
        forall|i: int| 0 <= i < n ==> 0 <= (#[trigger] weights[i]).raw <= 1_000_000,
    ensures
        energy_sum(spectrum, start, weights, n) == exact_energy_sum(spectrum, start, weights, n),
        -(n * bound * 1_000_000) <= energy_sum(spectrum, start, weights, n) <= n * bound
            * 1_000_000,
    decreases n,
{
    if n > 0 {
        let m = (n - 1) as nat;
        assert(m * bound * 1_000_000 + bound * 1_000_000 == n * bound * 1_000_000)
            by (nonlinear_arith)
            requires
                m + 1 == n,
        ;
        assert(0 <= m * bound * 1_000_000) by (nonlinear_arith)
            requires
                0 <= m,
                0 <= bound,
        ;
        lemma_energy_sum_is_exact(spectrum, start, weights, m, bound);
        let x = spectrum[start + m].raw as int;
        let w = weights[m as int].raw as int;
        assert(-(bound * 1_000_000) <= x * w <= bound * 1_000_000) by (nonlinear_arith)
            requires
                -bound <= x <= bound,
                0 <= w <= 1_000_000,
        ;
    }
}

/// A bank of 26 triangular filters over the bins of a magnitude spectrum.
#[derive(Clone, Debug)]
pub struct MelFilterbank {
    /// First, centre and last bin of each band.
    filters: [(usize, usize, usize); 26],
    /// The weight of each bin of each band, from the band's first bin on.
    weights: Vec<Vec<Fixed>>,
}

impl MelFilterbank {
    /// First, centre and last bin of each of the 26 bands.
    pub closed spec fn bins(&self) -> Seq<(usize, usize, usize)> {
        self.filters@
    }

    /// The weights of band `f`, from its first bin on.
    pub closed spec fn band_weights(&self, f: int) -> Seq<Fixed> {
        self.weights@[f]@
    }

    /// There is a list of weights for each band.
    pub closed spec fn wf(&self) -> bool {
        self.weights@.len() == 26
    }

    /// Lays out the filterbank for a transform of `fft_size` points at
    /// `sample_rate` hertz. `edges_hz` holds the 28 band edges in hertz, in
    /// rising order: band `f` rises from edge `f` to edge `f + 1` and falls
    /// to edge `f + 2`.
    pub fn new(fft_size: usize, sample_rate: u32, edges_hz: &[Fixed; 28]) -> (bank: MelFilterbank)
        ensures
            bank.wf(),
            bank.bins().len() == 26,
            forall|f: int|
                0 <= f < 26 ==> {
                    &&& (#[trigger] bank.bins()[f]).0 == band_bins_spec(
                        edges_hz@,
                        f,
                        fft_size as int,
                        sample_rate as int,
                    ).0
                    &&& bank.bins()[f].1 == band_bins_spec(
                        edges_hz@,
                        f,
                        fft_size as int,
                        sample_rate as int,
                    ).1
                    &&& bank.bins()[f].2 == band_bins_spec(
                        edges_hz@,
                        f,
                        fft_size as int,
                        sample_rate as int,
                    ).2
                    &&& bank.bins()[f].2 <= fft_size / 2
                },
            forall|f: int|
                0 <= f < 26 ==> #[trigger] bank.band_weights(f) == band_weights_spec(
                    edges_hz@,
                    f,
                    fft_size as int,
                    sample_rate as int,
                ),
    {
        let half: usize = fft_size / 2;
        let mut filters: [(usize, usize, usize); 26] = [(0usize, 0usize, 0usize);26];
        let mut weights: Vec<Vec<Fixed>> = Vec::with_capacity(26);
        let mut f: usize = 0;
        while f < 26
            invariant
                f <= 26,
                half == fft_size / 2,
                weights@.len() == f,
                forall|g: int|
                    0 <= g < f ==> {
                        &&& (#[trigger] filters@[g]).0 == band_bins_spec(
                            edges_hz@,
                            g,
                            fft_size as int,
                            sample_rate as int,
                        ).0
                        &&& filters@[g].1 == band_bins_spec(
                            edges_hz@,
                            g,
                            fft_size as int,
                            sample_rate as int,
                        ).1
                        &&& filters@[g].2 == band_bins_spec(
                            edges_hz@,
                            g,
                            fft_size as int,
                            sample_rate as int,
                        ).2
                        &&& filters@[g].2 <= fft_size / 2
                    },
                forall|g: int|
                    0 <= g < f ==> (#[trigger] weights@[g])@ == band_weights_spec(
                        edges_hz@,
                        g,
                        fft_size as int,
                        sample_rate as int,
                    ),
            decreases 26 - f,
        {
            let start_hz: Fixed = edges_hz[f];
            let center_hz: Fixed = edges_hz[f + 1];
            let end_hz: Fixed = edges_hz[f + 2];
            let start_bin: usize = bin_of(start_hz, fft_size, sample_rate);
            let center_bin: usize = bin_of(center_hz, fft_size, sample_rate);
            let last: usize = bin_of(end_hz, fft_size, sample_rate);
            let end_bin: usize = if last > half {
                half
            } else {
                last
            };
            filters[f] = (start_bin, center_bin, end_bin);

            let ghost expected = band_weights_spec(
                edges_hz@,
                f as int,
                fft_size as int,
                sample_rate as int,
            );
            let mut w: Vec<Fixed> = Vec::new();
            if start_bin <= end_bin {
                let mut bin: usize = start_bin;
                while bin <= end_bin
                    invariant
                        start_bin <= bin <= end_bin + 1,
                        end_bin <= half,
                        half == fft_size / 2,
                        w@.len() == bin - start_bin,
                        expected.len() == end_bin - start_bin + 1,
                        expected == band_weights_spec(
                            edges_hz@,
                            f as int,
                            fft_size as int,
                            sample_rate as int,
                        ),
                        start_bin == band_bins_spec(
                            edges_hz@,
                            f as int,
                            fft_size as int,
                            sample_rate as int,
                        ).0,
                        start_hz == edges_hz@[f as int],
                        center_hz == edges_hz@[f + 1],
                        end_hz == edges_hz@[f + 2],
                        forall|i: int| 0 <= i < w@.len() ==> w@[i] == expected[i],
                    decreases end_bin + 1 - bin,
                {
                    let freq: i64 = bin_freq(bin, fft_size, sample_rate);
                    w.push(band_weight(freq, start_hz, center_hz, end_hz));
                    bin += 1;
                }
            }
            assert(w@ =~= expected);
            weights.push(w);
            f += 1;
        }
        MelFilterbank { filters, weights }
    }

    /// First, centre and last bin of band `f`.
    pub fn band_bins(&self, f: usize) -> (bins: (usize, usize, usize))
        requires
            f < 26,
        ensures
            bins == self.bins()[f as int],
    {
        self.filters[f]
    }

    /// The weights of band `f`, from its first bin on.
    pub fn weights_of(&self, f: usize) -> (w: &Vec<Fixed>)
        requires
            self.wf(),
            f < 26,
        ensures
            w@ == self.band_weights(f as int),
    {
        &self.weights[f]
    }

    /// Integrates a magnitude spectrum over each band. A band reaches no
    /// further than the spectrum does: of a spectrum shorter than the band,
    /// only the bins present are summed. The products are not rounded.
    pub fn band_energies(&self, spectrum: &[Fixed]) -> (energies: [Energy; 26])
        requires
            self.wf(),
        ensures
            forall|f: int|
                0 <= f < 26 ==> (#[trigger] energies@[f]).raw == band_energy_spec(
                    spectrum@,
                    self.bins()[f].0 as int,
                    self.bins()[f].2 as int,
                    self.band_weights(f),
                ),
    {
        let len: usize = spectrum.len();
        let mut energies: [Energy; 26] = [Energy { raw: 0 };26];
        let mut f: usize = 0;
        while f < 26
            invariant
                f <= 26,
                self.wf(),
                len == spectrum@.len(),
                forall|g: int|
                    0 <= g < f ==> (#[trigger] energies@[g]).raw == band_energy_spec(
                        spectrum@,
                        self.bins()[g].0 as int,
                        self.bins()[g].2 as int,
                        self.band_weights(g),
                    ),
            decreases 26 - f,
        {
            let (start, _, end) = self.filters[f];
            let w: &Vec<Fixed> = &self.weights[f];
            let mut energy: i128 = 0;
            if start <= end && start < len {
                let last: usize = if end < len - 1 {
                    end
                } else {
                    len - 1
                };
                let count: usize = if last - start + 1 < w.len() {
                    last - start + 1
                } else {
                    w.len()
                };
                let mut i: usize = 0;
                while i < count
                    invariant
                        i <= count,
                        count <= w@.len(),
                        start + count <= len,
                        len == spectrum@.len(),
                        energy == energy_sum(spectrum@, start as int, w@, i as nat),
                    decreases count - i,
                {
                    energy = wide_plus(energy, wide_mul(spectrum[start + i].raw, w[i].raw));
                    i += 1;
                }
            }
            energies[f] = Energy { raw: energy };
            f += 1;
        }
        energies
    }
}

/// The first five cepstral coefficients of 26 log band energies: a
/// discrete cosine transform of type II.
pub fn cepstrum(log_energies: &[Fixed; 26]) -> (mfcc: [Fixed; 5])
    ensures
        forall|k: int| 0 <= k < 5 ==> #[trigger] mfcc@[k] == dct_sum(log_energies@, k, 26),
{
    let mut mfcc: [Fixed; 5] = [Fixed { raw: 0 };5];
    let mut k: usize = 0;
    while k < 5
        invariant
            k <= 5,
            forall|j: int| 0 <= j < k ==> #[trigger] mfcc@[j] == dct_sum(log_energies@, j, 26),
        decreases 5 - k,
    {
        let mut sum: Fixed = Fixed { raw: 0 };
        let mut n: usize = 0;
        while n < 26
            invariant
                n <= 26,
                k < 5,
                sum == dct_sum(log_energies@, k as int, n as nat),
            decreases 26 - n,
        {
            sum = sum.plus(log_energies[n].times(Fixed { raw: DCT_COS[k][n] }));
            n += 1;
        }
        mfcc[k] = sum;
        k += 1;
    }
    mfcc
}

} // verus!
