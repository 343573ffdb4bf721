//! Dominant-bin extraction from a magnitude spectrum.
//!
//! The spectral transform itself is floating-point work done by the capture
//! side; this module takes the resulting per-bin magnitudes, already scaled
//! to integers, and finds the dominant bin. The search covers the open bin
//! range `(0, len/2)` — the zero-frequency bin and the mirrored upper half of
//! a real signal's spectrum are excluded — and uses a last-wins tie-break:
//! the scan compares with `>=`, so among equal magnitudes the highest bin
//! examined is reported.
//!
//! Bin `b` of a window of `len` samples at the fixed 44.1 kHz capture rate
//! corresponds to `b * 44_100_000 / len` milli-hertz (truncated).

use vstd::prelude::*;

verus! {

/// Capture sample rate in milli-hertz.
pub const SAMPLE_RATE_MHZ: u64 = 44_100_000;

/// The dominant bin of one frame's spectrum: its frequency in milli-hertz
/// and its magnitude.
pub struct SpectrumSample {
    pub freq_mhz: u64,
    pub mag: u32,
}

/// Frequency of a spectrum bin in milli-hertz, truncated.
pub open spec fn bin_mhz(bin: int, len: int) -> int {
    bin * SAMPLE_RATE_MHZ / len
}

/// A bin's frequency is below the sample rate.
proof fn lemma_bin_mhz_bound(bin: int, len: int)
    requires
        0 <= bin < len,
    ensures
        0 <= bin_mhz(bin, len) < SAMPLE_RATE_MHZ,
{
    let k = SAMPLE_RATE_MHZ as int;
    let x = bin * k;
    assert(0 <= bin * k < len * k) by (nonlinear_arith)
        requires
            0 <= bin < len,
            k > 0,
    ;
    vstd::arithmetic::div_mod::lemma_fundamental_div_mod(x, len);
    vstd::arithmetic::div_mod::lemma_mod_bound(x, len);
    let q = x / len;
    if q >= k {
        assert(len * q >= len * k) by (nonlinear_arith)
            requires
                q >= k,
                len > 0,
        ;
        assert(false);
    }
    vstd::arithmetic::div_mod::lemma_div_pos_is_pos(x, len);
}

/// Finds the dominant bin of a magnitude spectrum.
///
/// The returned magnitude is the maximum over bins `(0, len/2)` (zero when
/// that range is empty or all-zero). When it is positive, the returned
/// frequency is that of the last bin attaining it; when the whole audible
/// range is silent, frequency and magnitude are both reported as zero.
pub fn dominant(mags: &Vec<u32>) -> (s: SpectrumSample)
    ensures
        forall|j: int| 1 <= j < mags@.len() / 2 ==> mags@[j] <= s.mag,
        s.mag > 0 ==> exists|b: int|
            1 <= b < mags@.len() / 2 && mags@[b] == s.mag && (forall|j: int|
                b < j < mags@.len() / 2 ==> mags@[j] < s.mag) && s.freq_mhz == bin_mhz(
                b,
                mags@.len() as int,
            ),
        s.mag == 0 ==> s.freq_mhz == 0,
{
    let len = mags.len();
    let half = len / 2;
    let mut best_mag: u32 = 0;
    let mut best_bin: usize = 0;
    let mut i: usize = 1;
    while i < half
        invariant
            1 <= i,
            i <= half || i == 1,
            half == len / 2,
            len == mags@.len(),
            forall|j: int| 1 <= j < i ==> mags@[j] <= best_mag,
            best_mag > 0 ==> 1 <= best_bin < i && mags@[best_bin as int] == best_mag && (
            forall|j: int| best_bin < j < i ==> mags@[j] < best_mag),
        decreases half - i,
    {
        if mags[i] >= best_mag {
            best_mag = mags[i];
            best_bin = i;
        }
        i += 1;
    }
    if best_mag == 0 {
        SpectrumSample { freq_mhz: 0, mag: 0 }
    } else {
        proof {
            lemma_bin_mhz_bound(best_bin as int, len as int);
        }
        let freq = (((best_bin as u128) * (SAMPLE_RATE_MHZ as u128)) / (len as u128)) as u64;
        let s = SpectrumSample { freq_mhz: freq, mag: best_mag };
        proof {
            let b = best_bin as int;
            assert(1 <= b < mags@.len() / 2 && mags@[b] == s.mag && (forall|j: int|
                b < j < mags@.len() / 2 ==> mags@[j] < s.mag) && s.freq_mhz == bin_mhz(
                b,
                mags@.len() as int,
            ));
        }
        s
    }
}

} // verus!
