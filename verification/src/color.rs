//! Maps a dominant frequency to an RGB color through HSL.
//!
//! The frequency range [20 Hz, 20 kHz] is mapped linearly onto the hue circle
//! [0, 360) with full saturation and half lightness, then converted to RGB by
//! the standard six-sector rule and scaled to [0, 255] by truncation.
//!
//! Frequencies are measured in integer milli-hertz so that the whole mapping
//! is exact: with saturation 1 and lightness 1/2, chroma is 1, the offset is
//! 0, and the only non-constant channel is `x = 1 - |((hue/60) mod 2) - 1|`,
//! a rational number with denominator 3_330_000 in milli-hertz.
//!
//! Policy for out-of-range inputs: the frequency is clamped to
//! [20_000, 20_000_000] milli-hertz before mapping.

use vstd::prelude::*;

verus! {

/// Lowest frequency of the hue ramp, in milli-hertz (20 Hz).
pub const MIN_FREQUENCY_MHZ: u64 = 20_000;

/// Highest frequency of the hue ramp, in milli-hertz (20 kHz).
pub const MAX_FREQUENCY_MHZ: u64 = 20_000_000;

/// Milli-hertz covered by one 60-degree hue sector:
/// (20_000_000 - 20_000) / 6.
pub const SECTOR_MHZ: u64 = 3_330_000;

/// The input frequency clamped to the mapped range.
pub open spec fn clamp_mhz(mhz: u64) -> u64 {
    if mhz < MIN_FREQUENCY_MHZ {
        MIN_FREQUENCY_MHZ
    } else if mhz > MAX_FREQUENCY_MHZ {
        MAX_FREQUENCY_MHZ
    } else {
        mhz
    }
}

/// Offset of the clamped frequency above the bottom of the hue ramp,
/// in milli-hertz. Ranges over [0, 19_980_000].
pub open spec fn hue_offset(mhz: u64) -> int {
    clamp_mhz(mhz) - MIN_FREQUENCY_MHZ
}

/// Numerator of the triangular-wave channel value `x` over the denominator
/// `SECTOR_MHZ`: x rises from 0 to 1 over one sector, falls back over the
/// next.
pub open spec fn tri_num(q: int) -> int {
    let t = q % (2 * SECTOR_MHZ as int);
    if t <= SECTOR_MHZ as int {
        t
    } else {
        2 * SECTOR_MHZ as int - t
    }
}

/// The non-constant RGB channel: `255 * x`, truncated.
pub open spec fn x_channel(q: int) -> int {
    255 * tri_num(q) / (SECTOR_MHZ as int)
}

/// The RGB triple for a frequency in milli-hertz: hue sector selects which
/// channels carry chroma (255), zero (0), and the triangular value.
pub open spec fn rgb_spec(mhz: u64) -> (int, int, int) {
    let q = hue_offset(mhz);
    let s = q / (SECTOR_MHZ as int);
    let x = x_channel(q);
    if s == 0 {
        (255, x, 0)
    } else if s == 1 {
        (x, 255, 0)
    } else if s == 2 {
        (0, 255, x)
    } else if s == 3 {
        (0, x, 255)
    } else if s == 4 {
        (x, 0, 255)
    } else {
        (255, 0, x)
    }
}

/// Every channel of the mapped color is a valid 8-bit value, for every
/// input frequency, in or out of the nominal [20 Hz, 20 kHz] range.
pub proof fn lemma_rgb_channels_bounded(mhz: u64)
    ensures
        0 <= rgb_spec(mhz).0 <= 255,
        0 <= rgb_spec(mhz).1 <= 255,
        0 <= rgb_spec(mhz).2 <= 255,
{
    let q = hue_offset(mhz);
    lemma_x_channel_bounded(q);
}

/// The triangular channel value stays within [0, 255].
proof fn lemma_x_channel_bounded(q: int)
    requires
        q >= 0,
    ensures
        0 <= x_channel(q) <= 255,
{
    let t = q % (2 * SECTOR_MHZ as int);
    assert(0 <= t < 2 * SECTOR_MHZ as int) by {
        vstd::arithmetic::div_mod::lemma_mod_bound(q, 2 * SECTOR_MHZ as int);
    }
    let n = tri_num(q);
    assert(0 <= n <= SECTOR_MHZ as int);
    assert(0 <= 255 * n <= 255 * SECTOR_MHZ as int) by (nonlinear_arith)
        requires
            0 <= n <= SECTOR_MHZ as int,
    ;
    assert(255 * n / (SECTOR_MHZ as int) <= 255 * SECTOR_MHZ as int / (SECTOR_MHZ as int)) by {
        vstd::arithmetic::div_mod::lemma_div_is_ordered(
            255 * n,
            255 * SECTOR_MHZ as int,
            SECTOR_MHZ as int,
        );
    }
    assert(255 * SECTOR_MHZ as int / (SECTOR_MHZ as int) == 255) by (nonlinear_arith);
    assert(255 * n / (SECTOR_MHZ as int) >= 0) by {
        vstd::arithmetic::div_mod::lemma_div_pos_is_pos(255 * n, SECTOR_MHZ as int);
    }
}

/// Converts a dominant frequency, in milli-hertz, to its RGB color.
///
/// Pure: no state, no failure. Inputs outside [20 Hz, 20 kHz] are clamped
/// to the range boundary before mapping.
pub fn rgb(mhz: u64) -> (c: [u8; 3])
    ensures
        c@[0] == rgb_spec(mhz).0,
        c@[1] == rgb_spec(mhz).1,
        c@[2] == rgb_spec(mhz).2,
{
    let f = if mhz < MIN_FREQUENCY_MHZ {
        MIN_FREQUENCY_MHZ
    } else if mhz > MAX_FREQUENCY_MHZ {
        MAX_FREQUENCY_MHZ
    } else {
        mhz
    };
    let q = f - MIN_FREQUENCY_MHZ;
    let s = q / SECTOR_MHZ;
    let t = q % (2 * SECTOR_MHZ);
    let n = if t <= SECTOR_MHZ {
        t
    } else {
        2 * SECTOR_MHZ - t
    };
    proof {
        lemma_x_channel_bounded(q as int);
    }
    let x = ((255 * n) / SECTOR_MHZ) as u8;
    if s == 0 {
        [255, x, 0]
    } else if s == 1 {
        [x, 255, 0]
    } else if s == 2 {
        [0, 255, x]
    } else if s == 3 {
        [0, x, 255]
    } else if s == 4 {
        [x, 0, 255]
    } else {
        [255, 0, x]
    }
}

} // verus!
