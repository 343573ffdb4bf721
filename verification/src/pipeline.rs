//! The per-frame consumer stage and the color-cycle mode.
//!
//! `process_frame` is one step of the fused analyze–normalize–map stage:
//! dominant bin out of the frame's magnitudes, brightness out of the
//! normalizer, color out of the frequency. The surrounding loop — receiving
//! frames from the capture stage and forwarding results to the dispatcher —
//! runs outside the library.
//!
//! The cycle mode replaces frequency-mapped color by a palette that changes
//! on a counter, with brightness from the frame's mean loudness.

use vstd::prelude::*;
use rand::Rng;
use crate::bright::{norm_result, wf, BrightNorm};
use crate::color::{rgb, rgb_spec};
use crate::spectrum::{bin_mhz, dominant, SpectrumSample};

verus! {

/// One step of the fused consumer stage: the dominant spectrum sample of a
/// frame's magnitudes, the brightness the normalizer assigns to it, and the
/// color its frequency maps to.
pub fn process_frame(norm: &mut BrightNorm, mags: &Vec<u32>) -> (out: (SpectrumSample, u8, [u8; 3]))
    requires
        wf(old(norm)@),
    ensures
        wf(final(norm)@),
        forall|j: int| 1 <= j < mags@.len() / 2 ==> mags@[j] <= out.0.mag,
        out.0.mag > 0 ==> exists|b: int|
            1 <= b < mags@.len() / 2 && mags@[b] == out.0.mag && (forall|j: int|
                b < j < mags@.len() / 2 ==> mags@[j] < out.0.mag) && out.0.freq_mhz == bin_mhz(
                b,
                mags@.len() as int,
            ),
        out.0.mag == 0 ==> out.0.freq_mhz == 0,
        final(norm)@ == norm_result(old(norm)@, out.0.mag).0,
        out.1 == norm_result(old(norm)@, out.0.mag).1,
        out.2@[0] == rgb_spec(out.0.freq_mhz).0,
        out.2@[1] == rgb_spec(out.0.freq_mhz).1,
        out.2@[2] == rgb_spec(out.0.freq_mhz).2,
{
    let sample = dominant(mags);
    let brightness = norm.norm(sample.mag);
    let color = rgb(sample.freq_mhz);
    (sample, brightness, color)
}

/// One output of the cycle mode: a brightness update or a color change.
#[derive(Debug, Clone, Copy)]
pub enum Cycle {
    Brightness(u8),
    Color([u8; 3]),
}

/// The fixed color palette the cycle mode walks through, by index.
pub open spec fn cycle_palette(i: int) -> Seq<u8> {
    if i == 0 {
        seq![255u8, 0u8, 0u8]
    } else if i == 1 {
        seq![255u8, 0u8, 213u8]
    } else if i == 2 {
        seq![94u8, 0u8, 255u8]
    } else if i == 3 {
        seq![0u8, 26u8, 255u8]
    } else if i == 4 {
        seq![0u8, 213u8, 255u8]
    } else if i == 5 {
        seq![26u8, 255u8, 0u8]
    } else {
        seq![255u8, 111u8, 0u8]
    }
}

/// Number of palette entries.
pub const PALETTE_LEN: usize = 7;

/// The palette entry at an index.
fn palette(i: usize) -> (c: [u8; 3])
    requires
        i < PALETTE_LEN,
    ensures
        c@ == cycle_palette(i as int),
{
    let c: [u8; 3] = if i == 0 {
        [255, 0, 0]
    } else if i == 1 {
        [255, 0, 213]
    } else if i == 2 {
        [94, 0, 255]
    } else if i == 3 {
        [0, 26, 255]
    } else if i == 4 {
        [0, 213, 255]
    } else if i == 5 {
        [26, 255, 0]
    } else {
        [255, 111, 0]
    };
    proof {
        assert(c@ =~= cycle_palette(i as int));
    }
    c
}

/// Relies on rand::thread_rng and rand::Rng::gen_range: a draw from the
/// nonempty range `0..n` lies in it. Nothing more is promised of a random
/// draw.
#[verifier::external_body]
fn rand_below(n: usize) -> (r: usize)
    requires
        n >= 1,
    ensures
        r < n,
{
    rand::thread_rng().gen_range(0..n)
}

/// Picks a palette color at random; with a previous index given, the new
/// index always differs from it (the draw is taken from the remaining
/// entries and shifted past the previous index).
pub fn cycle_color(prev: Option<usize>) -> (r: ([u8; 3], usize))
    requires
        prev matches Some(p) ==> p < PALETTE_LEN,
    ensures
        r.1 < PALETTE_LEN,
        prev matches Some(p) ==> r.1 != p,
        r.0@ == cycle_palette(r.1 as int),
{
    let index = match prev {
        Some(p) => {
            let draw = rand_below(PALETTE_LEN - 1);
            if draw >= p {
                draw + 1
            } else {
                draw
            }
        },
        None => rand_below(PALETTE_LEN),
    };
    (palette(index), index)
}

/// Counter value at which the cycle mode changes color instead of
/// brightness.
pub const CYCLE_END: u8 = 255;

/// Control state of the cycle mode: the dispatch counter, the palette color
/// in force, and its index.
pub struct CycleCtl {
    pub count: u8,
    pub color: [u8; 3],
    pub color_index: usize,
}

/// One decision of the cycle mode, for one received frame with mean
/// loudness `vol`: the very first frame announces the initial color; while
/// the counter is below `CYCLE_END` each frame yields a brightness update;
/// at `CYCLE_END` each frame picks a fresh palette color.
pub fn process_cycle_step(ctl: &mut CycleCtl, norm: &mut BrightNorm, vol: u32) -> (c: Cycle)
    requires
        old(ctl).color_index < PALETTE_LEN,
        wf(old(norm)@),
    ensures
        wf(final(norm)@),
        final(ctl).color_index < PALETTE_LEN,
        old(ctl).count == 0 ==> {
            &&& c == Cycle::Color(old(ctl).color)
            &&& final(ctl).count == 1
            &&& final(ctl).color == old(ctl).color
            &&& final(ctl).color_index == old(ctl).color_index
            &&& final(norm)@ == old(norm)@
        },
        0 < old(ctl).count < CYCLE_END ==> {
            &&& c == Cycle::Brightness(norm_result(old(norm)@, vol).1 as u8)
            &&& final(norm)@ == norm_result(old(norm)@, vol).0
            &&& *final(ctl) == *old(ctl)
        },
        old(ctl).count >= CYCLE_END ==> {
            &&& c == Cycle::Color(final(ctl).color)
            &&& final(ctl).color@ == cycle_palette(final(ctl).color_index as int)
            &&& final(ctl).color_index != old(ctl).color_index
            &&& final(ctl).count == old(ctl).count
            &&& final(norm)@ == old(norm)@
        },
{
    if ctl.count == 0 {
        let c = Cycle::Color(ctl.color);
        ctl.count = 1;
        c
    } else if ctl.count < CYCLE_END {
        let brightness = norm.norm(vol);
        Cycle::Brightness(brightness)
    } else {
        let (color, index) = cycle_color(Some(ctl.color_index));
        ctl.color = color;
        ctl.color_index = index;
        Cycle::Color(color)
    }
}

} // verus!
