//! Adaptive brightness normalization.
//!
//! `BrightNorm` maps a stream of peak magnitudes to brightness values in
//! [0, 100]. It keeps a rolling buffer of the most recent magnitudes and an
//! adaptive ceiling:
//!
//! - a sample at or above the ceiling becomes the new ceiling and reads as
//!   full brightness (at startup the ceiling is zero, so every sample is a
//!   fresh maximum);
//! - a sample below the ceiling reads as `round((mag / ceiling) * 0.9 * 100)`,
//!   so near-ceiling, non-peak samples never reach full brightness;
//! - when the buffer fills, the ceiling is reset to the maximum of that
//!   window and the buffer is emptied, so one loud transient does not dim
//!   all future output forever.
//!
//! Magnitudes are integers: the capture stage scales raw spectral magnitudes
//! to a fixed-point scale of the caller's choice before normalization.

use vstd::prelude::*;

verus! {

/// Number of samples in one adaptation window.
pub const WINDOW_RESET: usize = 50;

/// Numerator of the scale factor applied to non-peak samples (0.9 * 100).
pub const SCALE_PERCENT: u64 = 90;

/// Mathematical state of a normalizer: the samples of the current window,
/// the adaptive ceiling, and the window capacity.
#[verifier::ext_equal]
pub struct BrightModel {
    pub buf: Seq<u32>,
    pub ceiling: u32,
    pub cap: nat,
}

/// A normalizer state is well formed when its window capacity is positive
/// and the buffer has room for at least one more sample (the buffer is
/// emptied the moment it fills, so it is never observed full).
pub open spec fn wf(m: BrightModel) -> bool {
    m.cap >= 1 && m.buf.len() < m.cap
}

/// Maximum of a window, 0 when empty.
pub open spec fn buf_max(s: Seq<u32>) -> u32
    decreases s.len(),
{
    if s.len() == 0 {
        0u32
    } else if s.last() >= buf_max(s.drop_last()) {
        s.last()
    } else {
        buf_max(s.drop_last())
    }
}

/// Brightness of a non-peak sample: `mag * 90 / ceiling`, rounded half up.
pub open spec fn round90(mag: u32, ceil: u32) -> int {
    (180 * mag + ceil) / (2 * ceil as int)
}

/// One normalization step: the state after feeding `mag`, and the brightness
/// reported for it.
pub open spec fn norm_result(m: BrightModel, mag: u32) -> (BrightModel, int) {
    let widened = m.buf.push(mag);
    let ceiling2 = if mag >= m.ceiling {
        mag
    } else {
        m.ceiling
    };
    let out = if mag >= m.ceiling {
        100int
    } else {
        round90(mag, m.ceiling)
    };
    if widened.len() == m.cap {
        (BrightModel { buf: Seq::empty(), ceiling: buf_max(widened), cap: m.cap }, out)
    } else {
        (BrightModel { buf: widened, ceiling: ceiling2, cap: m.cap }, out)
    }
}

/// The brightness reported for a non-peak sample stays in [0, 90].
proof fn lemma_round90_bounds(mag: u32, ceil: u32)
    requires
        mag < ceil,
    ensures
        0 <= round90(mag, ceil) <= 90,
{
    let d = 2 * ceil as int;
    let x = 180 * mag + ceil as int;
    vstd::arithmetic::div_mod::lemma_fundamental_div_mod(x, d);
    vstd::arithmetic::div_mod::lemma_mod_bound(x, d);
    let q = x / d;
    assert(x < 91 * d);
    assert(d * q <= x);
    if q > 90 {
        assert(d * q >= d * 91) by (nonlinear_arith)
            requires
                q >= 91,
                d > 0,
        ;
        assert(false);
    }
    vstd::arithmetic::div_mod::lemma_div_pos_is_pos(x, d);
}

/// Every brightness a step reports is in [0, 100].
pub proof fn lemma_norm_output_bounds(m: BrightModel, mag: u32)
    ensures
        0 <= norm_result(m, mag).1 <= 100,
{
    if mag < m.ceiling {
        lemma_round90_bounds(mag, m.ceiling);
    }
}

/// Stateful brightness normalizer.
pub struct BrightNorm {
    buf: Vec<u32>,
    ceiling: u32,
    cap: usize,
}

impl View for BrightNorm {
    type V = BrightModel;

    closed spec fn view(&self) -> BrightModel {
        BrightModel { buf: self.buf@, ceiling: self.ceiling, cap: self.cap as nat }
    }
}

impl BrightNorm {
    /// A fresh normalizer with the standard window size: zero ceiling,
    /// empty window.
    pub fn new() -> (r: BrightNorm)
        ensures
            wf(r@),
            r@.ceiling == 0,
            r@.buf.len() == 0,
            r@.cap == WINDOW_RESET as nat,
    {
        BrightNorm { buf: Vec::new(), ceiling: 0, cap: WINDOW_RESET }
    }

    /// A fresh normalizer with a caller-chosen window size.
    pub fn with_window(cap: usize) -> (r: BrightNorm)
        requires
            cap >= 1,
        ensures
            wf(r@),
            r@.ceiling == 0,
            r@.buf.len() == 0,
            r@.cap == cap as nat,
    {
        BrightNorm { buf: Vec::new(), ceiling: 0, cap }
    }

    /// The current adaptive ceiling.
    pub fn ceiling(&self) -> (c: u32)
        ensures
            c == self@.ceiling,
    {
        self.ceiling
    }

    /// Feeds one magnitude and returns its brightness in [0, 100].
    pub fn norm(&mut self, mag: u32) -> (b: u8)
        requires
            wf(old(self)@),
        ensures
            wf(final(self)@),
            final(self)@ == norm_result(old(self)@, mag).0,
            b == norm_result(old(self)@, mag).1,
            0 <= b <= 100,
    {
        proof {
            lemma_norm_output_bounds(old(self)@, mag);
        }
        self.buf.push(mag);
        let out: u8;
        if mag >= self.ceiling {
            self.ceiling = mag;
            out = 100;
        } else {
            proof {
                lemma_round90_bounds(mag, self.ceiling);
            }
            let wide = (180 * (mag as u64) + (self.ceiling as u64)) / (2 * (self.ceiling as u64));
            out = wide as u8;
        }
        if self.buf.len() == self.cap {
            self.ceiling = max_of(&self.buf);
            self.buf.clear();
            proof {
                assert(final(self)@ =~= norm_result(old(self)@, mag).0);
            }
        } else {
            proof {
                assert(final(self)@ =~= norm_result(old(self)@, mag).0);
            }
        }
        out
    }
}

/// Maximum element of a vector, 0 when empty.
fn max_of(v: &Vec<u32>) -> (m: u32)
    ensures
        m == buf_max(v@),
{
    let mut m: u32 = 0;
    let mut i: usize = 0;
    while i < v.len()
        invariant
            i <= v.len(),
            m == buf_max(v@.subrange(0, i as int)),
        decreases v.len() - i,
    {
        proof {
            assert(v@.subrange(0, i + 1 as int).drop_last() =~= v@.subrange(0, i as int));
            assert(v@.subrange(0, i + 1 as int).last() == v@[i as int]);
        }
        if v[i] > m {
            m = v[i];
        }
        i += 1;
    }
    proof {
        assert(v@.subrange(0, v@.len() as int) =~= v@);
    }
    m
}

/// A state in which the ceiling has locked on to a constant input magnitude:
/// the ceiling equals it and every sample of the current window equals it.
pub open spec fn settled(m: BrightModel, c: u32) -> bool {
    &&& wf(m)
    &&& m.ceiling == c
    &&& forall|i: int| 0 <= i < m.buf.len() ==> m.buf[i] == c
}

/// The state after feeding a constant magnitude `n` times.
pub open spec fn feed_const(m: BrightModel, c: u32, n: nat) -> BrightModel
    decreases n,
{
    if n == 0 {
        m
    } else {
        norm_result(feed_const(m, c, (n - 1) as nat), c).0
    }
}

/// The maximum of an all-`c` window is `c`.
proof fn lemma_buf_max_const(s: Seq<u32>, c: u32)
    requires
        s.len() > 0,
        forall|i: int| 0 <= i < s.len() ==> s[i] == c,
    ensures
        buf_max(s) == c,
    decreases s.len(),
{
    assert(s.last() == c);
    if s.len() == 1 {
        assert(buf_max(s.drop_last()) == 0);
    } else {
        assert(forall|i: int| 0 <= i < s.drop_last().len() ==> s.drop_last()[i] == c);
        lemma_buf_max_const(s.drop_last(), c);
    }
}

/// Law (one step): feeding the magnitude the ceiling is settled at yields
/// full brightness and leaves the state settled at that magnitude.
pub proof fn lemma_settled_step(m: BrightModel, c: u32)
    requires
        settled(m, c),
    ensures
        norm_result(m, c).1 == 100,
        settled(norm_result(m, c).0, c),
{
    let widened = m.buf.push(c);
    if widened.len() == m.cap {
        lemma_buf_max_const(widened, c);
    }
}

/// Law (constant stream): once a constant input magnitude has become the
/// ceiling, the ceiling stays there forever and every later sample reads as
/// full brightness, across any number of window resets.
pub proof fn lemma_constant_stream_settles(m: BrightModel, c: u32, n: nat)
    requires
        settled(m, c),
    ensures
        settled(feed_const(m, c, n), c),
        feed_const(m, c, n).ceiling == c,
        norm_result(feed_const(m, c, n), c).1 == 100,
    decreases n,
{
    if n == 0 {
        lemma_settled_step(m, c);
    } else {
        lemma_constant_stream_settles(m, c, (n - 1) as nat);
        lemma_settled_step(feed_const(m, c, (n - 1) as nat), c);
        lemma_settled_step(feed_const(m, c, n), c);
    }
}

/// Law (startup): from a fresh normalizer, the very first sample of a
/// constant stream reads as full brightness and settles the ceiling at that
/// magnitude; with the stream law, the ceiling then stabilizes there and the
/// output settles at 100 from the first window on.
pub proof fn lemma_fresh_constant_settles(m: BrightModel, c: u32)
    requires
        wf(m),
        m.ceiling == 0,
        m.buf.len() == 0,
    ensures
        norm_result(m, c).1 == 100,
        settled(norm_result(m, c).0, c),
{
    let widened = m.buf.push(c);
    if widened.len() == m.cap {
        lemma_buf_max_const(widened, c);
    }
}

} // verus!
