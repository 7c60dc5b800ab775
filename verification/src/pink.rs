//! Pink-noise synthesis for one channel: white noise filtered through three
//! first-order recursive poles whose combined magnitude response
//! approximates a -3 dB/octave slope, computed in Q16 fixed point.

use vstd::prelude::*;
use crate::fixed::{div_unit, lemma_div_unit_bound, mag, scale_down};
use crate::rng::{lemma_white_bounded, rng_next, rng_step, white_of, white_sample};

verus! {

/// Feedback coefficients of the three poles, in Q16.
pub const FB0: i64 = 65382;

pub const FB1: i64 = 63111;

pub const FB2: i64 = 37355;

/// Input coefficients of the three poles, in Q16.
pub const IN0: i64 = 6492;

pub const IN1: i64 = 19433;

pub const IN2: i64 = 68990;

/// Direct white-noise coefficient, in Q16.
pub const DIRECT: i64 = 12112;

/// Final normalisation gain, in Q16.
pub const NORM: i64 = 1241;

/// Largest magnitude each pole state can reach while the white input stays
/// within one unit.
pub const BOUND0: i64 = 2762726;

pub const BOUND1: i64 = 525180;

pub const BOUND2: i64 = 160439;

/// Largest magnitude of the undamped pink sample.
pub const OUT_BOUND: i64 = 65527;

/// The mathematical state of one pink channel.
pub struct ChannelModel {
    pub rng: u64,
    pub b0: int,
    pub b1: int,
    pub b2: int,
}

/// One pink channel: a white-noise generator and three filter poles.
pub struct PinkChannel {
    pub rng: u64,
    pub b0: i64,
    pub b1: i64,
    pub b2: i64,
}

impl View for PinkChannel {
    type V = ChannelModel;

    open spec fn view(&self) -> ChannelModel {
        ChannelModel { rng: self.rng, b0: self.b0 as int, b1: self.b1 as int, b2: self.b2 as int }
    }
}

/// The pole states stay within their steady bounds.
pub open spec fn channel_wf(c: ChannelModel) -> bool {
    &&& mag(c.b0) <= BOUND0
    &&& mag(c.b1) <= BOUND1
    &&& mag(c.b2) <= BOUND2
}

/// The channel state after one synthesis step.
pub open spec fn channel_next(c: ChannelModel) -> ChannelModel {
    let x = rng_next(c.rng);
    let w = white_of(x);
    ChannelModel {
        rng: x,
        b0: div_unit(FB0 * c.b0 + IN0 * w),
        b1: div_unit(FB1 * c.b1 + IN1 * w),
        b2: div_unit(FB2 * c.b2 + IN2 * w),
    }
}

/// The undamped pink sample produced by the step that moves `c` to
/// `channel_next(c)`.
pub open spec fn channel_out(c: ChannelModel) -> int {
    let n = channel_next(c);
    let w = white_of(n.rng);
    div_unit((n.b0 + n.b1 + n.b2 + div_unit(DIRECT * w)) * NORM)
}

/// One step keeps the filter well formed and its output within
/// `[-OUT_BOUND, OUT_BOUND]`: the recursion can never grow without bound.
pub proof fn lemma_channel_step_bounds(c: ChannelModel)
    requires
        channel_wf(c),
    ensures
        channel_wf(channel_next(c)),
        mag(channel_out(c)) <= OUT_BOUND,
{
    let x = rng_next(c.rng);
    let w = white_of(x);
    lemma_white_bounded(x);
    let n = channel_next(c);
    lemma_div_unit_bound(FB0 * c.b0 + IN0 * w, 181058011044);
    assert(mag(n.b0) <= BOUND0);
    lemma_div_unit_bound(FB1 * c.b1 + IN1 * w, 34418196068);
    assert(mag(n.b1) <= BOUND1);
    lemma_div_unit_bound(FB2 * c.b2 + IN2 * w, 10514527485);
    assert(mag(n.b2) <= BOUND2);
    lemma_div_unit_bound(DIRECT * w, 793772032);
    assert(mag(div_unit(DIRECT * w)) <= DIRECT);
    lemma_div_unit_bound((n.b0 + n.b1 + n.b2 + div_unit(DIRECT * w)) * NORM, 4294427137);
}

impl PinkChannel {
    /// A fresh, silent channel with the given white-noise seed.
    pub fn new(seed: u64) -> (c: PinkChannel)
        ensures
            c@ == (ChannelModel { rng: seed, b0: 0, b1: 0, b2: 0 }),
            channel_wf(c@),
    {
        PinkChannel { rng: seed, b0: 0, b1: 0, b2: 0 }
    }

    /// Draws one white sample and advances the three poles, returning the
    /// undamped pink sample.
    pub fn next(&mut self) -> (s: i64)
        requires
            channel_wf(old(self)@),
        ensures
            final(self)@ == channel_next(old(self)@),
            channel_wf(final(self)@),
            s == channel_out(old(self)@),
            -OUT_BOUND <= s <= OUT_BOUND,
    {
        proof {
            lemma_channel_step_bounds(self@);
        }
        let x = rng_step(self.rng);
        let w = white_sample(x);
        self.rng = x;
        self.b0 = scale_down(FB0 * self.b0 + IN0 * w);
        self.b1 = scale_down(FB1 * self.b1 + IN1 * w);
        self.b2 = scale_down(FB2 * self.b2 + IN2 * w);
        let direct = scale_down(DIRECT * w);
        let sum = self.b0 + self.b1 + self.b2 + direct;
        scale_down(sum * NORM)
    }
}

} // verus!
