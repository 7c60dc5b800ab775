//! The stereo noise engine: two independently seeded pink channels behind a
//! shared declick envelope, advanced exactly once per output frame.

use vstd::prelude::*;
use crate::declick::{apply_gain, gain, gain_at, lemma_declick_envelope, lemma_gain_bounds};
use crate::fixed::{div_unit, mag};
use crate::pink::{
    channel_next, channel_out, channel_wf, lemma_channel_step_bounds, ChannelModel, PinkChannel,
    OUT_BOUND,
};

verus! {

/// Seed of the left channel's white-noise generator.
pub const LEFT_SEED: u64 = 0x9E3779B97F4A7C15;

/// Seed of the right channel's white-noise generator; differs from the left
/// one so the two channels are decorrelated.
pub const RIGHT_SEED: u64 = 0xD1B54A32D192ED03;

/// The mathematical state of the engine.
pub struct EngineModel {
    pub left: ChannelModel,
    pub right: ChannelModel,
    pub pos: int,
    pub ramp: int,
}

/// The stereo noise engine: per-channel filter state and the declick ramp.
pub struct NoiseEngine {
    pub left: PinkChannel,
    pub right: PinkChannel,
    /// How many samples the declick ramp has consumed, saturating at `ramp`.
    pub pos: u32,
    /// Ramp length in samples: one second at the stream's sample rate.
    pub ramp: u32,
}

impl View for NoiseEngine {
    type V = EngineModel;

    open spec fn view(&self) -> EngineModel {
        EngineModel {
            left: self.left@,
            right: self.right@,
            pos: self.pos as int,
            ramp: self.ramp as int,
        }
    }
}

/// Both filters sit within their steady bounds and the ramp position never
/// passes the ramp length.
pub open spec fn engine_wf(e: EngineModel) -> bool {
    &&& channel_wf(e.left)
    &&& channel_wf(e.right)
    &&& 1 <= e.ramp <= 0xFFFF_FFFF
    &&& 0 <= e.pos <= e.ramp
}

/// The engine state immediately after a reset at the given sample rate.
pub open spec fn reset_model(sample_rate: int) -> EngineModel {
    EngineModel {
        left: ChannelModel { rng: LEFT_SEED, b0: 0, b1: 0, b2: 0 },
        right: ChannelModel { rng: RIGHT_SEED, b0: 0, b1: 0, b2: 0 },
        pos: 0,
        ramp: sample_rate,
    }
}

/// The engine state after producing one sample pair.
pub open spec fn engine_next(e: EngineModel) -> EngineModel {
    EngineModel {
        left: channel_next(e.left),
        right: channel_next(e.right),
        pos: if e.pos < e.ramp {
            e.pos + 1
        } else {
            e.pos
        },
        ramp: e.ramp,
    }
}

/// The declicked stereo pair produced by the step out of `e`.
pub open spec fn engine_out(e: EngineModel) -> (int, int) {
    (
        div_unit(channel_out(e.left) * gain_at(e.pos, e.ramp)),
        div_unit(channel_out(e.right) * gain_at(e.pos, e.ramp)),
    )
}

/// The engine state after `n` sample pairs.
pub open spec fn engine_after(e: EngineModel, n: nat) -> EngineModel
    decreases n,
{
    if n == 0 {
        e
    } else {
        engine_next(engine_after(e, (n - 1) as nat))
    }
}

/// The `n`th stereo pair produced from state `e` on.
pub open spec fn pair_at(e: EngineModel, n: nat) -> (int, int) {
    engine_out(engine_after(e, n))
}

/// One step preserves well-formedness, and the pair it emits stays within
/// `OUT_BOUND`, strictly inside one amplitude unit.
pub proof fn lemma_engine_step_bounds(e: EngineModel)
    requires
        engine_wf(e),
    ensures
        engine_wf(engine_next(e)),
        mag(engine_out(e).0) <= OUT_BOUND,
        mag(engine_out(e).1) <= OUT_BOUND,
{
    lemma_channel_step_bounds(e.left);
    lemma_channel_step_bounds(e.right);
    lemma_gain_bounds(e.pos, e.ramp);
    lemma_declick_envelope(channel_out(e.left), e.pos, e.ramp);
    lemma_declick_envelope(channel_out(e.right), e.pos, e.ramp);
}

/// Boundedness over a whole run: after any number of steps the engine is
/// still well formed and every emitted pair lies within `OUT_BOUND`; no
/// overflow or unbounded gain growth can ever occur.
pub proof fn lemma_engine_run_bounds(e: EngineModel, n: nat)
    requires
        engine_wf(e),
    ensures
        engine_wf(engine_after(e, n)),
        mag(pair_at(e, n).0) <= OUT_BOUND,
        mag(pair_at(e, n).1) <= OUT_BOUND,
    decreases n,
{
    if n > 0 {
        lemma_engine_run_bounds(e, (n - 1) as nat);
        lemma_engine_step_bounds(engine_after(e, (n - 1) as nat));
    }
    lemma_engine_step_bounds(engine_after(e, n));
}

/// Determinism of reset: after a reset the whole output stream is a pure
/// function of the sample rate, so two engines reset at the same rate agree
/// on every later sample pair.
pub proof fn lemma_reset_determinism(r1: EngineModel, r2: EngineModel, sample_rate: int, n: nat)
    requires
        r1 == reset_model(sample_rate),
        r2 == reset_model(sample_rate),
    ensures
        r1 == r2,
        pair_at(r1, n) == pair_at(r2, n),
{
}

/// The ramp length never changes, and the ramp position at step `n` is `n`
/// until the ramp has elapsed and the ramp length from then on.
pub proof fn lemma_ramp_position(e: EngineModel, n: nat)
    requires
        e.pos == 0,
        0 <= e.ramp,
    ensures
        engine_after(e, n).ramp == e.ramp,
        engine_after(e, n).pos == (if n <= e.ramp {
            n as int
        } else {
            e.ramp
        }),
    decreases n,
{
    if n > 0 {
        lemma_ramp_position(e, (n - 1) as nat);
    }
}

/// The declick envelope over a whole run: the pair emitted at step `n` is
/// damped to at most the fraction `n / ramp` of its undamped magnitude, the
/// very first pair is silent, and from the end of the ramp on the undamped
/// samples pass through exactly.
pub proof fn lemma_run_envelope(e: EngineModel, n: nat)
    requires
        engine_wf(e),
        e.pos == 0,
    ensures
        mag(pair_at(e, n).0) * e.ramp <= mag(channel_out(engine_after(e, n).left)) * (
        if n <= e.ramp {
            n as int
        } else {
            e.ramp
        }),
        mag(pair_at(e, n).1) * e.ramp <= mag(channel_out(engine_after(e, n).right)) * (
        if n <= e.ramp {
            n as int
        } else {
            e.ramp
        }),
        n == 0 ==> pair_at(e, n).0 == 0 && pair_at(e, n).1 == 0,
        n >= e.ramp ==> pair_at(e, n).0 == channel_out(engine_after(e, n).left) && pair_at(
            e,
            n,
        ).1 == channel_out(engine_after(e, n).right),
{
    lemma_ramp_position(e, n);
    lemma_engine_run_bounds(e, n);
    let s = engine_after(e, n);
    lemma_declick_envelope(channel_out(s.left), s.pos, s.ramp);
    lemma_declick_envelope(channel_out(s.right), s.pos, s.ramp);
}

impl NoiseEngine {
    /// A fresh engine, reset for the given sample rate.
    pub fn new(sample_rate: u32) -> (e: NoiseEngine)
        requires
            1 <= sample_rate,
        ensures
            e@ == reset_model(sample_rate as int),
            engine_wf(e@),
    {
        NoiseEngine {
            left: PinkChannel::new(LEFT_SEED),
            right: PinkChannel::new(RIGHT_SEED),
            pos: 0,
            ramp: sample_rate,
        }
    }

    /// Reinitialises all synthesis state for the given sample rate,
    /// discarding any prior history.
    pub fn reset(&mut self, sample_rate: u32)
        requires
            1 <= sample_rate,
        ensures
            final(self)@ == reset_model(sample_rate as int),
            engine_wf(final(self)@),
    {
        self.left = PinkChannel::new(LEFT_SEED);
        self.right = PinkChannel::new(RIGHT_SEED);
        self.pos = 0;
        self.ramp = sample_rate;
    }

    /// Produces the next declicked stereo pair and advances all state; runs
    /// in constant time with no allocation, as the real-time callback needs.
    pub fn next(&mut self) -> (out: (i64, i64))
        requires
            engine_wf(old(self)@),
        ensures
            final(self)@ == engine_next(old(self)@),
            engine_wf(final(self)@),
            out.0 == engine_out(old(self)@).0,
            out.1 == engine_out(old(self)@).1,
            -OUT_BOUND <= out.0 <= OUT_BOUND,
            -OUT_BOUND <= out.1 <= OUT_BOUND,
    {
        proof {
            lemma_engine_step_bounds(self@);
        }
        let g = gain(self.pos, self.ramp);
        let l = self.left.next();
        let r = self.right.next();
        let dl = apply_gain(l, g);
        let dr = apply_gain(r, g);
        if self.pos < self.ramp {
            self.pos = self.pos + 1;
        }
        (dl, dr)
    }
}

} // verus!
