//! Behavioural tests of the noise engine: determinism of reset,
//! boundedness over long runs, and the declick envelope.

use make_noise::engine::NoiseEngine;
use make_noise::pink::PinkChannel;

#[test]
fn reset_is_deterministic() {
    let mut a = NoiseEngine::new(44100);
    let mut b = NoiseEngine::new(44100);
    for _ in 0..1000 {
        assert_eq!(a.next(), b.next());
    }
}

#[test]
fn reset_discards_history() {
    let mut a = NoiseEngine::new(44100);
    let mut reference: Vec<(i64, i64)> = Vec::new();
    for _ in 0..64 {
        reference.push(a.next());
    }
    // After an arbitrary amount of further output, a reset at the same rate
    // restarts the very same sequence.
    for _ in 0..777 {
        a.next();
    }
    a.reset(44100);
    for k in 0..64 {
        assert_eq!(a.next(), reference[k]);
    }
}

#[test]
fn output_stays_bounded_for_a_million_samples() {
    let mut engine = NoiseEngine::new(48000);
    for _ in 0..1_000_000u32 {
        let (l, r) = engine.next();
        assert!(-65536 <= l && l <= 65536);
        assert!(-65536 <= r && r <= 65536);
    }
}

#[test]
fn channels_are_decorrelated() {
    // The two channels use different seeds, so their streams differ.
    let mut engine = NoiseEngine::new(100);
    let mut equal: u32 = 0;
    for _ in 0..1000 {
        let (l, r) = engine.next();
        if l == r {
            equal += 1;
        }
    }
    assert!(equal < 1000);
}

#[test]
fn first_sample_is_silent() {
    let mut engine = NoiseEngine::new(44100);
    assert_eq!(engine.next(), (0, 0));
}

#[test]
fn declick_envelope_holds_and_reaches_unity() {
    // A tiny ramp of 8 samples: before the ramp ends the damped output is
    // at most the fraction i/8 of the raw magnitude; from sample 8 on the
    // raw pink samples pass through unchanged.
    let ramp: i64 = 8;
    let mut engine = NoiseEngine::new(ramp as u32);
    let mut left = PinkChannel::new(make_noise::engine::LEFT_SEED);
    let mut right = PinkChannel::new(make_noise::engine::RIGHT_SEED);
    for i in 0..40i64 {
        let (l, r) = engine.next();
        let raw_l = left.next();
        let raw_r = right.next();
        if i >= ramp {
            assert_eq!(l, raw_l);
            assert_eq!(r, raw_r);
        } else {
            assert!(l.abs() * ramp <= raw_l.abs() * i);
            assert!(r.abs() * ramp <= raw_r.abs() * i);
        }
    }
}

#[test]
fn declick_gain_is_monotone() {
    let ramp: u32 = 1000;
    let mut prev: i64 = make_noise::declick::gain(0, ramp);
    assert_eq!(prev, 0);
    for pos in 1..=ramp {
        let g = make_noise::declick::gain(pos, ramp);
        assert!(g >= prev);
        prev = g;
    }
    assert_eq!(prev, 65536);
    assert_eq!(make_noise::declick::gain(2000, ramp), 65536);
}
