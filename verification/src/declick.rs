//! The startup fade-in: a gain envelope that rises linearly from silence to
//! unity over a fixed ramp of samples, so playback does not begin with an
//! audible pop.

use vstd::prelude::*;
use crate::fixed::{div_unit, mag, scale_down};

verus! {

/// The declick gain at sample position `pos` of a ramp of `ramp` samples,
/// in Q16: zero at the start, the unit from the end of the ramp on.
pub open spec fn gain_at(pos: int, ramp: int) -> int
    recommends
        0 <= pos,
        1 <= ramp,
{
    if pos >= ramp {
        65536
    } else {
        pos * 65536 / ramp
    }
}

/// The gain stays between silence and unity, starts silent, and is exactly
/// the unit once the ramp has elapsed.
pub proof fn lemma_gain_bounds(pos: int, ramp: int)
    requires
        0 <= pos,
        1 <= ramp,
    ensures
        0 <= gain_at(pos, ramp) <= 65536,
        pos == 0 ==> gain_at(pos, ramp) == 0,
        pos >= ramp ==> gain_at(pos, ramp) == 65536,
{
    if pos < ramp {
        vstd::arithmetic::div_mod::lemma_div_pos_is_pos(pos * 65536, ramp);
        assert(pos * 65536 < ramp * 65536);
        vstd::arithmetic::div_mod::lemma_multiply_divide_lt(pos * 65536, ramp, 65536);
        if pos == 0 {
            vstd::arithmetic::div_mod::lemma_div_multiples_vanish(0, ramp);
            assert(ramp * 0 == 0);
        }
    }
}

/// The gain never decreases as the ramp position advances.
pub proof fn lemma_gain_monotone(p1: int, p2: int, ramp: int)
    requires
        0 <= p1 <= p2,
        1 <= ramp,
    ensures
        gain_at(p1, ramp) <= gain_at(p2, ramp),
{
    lemma_gain_bounds(p1, ramp);
    lemma_gain_bounds(p2, ramp);
    if p1 < ramp && p2 < ramp {
        assert(p1 * 65536 <= p2 * 65536);
        vstd::arithmetic::div_mod::lemma_div_is_ordered(p1 * 65536, p2 * 65536, ramp);
    }
}

/// Core envelope arithmetic on a nonnegative magnitude `sm` and gain `g`:
/// damping never amplifies, respects the linear envelope, and a unit gain
/// passes the value through exactly.
proof fn lemma_envelope_nonneg(sm: int, g: int, pos: int, ramp: int)
    requires
        0 <= sm,
        0 <= g <= 65536,
        1 <= ramp,
        0 <= pos,
        g * ramp <= pos * 65536,
    ensures
        0 <= (sm * g) / 65536 <= sm,
        ((sm * g) / 65536) * ramp <= sm * pos,
        g == 65536 ==> (sm * g) / 65536 == sm,
{
    let sg = sm * g;
    assert(0 <= sm * g && sm * g <= sm * 65536) by (nonlinear_arith)
        requires
            0 <= sm,
            0 <= g <= 65536,
    ;
    vstd::arithmetic::div_mod::lemma_div_pos_is_pos(sg, 65536);
    vstd::arithmetic::div_mod::lemma_div_is_ordered(sg, sm * 65536, 65536);
    vstd::arithmetic::div_mod::lemma_div_multiples_vanish(sm, 65536);
    assert(sm * 65536 == 65536 * sm);
    let q = sg / 65536;
    vstd::arithmetic::div_mod::lemma_fundamental_div_mod(sg, 65536);
    assert(65536 * q <= sg);
    assert(q * ramp <= sm * pos) by (nonlinear_arith)
        requires
            65536 * q <= sm * g,
            g * ramp <= pos * 65536,
            0 <= sm,
            0 <= q,
            1 <= ramp,
            0 <= pos,
            0 <= g,
    ;
}

/// The declick gain times the ramp position never exceeds the elapsed
/// fraction of the unit.
pub proof fn lemma_gain_under_ramp(pos: int, ramp: int)
    requires
        0 <= pos,
        1 <= ramp,
    ensures
        gain_at(pos, ramp) * ramp <= pos * 65536,
{
    if pos >= ramp {
        assert(65536 * ramp <= pos * 65536);
        assert(gain_at(pos, ramp) * ramp <= pos * 65536);
    } else {
        let g = pos * 65536 / ramp;
        vstd::arithmetic::div_mod::lemma_fundamental_div_mod(pos * 65536, ramp);
        vstd::arithmetic::div_mod::lemma_mod_bound(pos * 65536, ramp);
        assert(ramp * g <= pos * 65536);
        assert(g * ramp == ramp * g) by (nonlinear_arith);
        assert(gain_at(pos, ramp) * ramp <= pos * 65536);
    }
}

/// Declick monotonicity: a damped sample is never louder than the raw one,
/// its magnitude stays under the linear envelope `pos / ramp` of the raw
/// magnitude, the very first sample is silent, and once the ramp has
/// elapsed the raw sample passes through unchanged.
pub proof fn lemma_declick_envelope(s: int, pos: int, ramp: int)
    requires
        0 <= pos,
        1 <= ramp,
    ensures
        mag(div_unit(s * gain_at(pos, ramp))) <= mag(s),
        mag(div_unit(s * gain_at(pos, ramp))) * ramp <= mag(s) * pos,
        pos == 0 ==> div_unit(s * gain_at(pos, ramp)) == 0,
        pos >= ramp ==> div_unit(s * gain_at(pos, ramp)) == s,
{
    let g = gain_at(pos, ramp);
    lemma_gain_bounds(pos, ramp);
    lemma_gain_under_ramp(pos, ramp);
    let sm = mag(s);
    assert(sm * g == (if s >= 0 { s * g } else { -(s * g) }) && (s >= 0 ==> s * g >= 0) && (s
        < 0 ==> s * g <= 0)) by (nonlinear_arith)
        requires
            0 <= g,
            sm == (if s >= 0 { s } else { -s }),
    ;
    lemma_envelope_nonneg(sm, g, pos, ramp);
    if s >= 0 {
        assert(div_unit(s * g) == (sm * g) / 65536);
    } else {
        if s * g == 0 {
            assert(sm * g == 0);
            assert(div_unit(s * g) == 0);
            assert((sm * g) / 65536 == 0);
        } else {
            assert(div_unit(s * g) == -((sm * g) / 65536));
        }
    }
    if pos == 0 {
        assert(g == 0);
        assert(s * 0 == 0);
    }
}

/// Applies a Q16 gain to a sample, scaling back down by the unit.
pub fn apply_gain(s: i64, g: i64) -> (r: i64)
    requires
        -65536 <= s <= 65536,
        0 <= g <= 65536,
    ensures
        r == div_unit(s * g),
{
    proof {
        assert(-0x1_0000_0000 <= s * g && s * g <= 0x1_0000_0000) by (nonlinear_arith)
            requires
                -65536 <= s <= 65536,
                0 <= g <= 65536,
        ;
    }
    scale_down(s * g)
}

/// The declick gain for a ramp position, in Q16.
pub fn gain(pos: u32, ramp: u32) -> (g: i64)
    requires
        1 <= ramp,
    ensures
        g == gain_at(pos as int, ramp as int),
        0 <= g <= 65536,
{
    proof {
        lemma_gain_bounds(pos as int, ramp as int);
    }
    if pos >= ramp {
        65536
    } else {
        (((pos as u64) * 65536) / (ramp as u64)) as i64
    }
}

} // verus!
