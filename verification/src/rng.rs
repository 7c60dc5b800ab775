//! The white-noise source: a xorshift pseudo-random generator and the
//! centred fixed-point draw taken from its state.

use vstd::prelude::*;

verus! {

/// One step of the xorshift generator on a 64-bit state.
pub open spec fn rng_next(x: u64) -> u64 {
    let a = x ^ (x << 13);
    let b = a ^ (a >> 7);
    b ^ (b << 17)
}

/// The white-noise draw for a generator state: the top 17 bits, centred,
/// a value in `[-UNIT, UNIT - 1]`.
pub open spec fn white_of(x: u64) -> int {
    (x >> 47) - 65536
}

pub proof fn lemma_white_bounded(x: u64)
    ensures
        -65536 <= white_of(x) <= 65535,
{
    assert(x >> 47 <= 0x1_FFFF) by (bit_vector);
}

/// Advances the generator state.
pub fn rng_step(x: u64) -> (r: u64)
    ensures
        r == rng_next(x),
{
    let a = x ^ (x << 13);
    let b = a ^ (a >> 7);
    b ^ (b << 17)
}

/// The centred white sample for a generator state.
pub fn white_sample(x: u64) -> (w: i64)
    ensures
        w == white_of(x),
        -65536 <= w <= 65535,
{
    proof {
        lemma_white_bounded(x);
    }
    ((x >> 47) as i64) - 65536
}

} // verus!
