//! Q16 fixed-point amplitudes: the integer 65536 stands for an amplitude
//! of 1.0, so a full-scale sample lies in `[-UNIT, UNIT]`.

use vstd::prelude::*;

verus! {

/// The fixed-point unit: this integer stands for an amplitude of 1.0.
pub const UNIT: i64 = 65536;

/// The magnitude of an integer.
pub open spec fn mag(x: int) -> int {
    if x >= 0 {
        x
    } else {
        -x
    }
}

/// Division by the fixed-point unit, truncating toward zero exactly as
/// Rust's integer division does.
pub open spec fn div_unit(x: int) -> int {
    if x >= 0 {
        x / 65536
    } else {
        -((-x) / 65536)
    }
}

/// Scaling down by the unit never grows a magnitude bound.
pub proof fn lemma_div_unit_bound(x: int, m: int)
    requires
        mag(x) <= m,
    ensures
        mag(div_unit(x)) <= m / 65536,
{
    if x >= 0 {
        vstd::arithmetic::div_mod::lemma_div_is_ordered(x, m, 65536);
    } else {
        vstd::arithmetic::div_mod::lemma_div_is_ordered(-x, m, 65536);
    }
}

/// Divides a Q16 value by the unit, truncating toward zero.
pub fn scale_down(x: i64) -> (r: i64)
    requires
        -0x4000_0000_0000_0000 <= x <= 0x4000_0000_0000_0000,
    ensures
        r == div_unit(x as int),
{
    if x >= 0 {
        ((x as u64) / 65536) as i64
    } else {
        let neg = -x;
        -((((neg as u64) / 65536) as i64))
    }
}

} // verus!
