//! Uniform draws and the odds they are held against.
//!
//! A draw is sixty-four random bits read as the fraction `draw / 2^64` of the
//! unit interval. An event with odds `numerator / denominator` happens when
//! the fraction lies strictly below the odds.

use vstd::prelude::*;

verus! {

/// The number of values a draw can take, `2^64`.
pub open spec fn draw_range() -> int {
    0x1_0000_0000_0000_0000
}

/// Whether the fraction `draw / 2^64` lies strictly below `numerator / denominator`.
pub open spec fn below(draw: u64, numerator: int, denominator: int) -> bool {
    draw * denominator < numerator * draw_range()
}

/// Decides [`below`] for odds given as two 32-bit numbers.
pub fn is_below(draw: u64, numerator: u32, denominator: u32) -> (hit: bool)
    ensures
        hit == below(draw, numerator as int, denominator as int),
{
    let scale: u128 = 0x1_0000_0000_0000_0000u128;
    assert(draw * denominator <= 0xFFFF_FFFF_FFFF_FFFF * 0xFFFF_FFFF) by (nonlinear_arith)
        requires
            draw <= 0xFFFF_FFFF_FFFF_FFFF,
            denominator <= 0xFFFF_FFFF,
    ;
    assert(numerator * scale <= 0xFFFF_FFFF * 0x1_0000_0000_0000_0000) by (nonlinear_arith)
        requires
            numerator <= 0xFFFF_FFFF,
            scale == 0x1_0000_0000_0000_0000,
    ;
    (draw as u128) * (denominator as u128) < (numerator as u128) * scale
}

/// Sixty-four bits from the thread-local generator, `rand::random::<u64>()`.
///
/// Nothing is claimed of the value: every caller is proved for all of them.
#[verifier::external_body]
pub(crate) fn random_bits() -> (bits: u64) {
    rand::random::<u64>()
}

} // verus!
