//! Byte and word helpers: splitting 16-bit values into bytes, building them
//! back, and the even-parity predicate used by the condition flags.

use vstd::prelude::*;

verus! {

/// The 16-bit value with the given high and low bytes.
pub open spec fn word(hi: u8, lo: u8) -> u16 {
    (hi * 256 + lo) as u16
}

/// High byte of a 16-bit value.
pub open spec fn hi8(w: u16) -> u8 {
    (w / 256) as u8
}

/// Low byte of a 16-bit value.
pub open spec fn lo8(w: u16) -> u8 {
    (w % 256) as u8
}

/// A word is exactly its two bytes put back together.
pub proof fn lemma_word_split(w: u16)
    ensures
        word(hi8(w), lo8(w)) == w,
{
    assert(w / 256 * 256 + w % 256 == w) by (nonlinear_arith);
}

/// Splitting a word built from two bytes gives those bytes back.
pub proof fn lemma_word_parts(hi: u8, lo: u8)
    ensures
        hi8(word(hi, lo)) == hi,
        lo8(word(hi, lo)) == lo,
{
    assert((hi * 256 + lo) / 256 == hi) by (nonlinear_arith);
    assert((hi * 256 + lo) % 256 == lo) by (nonlinear_arith);
}

/// Number of set bits in a byte.
pub open spec fn popcount8(x: u8) -> int {
    x % 2 + x / 2 % 2 + x / 4 % 2 + x / 8 % 2 + x / 16 % 2 + x / 32 % 2 + x / 64 % 2 + x / 128 % 2
}

/// The parity condition: true when the byte has an even number of set bits.
pub open spec fn parity_even(x: u8) -> bool {
    popcount8(x) % 2 == 0
}

/// Computes the parity condition for a byte.
pub fn parity(x: u8) -> (r: bool)
    ensures
        r == parity_even(x),
{
    let cnt: u8 = x % 2 + x / 2 % 2 + x / 4 % 2 + x / 8 % 2 + x / 16 % 2 + x / 32 % 2 + x / 64
        % 2 + x / 128 % 2;
    cnt % 2 == 0
}

} // verus!
