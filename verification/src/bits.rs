//! Single bits and small fields of the eight-bit hardware registers.

use vstd::prelude::*;

verus! {

/// Bit `i` of `reg`, counted from the least significant bit.
pub open spec fn bit(reg: u8, i: u8) -> bool {
    (reg >> i) & 1 == 1
}

/// Reads bit `i` of `reg`.
pub fn test_bit(reg: u8, i: u8) -> (b: bool)
    requires
        i < 8,
    ensures
        b == bit(reg, i),
{
    (reg >> i) & 1 == 1
}

/// Bounds of the low bits of a register, and what a register with its low
/// five bits clear holds in each of them.
pub proof fn lemma_bits_of_byte(reg: u8, i: u8)
    by (bit_vector)
    requires
        i < 8,
    ensures
        reg & 0x0f <= 15,
        reg & 0x07 <= 7,
        reg & 0x1f == 0 && i < 5 ==> (reg >> i) & 1 == 0,
{
}

/// The sixteen-bit word stored low byte first.
pub open spec fn le_word(lo: u8, hi: u8) -> u16 {
    (lo as int + 256 * hi as int) as u16
}

proof fn lemma_word_of_bytes(lo: u16, hi: u16)
    by (bit_vector)
    requires
        lo <= 255,
        hi <= 255,
    ensures
        (hi << 8) | lo == lo + 256 * hi,
{
}

/// Joins two bytes into the word they store, low byte first.
pub fn make_word(lo: u8, hi: u8) -> (w: u16)
    ensures
        w == le_word(lo, hi),
{
    proof {
        lemma_word_of_bytes(lo as u16, hi as u16);
    }
    ((hi as u16) << 8) | (lo as u16)
}

} // verus!
