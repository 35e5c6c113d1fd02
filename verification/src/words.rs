//! Byte and word helpers shared by the register file, the stack, and the
//! execution engine: splitting a 16-bit word into its two bytes, rebuilding
//! a word from a low and a high byte, and 16-bit wraparound arithmetic.

use vstd::prelude::*;

verus! {

/// The low byte of a 16-bit word.
pub open spec fn lo_byte(word: u16) -> u8 {
    (word % 256) as u8
}

/// The high byte of a 16-bit word.
pub open spec fn hi_byte(word: u16) -> u8 {
    (word / 256) as u8
}

/// The 16-bit word with the given low and high bytes.
pub open spec fn word_from_bytes(lo: u8, hi: u8) -> u16 {
    (hi * 256 + lo) as u16
}

/// 16-bit addition that wraps around at the 16-bit boundary.
pub open spec fn wrap_add16(x: u16, y: u16) -> u16 {
    if x + y > 0xFFFF {
        (x + y - 0x10000) as u16
    } else {
        (x + y) as u16
    }
}

/// 16-bit subtraction that wraps around at the 16-bit boundary.
pub open spec fn wrap_sub16(x: u16, y: u16) -> u16 {
    if x - y < 0 {
        (x - y + 0x10000) as u16
    } else {
        (x - y) as u16
    }
}

/// Splitting a word into its two bytes and rebuilding it gives the word back.
pub proof fn lemma_word_bytes_round_trip(word: u16)
    ensures
        word_from_bytes(lo_byte(word), hi_byte(word)) == word,
{
}

} // verus!
