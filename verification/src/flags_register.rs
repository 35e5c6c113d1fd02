//! The flags model: four boolean condition flags packed into the high nibble
//! of a status byte, with zero, subtract, half-carry, and carry at fixed bit
//! positions 7, 6, 5, and 4. The boolean form and the byte form round-trip
//! exactly, and the packed byte's low nibble is always zero.

use vstd::prelude::*;

verus! {

/// Names the four condition flags.
#[allow(non_camel_case_types)]
#[derive(Clone, Copy, Debug)]
pub enum Flags {
    ZERO,
    SUBTRACT,
    HALF_CARRY,
    CARRY,
}

/// The boolean form of the status byte: one independent boolean per flag.
#[derive(Clone, Copy, Debug, PartialEq, Eq, Structural)]
pub struct FlagsRegister {
    pub zero: bool,
    pub subtract: bool,
    pub half_carry: bool,
    pub carry: bool,
}

/// The packed byte form: each flag ORed in at its fixed bit position
/// (zero at 7, subtract at 6, half-carry at 5, carry at 4), zero elsewhere.
pub open spec fn spec_flags_to_byte(f: FlagsRegister) -> u8 {
    ((if f.zero {
        1u8
    } else {
        0u8
    }) << 7) | ((if f.subtract {
        1u8
    } else {
        0u8
    }) << 6) | ((if f.half_carry {
        1u8
    } else {
        0u8
    }) << 5) | ((if f.carry {
        1u8
    } else {
        0u8
    }) << 4)
}

/// Each flag read back by masking its own bit position, independently of the
/// other three.
pub open spec fn spec_flags_from_byte(byte: u8) -> FlagsRegister {
    FlagsRegister {
        zero: (byte >> 7) & 1 != 0,
        subtract: (byte >> 6) & 1 != 0,
        half_carry: (byte >> 5) & 1 != 0,
        carry: (byte >> 4) & 1 != 0,
    }
}

impl FlagsRegister {
    /// A fresh flags register with every flag clear.
    pub fn new() -> (r: Self)
        ensures
            r == (FlagsRegister { zero: false, subtract: false, half_carry: false, carry: false }),
    {
        FlagsRegister { zero: false, subtract: false, half_carry: false, carry: false }
    }

    /// Packs the four flags into the status byte form.
    pub fn to_byte(&self) -> (r: u8)
        ensures
            r == spec_flags_to_byte(*self),
    {
        ((if self.zero {
            1u8
        } else {
            0u8
        }) << 7) | ((if self.subtract {
            1u8
        } else {
            0u8
        }) << 6) | ((if self.half_carry {
            1u8
        } else {
            0u8
        }) << 5) | ((if self.carry {
            1u8
        } else {
            0u8
        }) << 4)
    }

    /// Extracts the four flags from a status byte, each from its own bit.
    pub fn from_byte(byte: u8) -> (r: Self)
        ensures
            r == spec_flags_from_byte(byte),
    {
        FlagsRegister {
            zero: (byte >> 7) & 1 != 0,
            subtract: (byte >> 6) & 1 != 0,
            half_carry: (byte >> 5) & 1 != 0,
            carry: (byte >> 4) & 1 != 0,
        }
    }

    pub fn get_zero(&self) -> (r: bool)
        ensures
            r == self.zero,
    {
        self.zero
    }

    pub fn get_subtract(&self) -> (r: bool)
        ensures
            r == self.subtract,
    {
        self.subtract
    }

    pub fn get_half_carry(&self) -> (r: bool)
        ensures
            r == self.half_carry,
    {
        self.half_carry
    }

    pub fn get_carry(&self) -> (r: bool)
        ensures
            r == self.carry,
    {
        self.carry
    }

    pub fn set_zero(&mut self, value: bool)
        ensures
            *final(self) == (FlagsRegister { zero: value, ..*old(self) }),
    {
        self.zero = value
    }

    pub fn set_subtract(&mut self, value: bool)
        ensures
            *final(self) == (FlagsRegister { subtract: value, ..*old(self) }),
    {
        self.subtract = value
    }

    pub fn set_half_carry(&mut self, value: bool)
        ensures
            *final(self) == (FlagsRegister { half_carry: value, ..*old(self) }),
    {
        self.half_carry = value
    }

    pub fn set_carry(&mut self, value: bool)
        ensures
            *final(self) == (FlagsRegister { carry: value, ..*old(self) }),
    {
        self.carry = value
    }
}

/// Packing the four flags and unpacking the byte gives the flags back
/// unchanged, for every combination of the four booleans, and the packed
/// byte never has any of bits 0 through 3 set.
pub proof fn lemma_flags_round_trip(f: FlagsRegister)
    ensures
        spec_flags_from_byte(spec_flags_to_byte(f)) == f,
        spec_flags_to_byte(f) & 0x0F == 0,
{
    let z: u8 = if f.zero {
        1
    } else {
        0
    };
    let s: u8 = if f.subtract {
        1
    } else {
        0
    };
    let h: u8 = if f.half_carry {
        1
    } else {
        0
    };
    let c: u8 = if f.carry {
        1
    } else {
        0
    };
    assert(z <= 1 && s <= 1 && h <= 1 && c <= 1 ==> {
        let b = (z << 7) | (s << 6) | (h << 5) | (c << 4);
        ((b >> 7) & 1 == z) && ((b >> 6) & 1 == s) && ((b >> 5) & 1 == h) && ((b >> 4) & 1 == c)
            && (b & 0x0F == 0)
    }) by (bit_vector);
    assert(spec_flags_to_byte(f) == (z << 7) | (s << 6) | (h << 5) | (c << 4));
}

} // verus!
