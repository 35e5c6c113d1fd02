//! The register file: seven named 8-bit general registers plus the flags
//! byte, with named 16-bit paired access. A pair's high byte is always the
//! first-named register and its low byte the second; reading or writing the
//! F register goes through the packed flags byte form.

use vstd::prelude::*;

use crate::flags_register::Flags;
use crate::flags_register::FlagsRegister;
use crate::flags_register::spec_flags_from_byte;
use crate::flags_register::spec_flags_to_byte;
use crate::words::hi_byte;
use crate::words::lo_byte;
use crate::words::word_from_bytes;

verus! {

/// Names the eight 8-bit cells of the register file.
#[derive(Clone, Copy, Debug)]
pub enum RegistersU8 {
    A,
    B,
    C,
    D,
    E,
    F,
    H,
    L,
}

/// Names the three 16-bit register pairs.
#[derive(Clone, Copy, Debug)]
pub enum RegistersU16 {
    BC,
    DE,
    HL,
}

/// Seven 8-bit general registers plus the flags register.
#[derive(Clone, Copy, Debug, PartialEq, Eq, Structural)]
pub struct RegisterBank {
    pub a: u8,
    pub b: u8,
    pub c: u8,
    pub d: u8,
    pub e: u8,
    pub f: FlagsRegister,
    pub h: u8,
    pub l: u8,
}

impl RegisterBank {
    /// The value of one named 8-bit cell; F is read in its packed byte form.
    pub open spec fn spec_get8(self, register: RegistersU8) -> u8 {
        match register {
            RegistersU8::A => self.a,
            RegistersU8::B => self.b,
            RegistersU8::C => self.c,
            RegistersU8::D => self.d,
            RegistersU8::E => self.e,
            RegistersU8::F => spec_flags_to_byte(self.f),
            RegistersU8::H => self.h,
            RegistersU8::L => self.l,
        }
    }

    /// The bank with one named 8-bit cell replaced; writing F unpacks the
    /// byte into the four flags.
    pub open spec fn spec_set8(self, register: RegistersU8, value: u8) -> RegisterBank {
        match register {
            RegistersU8::A => RegisterBank { a: value, ..self },
            RegistersU8::B => RegisterBank { b: value, ..self },
            RegistersU8::C => RegisterBank { c: value, ..self },
            RegistersU8::D => RegisterBank { d: value, ..self },
            RegistersU8::E => RegisterBank { e: value, ..self },
            RegistersU8::F => RegisterBank { f: spec_flags_from_byte(value), ..self },
            RegistersU8::H => RegisterBank { h: value, ..self },
            RegistersU8::L => RegisterBank { l: value, ..self },
        }
    }

    /// The value of a pair: high byte from the first-named register, low
    /// byte from the second.
    pub open spec fn spec_get16(self, register: RegistersU16) -> u16 {
        match register {
            RegistersU16::BC => word_from_bytes(self.c, self.b),
            RegistersU16::DE => word_from_bytes(self.e, self.d),
            RegistersU16::HL => word_from_bytes(self.l, self.h),
        }
    }

    /// The bank with a pair replaced: the word's high byte goes to the
    /// first-named register and its low byte to the second.
    pub open spec fn spec_set16(self, register: RegistersU16, value: u16) -> RegisterBank {
        match register {
            RegistersU16::BC => RegisterBank { b: hi_byte(value), c: lo_byte(value), ..self },
            RegistersU16::DE => RegisterBank { d: hi_byte(value), e: lo_byte(value), ..self },
            RegistersU16::HL => RegisterBank { h: hi_byte(value), l: lo_byte(value), ..self },
        }
    }

    /// The value of one named condition flag.
    pub open spec fn spec_get_flag(self, flag_type: Flags) -> bool {
        match flag_type {
            Flags::ZERO => self.f.zero,
            Flags::SUBTRACT => self.f.subtract,
            Flags::HALF_CARRY => self.f.half_carry,
            Flags::CARRY => self.f.carry,
        }
    }

    /// The bank with one named condition flag replaced.
    pub open spec fn spec_set_flag(self, flag_type: Flags, value: bool) -> RegisterBank {
        match flag_type {
            Flags::ZERO => RegisterBank { f: FlagsRegister { zero: value, ..self.f }, ..self },
            Flags::SUBTRACT => RegisterBank {
                f: FlagsRegister { subtract: value, ..self.f },
                ..self
            },
            Flags::HALF_CARRY => RegisterBank {
                f: FlagsRegister { half_carry: value, ..self.f },
                ..self
            },
            Flags::CARRY => RegisterBank { f: FlagsRegister { carry: value, ..self.f }, ..self },
        }
    }

    /// A fresh register file with every cell zero and every flag clear.
    pub fn new() -> (r: Self)
        ensures
            r == (RegisterBank {
                a: 0u8,
                b: 0u8,
                c: 0u8,
                d: 0u8,
                e: 0u8,
                f: FlagsRegister { zero: false, subtract: false, half_carry: false, carry: false },
                h: 0u8,
                l: 0u8,
            }),
    {
        RegisterBank {
            a: 0,
            b: 0,
            c: 0,
            d: 0,
            e: 0,
            f: FlagsRegister::new(),
            h: 0,
            l: 0,
        }
    }

    pub fn get_register_u8(&self, register: RegistersU8) -> (r: u8)
        ensures
            r == self.spec_get8(register),
    {
        match register {
            RegistersU8::A => self.a,
            RegistersU8::B => self.b,
            RegistersU8::C => self.c,
            RegistersU8::D => self.d,
            RegistersU8::E => self.e,
            RegistersU8::F => self.f.to_byte(),
            RegistersU8::H => self.h,
            RegistersU8::L => self.l,
        }
    }

    pub fn set_register_u8(&mut self, register: RegistersU8, value: u8)
        ensures
            *final(self) == old(self).spec_set8(register, value),
    {
        match register {
            RegistersU8::A => self.a = value,
            RegistersU8::B => self.b = value,
            RegistersU8::C => self.c = value,
            RegistersU8::D => self.d = value,
            RegistersU8::E => self.e = value,
            RegistersU8::F => self.f = FlagsRegister::from_byte(value),
            RegistersU8::H => self.h = value,
            RegistersU8::L => self.l = value,
        }
    }

    pub fn get_register_u16(&self, register: RegistersU16) -> (r: u16)
        ensures
            r == self.spec_get16(register),
    {
        match register {
            RegistersU16::BC => (self.b as u16) * 256 + (self.c as u16),
            RegistersU16::DE => (self.d as u16) * 256 + (self.e as u16),
            RegistersU16::HL => (self.h as u16) * 256 + (self.l as u16),
        }
    }

    pub fn set_register_u16(&mut self, register: RegistersU16, value: u16)
        ensures
            *final(self) == old(self).spec_set16(register, value),
    {
        let high = (value / 256) as u8;
        let low = (value % 256) as u8;
        match register {
            RegistersU16::BC => {
                self.b = high;
                self.c = low;
            },
            RegistersU16::DE => {
                self.d = high;
                self.e = low;
            },
            RegistersU16::HL => {
                self.h = high;
                self.l = low;
            },
        }
    }

    pub fn get_flag(&self, flag_type: Flags) -> (r: bool)
        ensures
            r == self.spec_get_flag(flag_type),
    {
        match flag_type {
            Flags::ZERO => self.f.get_zero(),
            Flags::SUBTRACT => self.f.get_subtract(),
            Flags::HALF_CARRY => self.f.get_half_carry(),
            Flags::CARRY => self.f.get_carry(),
        }
    }

    pub fn set_flag(&mut self, flag_type: Flags, value: bool)
        ensures
            *final(self) == old(self).spec_set_flag(flag_type, value),
    {
        match flag_type {
            Flags::ZERO => self.f.set_zero(value),
            Flags::SUBTRACT => self.f.set_subtract(value),
            Flags::HALF_CARRY => self.f.set_half_carry(value),
            Flags::CARRY => self.f.set_carry(value),
        }
    }
}

/// Writing a pair and reading the same pair back yields the written word,
/// for every pair and every 16-bit value.
pub proof fn lemma_pair_round_trip(bank: RegisterBank, register: RegistersU16, value: u16)
    ensures
        bank.spec_set16(register, value).spec_get16(register) == value,
{
    crate::words::lemma_word_bytes_round_trip(value);
}

} // verus!
