//! The instruction decoder: a pure, total mapping from an opcode byte and a
//! "prefixed" flag to a fully-specified instruction descriptor, or to an
//! explicit unmapped result. The prefixed space (reached through the 0xCB
//! marker byte) is completely regular and maps all 256 values; the unprefixed
//! space maps the opcodes this design enumerates and reports every other
//! byte as unmapped rather than guessing.

use vstd::prelude::*;

verus! {

/// Every supported operation, parameterized by its operand descriptors.
#[allow(non_camel_case_types)]
#[derive(Clone, Copy, Debug, PartialEq, Eq, Structural)]
pub enum Instruction {
    ADD(ArithmeticTarget),
    ADDHL(ArithmeticSource),
    ADC(),
    SUB(),
    SBC(),
    AND(),
    OR(),
    XOR(),
    CP(),
    INC(IncDecTarget),
    DEC(IncDecTarget),
    CCF(),
    SCF(),
    RRA(),
    RLA(),
    RRCA,
    RRLA(),
    CPL(),
    BIT(u8, PrefixTarget),
    RST(),
    SET(u8, PrefixTarget),
    SRL(PrefixTarget),
    RR(PrefixTarget),
    RL(PrefixTarget),
    RRC(PrefixTarget),
    RLC(PrefixTarget),
    SRA(PrefixTarget),
    SLA(PrefixTarget),
    SWAP(PrefixTarget),
    JP(JumpTest),
    LD(LoadType),
    CALL(JumpTest),
    RET(JumpTest),
    PUSH(StackTarget),
    POP(StackTarget),
    NOP,
    HALT,
    RES(u8, PrefixTarget),
    RLCA,
    STOP(u8),
}

/// The 8-bit operand of a prefixed (rotate/shift/bit) instruction: a named
/// register, or the memory cell addressed through the HL pair.
#[derive(Clone, Copy, Debug, PartialEq, Eq, Structural)]
pub enum PrefixTarget {
    A,
    B,
    C,
    D,
    E,
    H,
    L,
    HL,
}

/// The target of an increment or decrement: an 8-bit register or a pair.
#[derive(Clone, Copy, Debug, PartialEq, Eq, Structural)]
pub enum IncDecTarget {
    DE,
    A,
    BC,
    B,
    C,
}

/// The 8-bit register read by an arithmetic instruction.
#[derive(Clone, Copy, Debug, PartialEq, Eq, Structural)]
pub enum ArithmeticTarget {
    A,
    B,
    C,
    D,
    E,
    H,
    L,
}

/// The 16-bit pair read by a pair-wide arithmetic instruction.
#[derive(Clone, Copy, Debug, PartialEq, Eq, Structural)]
pub enum ArithmeticSource {
    BC,
}

/// The condition a jump, call, or return evaluates against the flags.
#[derive(Clone, Copy, Debug, PartialEq, Eq, Structural)]
pub enum JumpTest {
    NotZero,
    Zero,
    NotCarry,
    Carry,
    Always,
}

/// Where a load writes: a named register, the cell addressed through HL
/// (`HLI`), a pair, or the address given by an immediate word (`D16`).
#[derive(Clone, Copy, Debug, PartialEq, Eq, Structural)]
pub enum LoadTarget {
    A,
    B,
    C,
    D,
    E,
    H,
    L,
    HLI,
    BC,
    D16,
}

/// Where a load reads: a named register, an immediate byte (`D8`) or word
/// (`D16`), the cell addressed through HL (`HLI`), a pair, or the stack
/// pointer.
#[derive(Clone, Copy, Debug, PartialEq, Eq, Structural)]
pub enum LoadSource {
    A,
    B,
    C,
    D,
    E,
    H,
    L,
    D8,
    HLI,
    BC,
    D16,
    SP,
}

/// The 16-bit pair a stack push or pop moves.
#[derive(Clone, Copy, Debug, PartialEq, Eq, Structural)]
pub enum StackTarget {
    BC,
}

/// The addressing mode of a load, with its target and source descriptors.
#[derive(Clone, Copy, Debug, PartialEq, Eq, Structural)]
pub enum LoadType {
    Byte(LoadTarget, LoadSource),
    Word(LoadTarget, LoadSource),
    AFromIndirect(LoadTarget, LoadSource),
    IndirectFromA(LoadTarget, LoadSource),
    AFromByteAddress(LoadTarget, LoadSource),
    ByteAddressFromA(LoadTarget, LoadSource),
    ByteFromIndirect(LoadTarget, LoadSource),
    IndirectFromByte(LoadTarget, LoadSource),
}

/// The marker byte that switches decoding to the prefixed opcode space.
pub const PREFIX_MARKER: u8 = 0xCB;

/// The operand selected by the low three bits of a prefixed opcode.
pub open spec fn spec_prefix_target(low3: u8) -> PrefixTarget {
    if low3 == 0 {
        PrefixTarget::B
    } else if low3 == 1 {
        PrefixTarget::C
    } else if low3 == 2 {
        PrefixTarget::D
    } else if low3 == 3 {
        PrefixTarget::E
    } else if low3 == 4 {
        PrefixTarget::H
    } else if low3 == 5 {
        PrefixTarget::L
    } else if low3 == 6 {
        PrefixTarget::HL
    } else {
        PrefixTarget::A
    }
}

/// The prefixed opcode space, which is completely regular: the low three
/// bits select the operand, bits 3 through 5 select the rotate/shift kind or
/// the bit index, and the top two bits select among the rotate/shift group,
/// BIT, RES, and SET. Every one of the 256 byte values is mapped.
pub open spec fn spec_decode_prefixed(byte: u8) -> Instruction {
    let target = spec_prefix_target((byte % 8) as u8);
    let selector = ((byte / 8) % 8) as u8;
    if byte < 0x40 {
        if selector == 0 {
            Instruction::RLC(target)
        } else if selector == 1 {
            Instruction::RRC(target)
        } else if selector == 2 {
            Instruction::RL(target)
        } else if selector == 3 {
            Instruction::RR(target)
        } else if selector == 4 {
            Instruction::SLA(target)
        } else if selector == 5 {
            Instruction::SRA(target)
        } else if selector == 6 {
            Instruction::SWAP(target)
        } else {
            Instruction::SRL(target)
        }
    } else if byte < 0x80 {
        Instruction::BIT(selector, target)
    } else if byte < 0xC0 {
        Instruction::RES(selector, target)
    } else {
        Instruction::SET(selector, target)
    }
}

/// The unprefixed opcode space: the opcodes this design enumerates, with
/// every other byte value explicitly unmapped.
pub open spec fn spec_decode_unprefixed(byte: u8) -> Option<Instruction> {
    match byte {
        0x00 => Some(Instruction::NOP),
        0x01 => Some(Instruction::LD(LoadType::Word(LoadTarget::BC, LoadSource::D16))),
        0x02 => Some(Instruction::LD(LoadType::IndirectFromA(LoadTarget::BC, LoadSource::A))),
        0x03 => Some(Instruction::INC(IncDecTarget::BC)),
        0x04 => Some(Instruction::INC(IncDecTarget::B)),
        0x05 => Some(Instruction::DEC(IncDecTarget::B)),
        0x06 => Some(Instruction::LD(LoadType::Byte(LoadTarget::B, LoadSource::D8))),
        0x07 => Some(Instruction::RLCA),
        0x08 => Some(Instruction::LD(LoadType::IndirectFromByte(LoadTarget::D16, LoadSource::SP))),
        0x09 => Some(Instruction::ADDHL(ArithmeticSource::BC)),
        0x0A => Some(Instruction::LD(LoadType::AFromIndirect(LoadTarget::A, LoadSource::BC))),
        0x0B => Some(Instruction::DEC(IncDecTarget::BC)),
        0x0C => Some(Instruction::INC(IncDecTarget::C)),
        0x0D => Some(Instruction::DEC(IncDecTarget::C)),
        0x0E => Some(Instruction::LD(LoadType::Byte(LoadTarget::C, LoadSource::D8))),
        0x0F => Some(Instruction::RRCA),
        0x10 => Some(Instruction::STOP(0)),
        0x13 => Some(Instruction::INC(IncDecTarget::DE)),
        0x36 => Some(Instruction::LD(LoadType::Byte(LoadTarget::HLI, LoadSource::D8))),
        0x3C => Some(Instruction::INC(IncDecTarget::A)),
        0x3E => Some(Instruction::LD(LoadType::Byte(LoadTarget::A, LoadSource::D8))),
        0x70 => Some(Instruction::LD(LoadType::Byte(LoadTarget::HLI, LoadSource::B))),
        0x71 => Some(Instruction::LD(LoadType::Byte(LoadTarget::HLI, LoadSource::C))),
        0x72 => Some(Instruction::LD(LoadType::Byte(LoadTarget::HLI, LoadSource::D))),
        0x73 => Some(Instruction::LD(LoadType::Byte(LoadTarget::HLI, LoadSource::E))),
        0x74 => Some(Instruction::LD(LoadType::Byte(LoadTarget::HLI, LoadSource::H))),
        0x75 => Some(Instruction::LD(LoadType::Byte(LoadTarget::HLI, LoadSource::L))),
        0x76 => Some(Instruction::HALT),
        0x77 => Some(Instruction::LD(LoadType::Byte(LoadTarget::HLI, LoadSource::A))),
        0x78 => Some(Instruction::LD(LoadType::Byte(LoadTarget::A, LoadSource::B))),
        0x79 => Some(Instruction::LD(LoadType::Byte(LoadTarget::A, LoadSource::C))),
        0x7A => Some(Instruction::LD(LoadType::Byte(LoadTarget::A, LoadSource::D))),
        0x7B => Some(Instruction::LD(LoadType::Byte(LoadTarget::A, LoadSource::E))),
        0x7C => Some(Instruction::LD(LoadType::Byte(LoadTarget::A, LoadSource::H))),
        0x7D => Some(Instruction::LD(LoadType::Byte(LoadTarget::A, LoadSource::L))),
        0x7E => Some(Instruction::LD(LoadType::Byte(LoadTarget::A, LoadSource::HLI))),
        0x7F => Some(Instruction::LD(LoadType::Byte(LoadTarget::A, LoadSource::A))),
        0x80 => Some(Instruction::ADD(ArithmeticTarget::B)),
        0x81 => Some(Instruction::ADD(ArithmeticTarget::C)),
        0x82 => Some(Instruction::ADD(ArithmeticTarget::D)),
        0x83 => Some(Instruction::ADD(ArithmeticTarget::E)),
        0x84 => Some(Instruction::ADD(ArithmeticTarget::H)),
        0x85 => Some(Instruction::ADD(ArithmeticTarget::L)),
        0x87 => Some(Instruction::ADD(ArithmeticTarget::A)),
        0xC0 => Some(Instruction::RET(JumpTest::NotZero)),
        0xC1 => Some(Instruction::POP(StackTarget::BC)),
        0xC2 => Some(Instruction::JP(JumpTest::NotZero)),
        0xC3 => Some(Instruction::JP(JumpTest::Always)),
        0xC4 => Some(Instruction::CALL(JumpTest::NotZero)),
        0xC5 => Some(Instruction::PUSH(StackTarget::BC)),
        0xC8 => Some(Instruction::RET(JumpTest::Zero)),
        0xC9 => Some(Instruction::RET(JumpTest::Always)),
        0xCA => Some(Instruction::JP(JumpTest::Zero)),
        0xCC => Some(Instruction::CALL(JumpTest::Zero)),
        0xCD => Some(Instruction::CALL(JumpTest::Always)),
        0xD0 => Some(Instruction::RET(JumpTest::NotCarry)),
        0xD2 => Some(Instruction::JP(JumpTest::NotCarry)),
        0xD4 => Some(Instruction::CALL(JumpTest::NotCarry)),
        0xD8 => Some(Instruction::RET(JumpTest::Carry)),
        0xDA => Some(Instruction::JP(JumpTest::Carry)),
        0xDC => Some(Instruction::CALL(JumpTest::Carry)),
        _ => None,
    }
}

/// The full decode map over both opcode spaces.
pub open spec fn spec_decode(byte: u8, prefixed: bool) -> Option<Instruction> {
    if prefixed {
        Some(spec_decode_prefixed(byte))
    } else {
        spec_decode_unprefixed(byte)
    }
}

impl Instruction {
    /// Decodes one opcode byte in the given opcode space. The result depends
    /// on the byte and the prefix flag alone; no machine state participates.
    pub fn from_byte(byte: u8, prefixed: bool) -> (r: Option<Instruction>)
        ensures
            r == spec_decode(byte, prefixed),
    {
        if prefixed {
            Instruction::from_byte_prefixed(byte)
        } else {
            Instruction::from_byte_not_prefixed(byte)
        }
    }

    fn prefix_target(low3: u8) -> (r: PrefixTarget)
        ensures
            r == spec_prefix_target(low3),
    {
        if low3 == 0 {
            PrefixTarget::B
        } else if low3 == 1 {
            PrefixTarget::C
        } else if low3 == 2 {
            PrefixTarget::D
        } else if low3 == 3 {
            PrefixTarget::E
        } else if low3 == 4 {
            PrefixTarget::H
        } else if low3 == 5 {
            PrefixTarget::L
        } else if low3 == 6 {
            PrefixTarget::HL
        } else {
            PrefixTarget::A
        }
    }

    fn from_byte_prefixed(byte: u8) -> (r: Option<Instruction>)
        ensures
            r == spec_decode(byte, true),
    {
        let target = Instruction::prefix_target(byte % 8);
        let selector: u8 = (byte / 8) % 8;
        let instruction = if byte < 0x40 {
            if selector == 0 {
                Instruction::RLC(target)
            } else if selector == 1 {
                Instruction::RRC(target)
            } else if selector == 2 {
                Instruction::RL(target)
            } else if selector == 3 {
                Instruction::RR(target)
            } else if selector == 4 {
                Instruction::SLA(target)
            } else if selector == 5 {
                Instruction::SRA(target)
            } else if selector == 6 {
                Instruction::SWAP(target)
            } else {
                Instruction::SRL(target)
            }
        } else if byte < 0x80 {
            Instruction::BIT(selector, target)
        } else if byte < 0xC0 {
            Instruction::RES(selector, target)
        } else {
            Instruction::SET(selector, target)
        };
        Some(instruction)
    }

    fn from_byte_not_prefixed(byte: u8) -> (r: Option<Instruction>)
        ensures
            r == spec_decode(byte, false),
    {
        if byte <= 0x0F {
            Instruction::handle_byte_00_to_0f(byte)
        } else if byte <= 0x1F {
            Instruction::handle_byte_10_to_1f(byte)
        } else if byte >= 0x30 && byte <= 0x3F {
            Instruction::handle_byte_30_to_3f(byte)
        } else if byte >= 0x70 && byte <= 0x7F {
            Instruction::handle_byte_70_to_7f(byte)
        } else if byte >= 0x80 && byte <= 0x8F {
            Instruction::handle_byte_80_to_8f(byte)
        } else if byte >= 0xC0 && byte <= 0xCF {
            Instruction::handle_byte_c0_to_cf(byte)
        } else if byte >= 0xD0 && byte <= 0xDF {
            Instruction::handle_byte_d0_to_df(byte)
        } else {
            None
        }
    }

    fn handle_byte_00_to_0f(byte: u8) -> (r: Option<Instruction>)
        requires
            byte <= 0x0F,
        ensures
            r == spec_decode_unprefixed(byte),
    {
        match byte {
            0x00 => Some(Instruction::NOP),
            0x01 => Some(Instruction::LD(LoadType::Word(LoadTarget::BC, LoadSource::D16))),
            0x02 => Some(Instruction::LD(LoadType::IndirectFromA(LoadTarget::BC, LoadSource::A))),
            0x03 => Some(Instruction::INC(IncDecTarget::BC)),
            0x04 => Some(Instruction::INC(IncDecTarget::B)),
            0x05 => Some(Instruction::DEC(IncDecTarget::B)),
            0x06 => Some(Instruction::LD(LoadType::Byte(LoadTarget::B, LoadSource::D8))),
            0x07 => Some(Instruction::RLCA),
            0x08 => Some(
                Instruction::LD(LoadType::IndirectFromByte(LoadTarget::D16, LoadSource::SP)),
            ),
            0x09 => Some(Instruction::ADDHL(ArithmeticSource::BC)),
            0x0A => Some(Instruction::LD(LoadType::AFromIndirect(LoadTarget::A, LoadSource::BC))),
            0x0B => Some(Instruction::DEC(IncDecTarget::BC)),
            0x0C => Some(Instruction::INC(IncDecTarget::C)),
            0x0D => Some(Instruction::DEC(IncDecTarget::C)),
            0x0E => Some(Instruction::LD(LoadType::Byte(LoadTarget::C, LoadSource::D8))),
            _ => Some(Instruction::RRCA),
        }
    }

    fn handle_byte_10_to_1f(byte: u8) -> (r: Option<Instruction>)
        requires
            0x10 <= byte <= 0x1F,
        ensures
            r == spec_decode_unprefixed(byte),
    {
        match byte {
            0x10 => Some(Instruction::STOP(0)),
            0x13 => Some(Instruction::INC(IncDecTarget::DE)),
            _ => None,
        }
    }

    fn handle_byte_30_to_3f(byte: u8) -> (r: Option<Instruction>)
        requires
            0x30 <= byte <= 0x3F,
        ensures
            r == spec_decode_unprefixed(byte),
    {
        match byte {
            0x36 => Some(Instruction::LD(LoadType::Byte(LoadTarget::HLI, LoadSource::D8))),
            0x3C => Some(Instruction::INC(IncDecTarget::A)),
            0x3E => Some(Instruction::LD(LoadType::Byte(LoadTarget::A, LoadSource::D8))),
            _ => None,
        }
    }

    fn handle_byte_70_to_7f(byte: u8) -> (r: Option<Instruction>)
        requires
            0x70 <= byte <= 0x7F,
        ensures
            r == spec_decode_unprefixed(byte),
    {
        match byte {
            0x70 => Some(Instruction::LD(LoadType::Byte(LoadTarget::HLI, LoadSource::B))),
            0x71 => Some(Instruction::LD(LoadType::Byte(LoadTarget::HLI, LoadSource::C))),
            0x72 => Some(Instruction::LD(LoadType::Byte(LoadTarget::HLI, LoadSource::D))),
            0x73 => Some(Instruction::LD(LoadType::Byte(LoadTarget::HLI, LoadSource::E))),
            0x74 => Some(Instruction::LD(LoadType::Byte(LoadTarget::HLI, LoadSource::H))),
            0x75 => Some(Instruction::LD(LoadType::Byte(LoadTarget::HLI, LoadSource::L))),
            0x76 => Some(Instruction::HALT),
            0x77 => Some(Instruction::LD(LoadType::Byte(LoadTarget::HLI, LoadSource::A))),
            0x78 => Some(Instruction::LD(LoadType::Byte(LoadTarget::A, LoadSource::B))),
            0x79 => Some(Instruction::LD(LoadType::Byte(LoadTarget::A, LoadSource::C))),
            0x7A => Some(Instruction::LD(LoadType::Byte(LoadTarget::A, LoadSource::D))),
            0x7B => Some(Instruction::LD(LoadType::Byte(LoadTarget::A, LoadSource::E))),
            0x7C => Some(Instruction::LD(LoadType::Byte(LoadTarget::A, LoadSource::H))),
            0x7D => Some(Instruction::LD(LoadType::Byte(LoadTarget::A, LoadSource::L))),
            0x7E => Some(Instruction::LD(LoadType::Byte(LoadTarget::A, LoadSource::HLI))),
            _ => Some(Instruction::LD(LoadType::Byte(LoadTarget::A, LoadSource::A))),
        }
    }

    fn handle_byte_80_to_8f(byte: u8) -> (r: Option<Instruction>)
        requires
            0x80 <= byte <= 0x8F,
        ensures
            r == spec_decode_unprefixed(byte),
    {
        match byte {
            0x80 => Some(Instruction::ADD(ArithmeticTarget::B)),
            0x81 => Some(Instruction::ADD(ArithmeticTarget::C)),
            0x82 => Some(Instruction::ADD(ArithmeticTarget::D)),
            0x83 => Some(Instruction::ADD(ArithmeticTarget::E)),
            0x84 => Some(Instruction::ADD(ArithmeticTarget::H)),
            0x85 => Some(Instruction::ADD(ArithmeticTarget::L)),
            0x87 => Some(Instruction::ADD(ArithmeticTarget::A)),
            _ => None,
        }
    }

    fn handle_byte_c0_to_cf(byte: u8) -> (r: Option<Instruction>)
        requires
            0xC0 <= byte <= 0xCF,
        ensures
            r == spec_decode_unprefixed(byte),
    {
        match byte {
            0xC0 => Some(Instruction::RET(JumpTest::NotZero)),
            0xC1 => Some(Instruction::POP(StackTarget::BC)),
            0xC2 => Some(Instruction::JP(JumpTest::NotZero)),
            0xC3 => Some(Instruction::JP(JumpTest::Always)),
            0xC4 => Some(Instruction::CALL(JumpTest::NotZero)),
            0xC5 => Some(Instruction::PUSH(StackTarget::BC)),
            0xC8 => Some(Instruction::RET(JumpTest::Zero)),
            0xC9 => Some(Instruction::RET(JumpTest::Always)),
            0xCA => Some(Instruction::JP(JumpTest::Zero)),
            0xCC => Some(Instruction::CALL(JumpTest::Zero)),
            0xCD => Some(Instruction::CALL(JumpTest::Always)),
            _ => None,
        }
    }

    fn handle_byte_d0_to_df(byte: u8) -> (r: Option<Instruction>)
        requires
            0xD0 <= byte <= 0xDF,
        ensures
            r == spec_decode_unprefixed(byte),
    {
        match byte {
            0xD0 => Some(Instruction::RET(JumpTest::NotCarry)),
            0xD2 => Some(Instruction::JP(JumpTest::NotCarry)),
            0xD4 => Some(Instruction::CALL(JumpTest::NotCarry)),
            0xD8 => Some(Instruction::RET(JumpTest::Carry)),
            0xDA => Some(Instruction::JP(JumpTest::Carry)),
            0xDC => Some(Instruction::CALL(JumpTest::Carry)),
            _ => None,
        }
    }
}

/// The prefixed opcode space is complete: decoding with the prefix flag set
/// yields a specific instruction for every one of the 256 byte values.
pub proof fn lemma_prefixed_decode_total(byte: u8)
    ensures
        spec_decode(byte, true) is Some,
{
}

} // verus!
