//! Tests for the instruction decoder: totality over both 256-entry opcode
//! spaces, purity across repeated calls, and spot checks of the mapping.

use cpu_core::ArithmeticTarget;
use cpu_core::IncDecTarget;
use cpu_core::Instruction;
use cpu_core::JumpTest;
use cpu_core::LoadSource;
use cpu_core::LoadTarget;
use cpu_core::LoadType;
use cpu_core::PrefixTarget;
use cpu_core::StackTarget;

#[test]
fn decode_is_total_and_pure_over_both_spaces() {
    for byte in 0..=255u8 {
        for prefixed in [false, true] {
            // Never a crash: every call returns, either a specific
            // instruction or an explicit unmapped result.
            let first = Instruction::from_byte(byte, prefixed);
            // Never a different result across repeated calls.
            let second = Instruction::from_byte(byte, prefixed);
            assert_eq!(first, second);
        }
    }
}

#[test]
fn prefixed_space_is_completely_mapped() {
    for byte in 0..=255u8 {
        assert!(Instruction::from_byte(byte, true).is_some());
    }
}

#[test]
fn prefixed_rotate_and_shift_rows() {
    assert_eq!(
        Instruction::from_byte(0x00, true),
        Some(Instruction::RLC(PrefixTarget::B))
    );
    assert_eq!(
        Instruction::from_byte(0x0F, true),
        Some(Instruction::RRC(PrefixTarget::A))
    );
    assert_eq!(
        Instruction::from_byte(0x16, true),
        Some(Instruction::RL(PrefixTarget::HL))
    );
    assert_eq!(
        Instruction::from_byte(0x1D, true),
        Some(Instruction::RR(PrefixTarget::L))
    );
    assert_eq!(
        Instruction::from_byte(0x20, true),
        Some(Instruction::SLA(PrefixTarget::B))
    );
    assert_eq!(
        Instruction::from_byte(0x2A, true),
        Some(Instruction::SRA(PrefixTarget::D))
    );
    assert_eq!(
        Instruction::from_byte(0x31, true),
        Some(Instruction::SWAP(PrefixTarget::C))
    );
    assert_eq!(
        Instruction::from_byte(0x3C, true),
        Some(Instruction::SRL(PrefixTarget::H))
    );
}

#[test]
fn prefixed_bit_res_set_rows() {
    assert_eq!(
        Instruction::from_byte(0x40, true),
        Some(Instruction::BIT(0, PrefixTarget::B))
    );
    assert_eq!(
        Instruction::from_byte(0x7F, true),
        Some(Instruction::BIT(7, PrefixTarget::A))
    );
    assert_eq!(
        Instruction::from_byte(0x5E, true),
        Some(Instruction::BIT(3, PrefixTarget::HL))
    );
    assert_eq!(
        Instruction::from_byte(0x80, true),
        Some(Instruction::RES(0, PrefixTarget::B))
    );
    assert_eq!(
        Instruction::from_byte(0xA9, true),
        Some(Instruction::RES(5, PrefixTarget::C))
    );
    assert_eq!(
        Instruction::from_byte(0xC0, true),
        Some(Instruction::SET(0, PrefixTarget::B))
    );
    assert_eq!(
        Instruction::from_byte(0xFF, true),
        Some(Instruction::SET(7, PrefixTarget::A))
    );
}

#[test]
fn unprefixed_first_row() {
    assert_eq!(Instruction::from_byte(0x00, false), Some(Instruction::NOP));
    assert_eq!(
        Instruction::from_byte(0x01, false),
        Some(Instruction::LD(LoadType::Word(LoadTarget::BC, LoadSource::D16)))
    );
    assert_eq!(
        Instruction::from_byte(0x02, false),
        Some(Instruction::LD(LoadType::IndirectFromA(
            LoadTarget::BC,
            LoadSource::A
        )))
    );
    assert_eq!(
        Instruction::from_byte(0x03, false),
        Some(Instruction::INC(IncDecTarget::BC))
    );
    assert_eq!(
        Instruction::from_byte(0x05, false),
        Some(Instruction::DEC(IncDecTarget::B))
    );
    assert_eq!(
        Instruction::from_byte(0x06, false),
        Some(Instruction::LD(LoadType::Byte(LoadTarget::B, LoadSource::D8)))
    );
    assert_eq!(Instruction::from_byte(0x07, false), Some(Instruction::RLCA));
    assert_eq!(Instruction::from_byte(0x0F, false), Some(Instruction::RRCA));
}

#[test]
fn unprefixed_loads_and_arithmetic() {
    assert_eq!(
        Instruction::from_byte(0x3E, false),
        Some(Instruction::LD(LoadType::Byte(LoadTarget::A, LoadSource::D8)))
    );
    assert_eq!(
        Instruction::from_byte(0x77, false),
        Some(Instruction::LD(LoadType::Byte(LoadTarget::HLI, LoadSource::A)))
    );
    assert_eq!(
        Instruction::from_byte(0x7E, false),
        Some(Instruction::LD(LoadType::Byte(LoadTarget::A, LoadSource::HLI)))
    );
    assert_eq!(
        Instruction::from_byte(0x7F, false),
        Some(Instruction::LD(LoadType::Byte(LoadTarget::A, LoadSource::A)))
    );
    assert_eq!(Instruction::from_byte(0x76, false), Some(Instruction::HALT));
    assert_eq!(
        Instruction::from_byte(0x80, false),
        Some(Instruction::ADD(ArithmeticTarget::B))
    );
    assert_eq!(
        Instruction::from_byte(0x87, false),
        Some(Instruction::ADD(ArithmeticTarget::A))
    );
}

#[test]
fn unprefixed_control_flow_and_stack() {
    assert_eq!(
        Instruction::from_byte(0xC2, false),
        Some(Instruction::JP(JumpTest::NotZero))
    );
    assert_eq!(
        Instruction::from_byte(0xC3, false),
        Some(Instruction::JP(JumpTest::Always))
    );
    assert_eq!(
        Instruction::from_byte(0xDA, false),
        Some(Instruction::JP(JumpTest::Carry))
    );
    assert_eq!(
        Instruction::from_byte(0xC4, false),
        Some(Instruction::CALL(JumpTest::NotZero))
    );
    assert_eq!(
        Instruction::from_byte(0xCD, false),
        Some(Instruction::CALL(JumpTest::Always))
    );
    assert_eq!(
        Instruction::from_byte(0xC0, false),
        Some(Instruction::RET(JumpTest::NotZero))
    );
    assert_eq!(
        Instruction::from_byte(0xC9, false),
        Some(Instruction::RET(JumpTest::Always))
    );
    assert_eq!(
        Instruction::from_byte(0xC5, false),
        Some(Instruction::PUSH(StackTarget::BC))
    );
    assert_eq!(
        Instruction::from_byte(0xC1, false),
        Some(Instruction::POP(StackTarget::BC))
    );
}

#[test]
fn unmapped_unprefixed_bytes_are_explicitly_unmapped() {
    // A sample of reserved or unenumerated bytes across the space.
    for byte in [0x20u8, 0x40, 0x55, 0x69, 0x86, 0x90, 0xA3, 0xB7, 0xCB, 0xD3, 0xE0, 0xFF] {
        assert_eq!(Instruction::from_byte(byte, false), None);
    }
}
