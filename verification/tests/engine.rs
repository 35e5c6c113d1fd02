//! Tests for the execution engine: arithmetic flag semantics, stack push and
//! pop with wraparound, call/return pairing, conditional jumps, the no-op,
//! halting, loads, image loading, and both fatal error outcomes.

use cpu_core::ArithmeticTarget;
use cpu_core::CPU;
use cpu_core::CpuError;
use cpu_core::Flags;
use cpu_core::Instruction;
use cpu_core::JumpTest;
use cpu_core::RegistersU16;
use cpu_core::RegistersU8;
use cpu_core::StackTarget;
use cpu_core::UnimplementedOperationError;

#[test]
fn new_engine_is_fully_zeroed() {
    let cpu = CPU::new();
    assert_eq!(cpu.pc, 0);
    assert_eq!(cpu.sp, 0);
    assert!(!cpu.is_halted);
    assert_eq!(cpu.registers.get_register_u8(RegistersU8::A), 0);
    assert_eq!(cpu.registers.get_register_u8(RegistersU8::F), 0);
    assert_eq!(cpu.bus.read_byte(0x0000), 0);
    assert_eq!(cpu.bus.read_byte(0xFFFF), 0);
}

#[test]
fn add_sets_half_carry_from_low_nibble_overflow() {
    let mut cpu = CPU::new();
    cpu.registers.set_register_u8(RegistersU8::A, 0x0F);
    cpu.registers.set_register_u8(RegistersU8::B, 0x01);
    let next_pc = cpu.execute(Instruction::ADD(ArithmeticTarget::B)).unwrap();
    assert_eq!(cpu.registers.get_register_u8(RegistersU8::A), 0x10);
    assert!(!cpu.registers.get_flag(Flags::ZERO));
    assert!(!cpu.registers.get_flag(Flags::CARRY));
    assert!(cpu.registers.get_flag(Flags::HALF_CARRY));
    assert!(!cpu.registers.get_flag(Flags::SUBTRACT));
    assert_eq!(next_pc, 1);
}

#[test]
fn add_sets_zero_and_carry_on_byte_overflow() {
    let mut cpu = CPU::new();
    cpu.registers.set_register_u8(RegistersU8::A, 0xFF);
    cpu.registers.set_register_u8(RegistersU8::C, 0x01);
    cpu.execute(Instruction::ADD(ArithmeticTarget::C)).unwrap();
    assert_eq!(cpu.registers.get_register_u8(RegistersU8::A), 0x00);
    assert!(cpu.registers.get_flag(Flags::ZERO));
    assert!(cpu.registers.get_flag(Flags::CARRY));
    assert!(cpu.registers.get_flag(Flags::HALF_CARRY));
    assert!(!cpu.registers.get_flag(Flags::SUBTRACT));
}

#[test]
fn add_accumulator_to_itself() {
    let mut cpu = CPU::new();
    cpu.registers.set_register_u8(RegistersU8::A, 0x80);
    cpu.execute(Instruction::ADD(ArithmeticTarget::A)).unwrap();
    assert_eq!(cpu.registers.get_register_u8(RegistersU8::A), 0x00);
    assert!(cpu.registers.get_flag(Flags::ZERO));
    assert!(cpu.registers.get_flag(Flags::CARRY));
    assert!(!cpu.registers.get_flag(Flags::HALF_CARRY));
}

fn push_pop_round_trip_from(start_sp: u16, value: u16) {
    let mut cpu = CPU::new();
    cpu.sp = start_sp;
    cpu.registers.set_register_u16(RegistersU16::BC, value);
    cpu.execute(Instruction::PUSH(StackTarget::BC)).unwrap();
    // The stack pointer decreases by exactly 2, wrapping.
    assert_eq!(cpu.sp, start_sp.wrapping_sub(2));
    cpu.registers.set_register_u16(RegistersU16::BC, 0);
    cpu.execute(Instruction::POP(StackTarget::BC)).unwrap();
    // The popped word is the pushed word and the pointer is back.
    assert_eq!(cpu.registers.get_register_u16(RegistersU16::BC), value);
    assert_eq!(cpu.sp, start_sp);
}

#[test]
fn push_pop_round_trip() {
    for value in [0x0000u16, 0x0001, 0x00FF, 0x0100, 0xABCD, 0x8000, 0xFFFF] {
        push_pop_round_trip_from(0x2000, value);
    }
}

#[test]
fn push_pop_wraps_at_bottom_of_address_space() {
    push_pop_round_trip_from(0x0000, 0x1234);
    push_pop_round_trip_from(0x0001, 0x5678);
}

#[test]
fn push_pop_wraps_at_top_of_address_space() {
    push_pop_round_trip_from(0xFFFF, 0x9ABC);
}

#[test]
fn push_writes_high_byte_above_low_byte() {
    let mut cpu = CPU::new();
    cpu.sp = 0x2000;
    cpu.registers.set_register_u16(RegistersU16::BC, 0xABCD);
    cpu.execute(Instruction::PUSH(StackTarget::BC)).unwrap();
    assert_eq!(cpu.bus.read_byte(0x1FFF), 0xAB);
    assert_eq!(cpu.bus.read_byte(0x1FFE), 0xCD);
}

#[test]
fn call_then_ret_pairing() {
    let mut cpu = CPU::new();
    cpu.pc = 0x0100;
    cpu.sp = 0xFFFE;
    // CALL-always to 0x0200: opcode, then the target little-endian.
    cpu.bus.write_byte(0x0100, 0xCD);
    cpu.bus.write_byte(0x0101, 0x00);
    cpu.bus.write_byte(0x0102, 0x02);
    cpu.step().unwrap();
    assert_eq!(cpu.pc, 0x0200);
    assert_eq!(cpu.sp, 0xFFFC);
    // The top of the stack holds the return counter 0x0103, low byte first.
    assert_eq!(cpu.bus.read_byte(0xFFFC), 0x03);
    assert_eq!(cpu.bus.read_byte(0xFFFD), 0x01);
    // RET-always pops it back.
    cpu.bus.write_byte(0x0200, 0xC9);
    cpu.step().unwrap();
    assert_eq!(cpu.pc, 0x0103);
    assert_eq!(cpu.sp, 0xFFFE);
}

#[test]
fn conditional_call_false_branch_pushes_nothing() {
    let mut cpu = CPU::new();
    cpu.pc = 0x0100;
    cpu.sp = 0xFFFE;
    cpu.registers.set_flag(Flags::ZERO, true);
    // CALL NotZero while the zero flag is set: falls through.
    cpu.bus.write_byte(0x0100, 0xC4);
    cpu.bus.write_byte(0x0101, 0x00);
    cpu.bus.write_byte(0x0102, 0x02);
    cpu.step().unwrap();
    assert_eq!(cpu.pc, 0x0103);
    assert_eq!(cpu.sp, 0xFFFE);
}

#[test]
fn conditional_ret_false_branch_pops_nothing() {
    let mut cpu = CPU::new();
    cpu.pc = 0x0200;
    cpu.sp = 0xFFFC;
    // RET Carry while the carry flag is clear: advances one byte.
    cpu.bus.write_byte(0x0200, 0xD8);
    cpu.step().unwrap();
    assert_eq!(cpu.pc, 0x0201);
    assert_eq!(cpu.sp, 0xFFFC);
}

#[test]
fn jump_not_zero_false_branch_touches_nothing_else() {
    let mut cpu = CPU::new();
    cpu.pc = 0x0050;
    cpu.sp = 0x3000;
    cpu.registers.set_register_u8(RegistersU8::A, 0x42);
    cpu.registers.set_flag(Flags::ZERO, true);
    cpu.bus.write_byte(0x0050, 0xC2);
    cpu.bus.write_byte(0x0051, 0x00);
    cpu.bus.write_byte(0x0052, 0x09);
    cpu.step().unwrap();
    // The counter advances past the three instruction bytes, nothing else.
    assert_eq!(cpu.pc, 0x0053);
    assert_eq!(cpu.sp, 0x3000);
    assert_eq!(cpu.registers.get_register_u8(RegistersU8::A), 0x42);
    assert!(cpu.registers.get_flag(Flags::ZERO));
    assert_eq!(cpu.bus.read_byte(0x0051), 0x00);
    assert_eq!(cpu.bus.read_byte(0x0052), 0x09);
    assert!(!cpu.is_halted);
}

#[test]
fn jump_taken_reads_little_endian_target() {
    let mut cpu = CPU::new();
    cpu.pc = 0x0050;
    // JP-always to 0x0900: low byte first in memory.
    cpu.bus.write_byte(0x0050, 0xC3);
    cpu.bus.write_byte(0x0051, 0x00);
    cpu.bus.write_byte(0x0052, 0x09);
    cpu.step().unwrap();
    assert_eq!(cpu.pc, 0x0900);
}

#[test]
fn jump_zero_taken_when_zero_flag_set() {
    let mut cpu = CPU::new();
    cpu.pc = 0x0050;
    cpu.registers.set_flag(Flags::ZERO, true);
    cpu.bus.write_byte(0x0050, 0xCA);
    cpu.bus.write_byte(0x0051, 0x34);
    cpu.bus.write_byte(0x0052, 0x12);
    cpu.step().unwrap();
    assert_eq!(cpu.pc, 0x1234);
}

#[test]
fn nop_changes_only_the_program_counter() {
    let mut cpu = CPU::new();
    cpu.pc = 0x0123;
    cpu.sp = 0x4567;
    cpu.registers.set_register_u8(RegistersU8::A, 0xAA);
    cpu.registers.set_register_u8(RegistersU8::H, 0x55);
    cpu.registers.set_flag(Flags::CARRY, true);
    cpu.bus.write_byte(0x0123, 0x00);
    cpu.bus.write_byte(0x0124, 0x99);
    cpu.step().unwrap();
    assert_eq!(cpu.pc, 0x0124);
    assert_eq!(cpu.sp, 0x4567);
    assert_eq!(cpu.registers.get_register_u8(RegistersU8::A), 0xAA);
    assert_eq!(cpu.registers.get_register_u8(RegistersU8::H), 0x55);
    assert!(cpu.registers.get_flag(Flags::CARRY));
    assert_eq!(cpu.bus.read_byte(0x0123), 0x00);
    assert_eq!(cpu.bus.read_byte(0x0124), 0x99);
    assert!(!cpu.is_halted);
}

#[test]
fn halt_sets_the_flag_and_later_steps_are_no_ops() {
    let mut cpu = CPU::new();
    cpu.pc = 0x0010;
    cpu.bus.write_byte(0x0010, 0x76);
    cpu.step().unwrap();
    assert!(cpu.is_halted);
    assert_eq!(cpu.pc, 0x0011);
    // Stepping a halted engine is a defined no-op cycle, not an error.
    cpu.registers.set_register_u8(RegistersU8::A, 0x77);
    assert_eq!(cpu.step(), Ok(()));
    assert_eq!(cpu.pc, 0x0011);
    assert!(cpu.is_halted);
    assert_eq!(cpu.registers.get_register_u8(RegistersU8::A), 0x77);
}

#[test]
fn load_immediate_byte_into_accumulator() {
    let mut cpu = CPU::new();
    cpu.pc = 0x0300;
    cpu.bus.write_byte(0x0300, 0x3E);
    cpu.bus.write_byte(0x0301, 0x5A);
    cpu.step().unwrap();
    assert_eq!(cpu.registers.get_register_u8(RegistersU8::A), 0x5A);
    assert_eq!(cpu.pc, 0x0302);
}

#[test]
fn load_accumulator_into_hl_cell_and_back() {
    let mut cpu = CPU::new();
    cpu.pc = 0x0300;
    cpu.registers.set_register_u16(RegistersU16::HL, 0x8000);
    cpu.registers.set_register_u8(RegistersU8::A, 0x99);
    cpu.bus.write_byte(0x0300, 0x77);
    cpu.step().unwrap();
    assert_eq!(cpu.bus.read_byte(0x8000), 0x99);
    assert_eq!(cpu.pc, 0x0301);
    // Now load it back through the pair.
    cpu.registers.set_register_u8(RegistersU8::A, 0x00);
    cpu.bus.write_byte(0x0301, 0x7E);
    cpu.step().unwrap();
    assert_eq!(cpu.registers.get_register_u8(RegistersU8::A), 0x99);
    assert_eq!(cpu.pc, 0x0302);
}

#[test]
fn load_immediate_byte_into_hl_cell() {
    let mut cpu = CPU::new();
    cpu.pc = 0x0400;
    cpu.registers.set_register_u16(RegistersU16::HL, 0x9000);
    cpu.bus.write_byte(0x0400, 0x36);
    cpu.bus.write_byte(0x0401, 0x7D);
    cpu.step().unwrap();
    assert_eq!(cpu.bus.read_byte(0x9000), 0x7D);
    assert_eq!(cpu.pc, 0x0402);
}

#[test]
fn unmapped_opcode_is_a_fatal_decode_error() {
    let mut cpu = CPU::new();
    cpu.pc = 0x0020;
    cpu.registers.set_register_u8(RegistersU8::A, 0x31);
    cpu.bus.write_byte(0x0020, 0xD3);
    let result = cpu.step();
    assert_eq!(
        result,
        Err(CpuError::Decode { pc: 0x0020, opcode: 0xD3, prefixed: false })
    );
    // The failing step mutates nothing.
    assert_eq!(cpu.pc, 0x0020);
    assert_eq!(cpu.registers.get_register_u8(RegistersU8::A), 0x31);
    assert!(!cpu.is_halted);
}

#[test]
fn prefixed_opcode_is_decoded_but_not_implemented() {
    let mut cpu = CPU::new();
    cpu.pc = 0x0030;
    // The prefix marker, then a rotate in the prefixed space.
    cpu.bus.write_byte(0x0030, 0xCB);
    cpu.bus.write_byte(0x0031, 0x11);
    let result = cpu.step();
    assert_eq!(
        result,
        Err(CpuError::UnimplementedOperation { pc: 0x0030, opcode: 0x11, prefixed: true })
    );
    assert_eq!(cpu.pc, 0x0030);
}

#[test]
fn decoded_but_unimplemented_unprefixed_opcode() {
    let mut cpu = CPU::new();
    // INC BC is in the catalogue but not wired into the engine.
    cpu.bus.write_byte(0x0000, 0x03);
    let result = cpu.step();
    assert_eq!(
        result,
        Err(CpuError::UnimplementedOperation { pc: 0x0000, opcode: 0x03, prefixed: false })
    );
    assert_eq!(cpu.pc, 0x0000);
}

#[test]
fn execute_reports_unimplemented_instructions() {
    let mut cpu = CPU::new();
    assert_eq!(
        cpu.execute(Instruction::STOP(0)),
        Err(UnimplementedOperationError)
    );
    assert_eq!(
        cpu.execute(Instruction::RRCA),
        Err(UnimplementedOperationError)
    );
    // Nothing changed.
    assert_eq!(cpu.pc, 0);
    assert_eq!(cpu.sp, 0);
}

#[test]
fn load_image_places_bytes_at_address_zero() {
    let mut cpu = CPU::new();
    cpu.bus.write_byte(0x0004, 0xEE);
    let image = vec![0x3E, 0x2A, 0x76];
    cpu.load_image(&image);
    assert_eq!(cpu.bus.read_byte(0x0000), 0x3E);
    assert_eq!(cpu.bus.read_byte(0x0001), 0x2A);
    assert_eq!(cpu.bus.read_byte(0x0002), 0x76);
    // Memory past the image is untouched.
    assert_eq!(cpu.bus.read_byte(0x0003), 0x00);
    assert_eq!(cpu.bus.read_byte(0x0004), 0xEE);
    // The loaded program runs: load immediate, then halt.
    cpu.step().unwrap();
    assert_eq!(cpu.registers.get_register_u8(RegistersU8::A), 0x2A);
    cpu.step().unwrap();
    assert!(cpu.is_halted);
}
