//! The mathematical model of the execution engine: an abstract machine state
//! (registers, program counter, stack pointer, memory contents, halted flag)
//! and the transition functions that say exactly what one executed
//! instruction, and one full fetch-decode-execute step, do to that state.

use vstd::prelude::*;

use crate::flags_register::FlagsRegister;
use crate::instruction::ArithmeticTarget;
use crate::instruction::Instruction;
use crate::instruction::JumpTest;
use crate::instruction::LoadSource;
use crate::instruction::LoadTarget;
use crate::instruction::LoadType;
use crate::instruction::PREFIX_MARKER;
use crate::instruction::StackTarget;
use crate::instruction::spec_decode;
use crate::memory::MEMORY_SIZE;
use crate::registers::RegisterBank;
use crate::registers::RegistersU16;
use crate::words::hi_byte;
use crate::words::lo_byte;
use crate::words::word_from_bytes;
use crate::words::wrap_add16;
use crate::words::wrap_sub16;

verus! {

/// The abstract state of one machine: the register file, the program
/// counter, the stack pointer, the memory contents, and the halted flag.
pub struct MachineState {
    pub regs: RegisterBank,
    pub pc: u16,
    pub sp: u16,
    pub mem: Seq<u8>,
    pub halted: bool,
}

impl MachineState {
    /// The memory holds one byte for every 16-bit address.
    pub open spec fn wf(self) -> bool {
        self.mem.len() == MEMORY_SIZE
    }
}

/// The state every machine starts in: all registers and flags zero, program
/// counter and stack pointer zero, memory all zero, not halted.
pub open spec fn spec_init() -> MachineState {
    MachineState {
        regs: RegisterBank {
            a: 0u8,
            b: 0u8,
            c: 0u8,
            d: 0u8,
            e: 0u8,
            f: FlagsRegister { zero: false, subtract: false, half_carry: false, carry: false },
            h: 0u8,
            l: 0u8,
        },
        pc: 0u16,
        sp: 0u16,
        mem: Seq::new(MEMORY_SIZE as nat, |i: int| 0u8),
        halted: false,
    }
}

/// Whether a jump condition holds under the given flags.
pub open spec fn spec_eval_condition(test: JumpTest, flags: FlagsRegister) -> bool {
    match test {
        JumpTest::NotZero => !flags.zero,
        JumpTest::Zero => flags.zero,
        JumpTest::NotCarry => !flags.carry,
        JumpTest::Carry => flags.carry,
        JumpTest::Always => true,
    }
}

/// The immediate byte following the opcode at the program counter.
pub open spec fn spec_imm_byte(s: MachineState) -> u8 {
    s.mem[wrap_add16(s.pc, 1) as int]
}

/// The little-endian immediate word following the opcode at the program
/// counter: low byte first in memory, then the high byte.
pub open spec fn spec_imm_word(s: MachineState) -> u16 {
    word_from_bytes(s.mem[wrap_add16(s.pc, 1) as int], s.mem[wrap_add16(s.pc, 2) as int])
}

/// Pushing a word: the stack pointer moves down one for the high byte and
/// one more for the low byte, each byte written at the moved pointer.
pub open spec fn spec_push(s: MachineState, value: u16) -> MachineState {
    let sp_high = wrap_sub16(s.sp, 1);
    let mem_high = s.mem.update(sp_high as int, hi_byte(value));
    let sp_low = wrap_sub16(sp_high, 1);
    let mem_low = mem_high.update(sp_low as int, lo_byte(value));
    MachineState { sp: sp_low, mem: mem_low, ..s }
}

/// Popping a word: the low byte is read at the stack pointer and the high
/// byte one above it, the pointer moving up past both.
pub open spec fn spec_pop(s: MachineState) -> (MachineState, u16) {
    let low = s.mem[s.sp as int];
    let sp_high = wrap_add16(s.sp, 1);
    let high = s.mem[sp_high as int];
    let sp_done = wrap_add16(sp_high, 1);
    (MachineState { sp: sp_done, ..s }, word_from_bytes(low, high))
}

/// The flags after adding `value` to accumulator `a`: zero reflects the
/// wrapped sum, subtract is clear, half-carry reflects overflow out of the
/// low nibble of the pre-mutation accumulator, carry reflects byte overflow.
pub open spec fn spec_add_flags(a: u8, value: u8) -> FlagsRegister {
    FlagsRegister {
        zero: ((a + value) % 256) as u8 == 0,
        subtract: false,
        half_carry: (a % 16) + (value % 16) > 0xF,
        carry: a + value > 0xFF,
    }
}

/// The 8-bit register an arithmetic instruction reads.
pub open spec fn spec_arith_value(regs: RegisterBank, target: ArithmeticTarget) -> u8 {
    match target {
        ArithmeticTarget::A => regs.a,
        ArithmeticTarget::B => regs.b,
        ArithmeticTarget::C => regs.c,
        ArithmeticTarget::D => regs.d,
        ArithmeticTarget::E => regs.e,
        ArithmeticTarget::H => regs.h,
        ArithmeticTarget::L => regs.l,
    }
}

/// A byte-sized load: the source is resolved first, then written to the
/// target; the program counter advances past the opcode and, for an
/// immediate source, past the immediate byte. Source or target combinations
/// outside the implemented set yield no successor state.
pub open spec fn spec_ld_byte(
    s: MachineState,
    target: LoadTarget,
    source: LoadSource,
) -> Option<MachineState> {
    let source_value = match source {
        LoadSource::A => Some(s.regs.a),
        LoadSource::D8 => Some(spec_imm_byte(s)),
        LoadSource::HLI => Some(s.mem[s.regs.spec_get16(RegistersU16::HL) as int]),
        _ => None,
    };
    match source_value {
        Some(value) => {
            let next_pc = if source is D8 {
                wrap_add16(s.pc, 2)
            } else {
                wrap_add16(s.pc, 1)
            };
            match target {
                LoadTarget::A => Some(
                    MachineState {
                        regs: RegisterBank { a: value, ..s.regs },
                        pc: next_pc,
                        ..s
                    },
                ),
                LoadTarget::HLI => Some(
                    MachineState {
                        mem: s.mem.update(s.regs.spec_get16(RegistersU16::HL) as int, value),
                        pc: next_pc,
                        ..s
                    },
                ),
                _ => None,
            }
        },
        None => None,
    }
}

/// What executing one decoded instruction does to the machine: the successor
/// state (with the program counter already moved to the next instruction),
/// or `None` for an instruction in the catalogue whose semantics this engine
/// does not implement. Execution of an unimplemented instruction changes
/// nothing.
pub open spec fn spec_execute(s: MachineState, instruction: Instruction) -> Option<MachineState> {
    match instruction {
        Instruction::NOP => Some(MachineState { pc: wrap_add16(s.pc, 1), ..s }),
        Instruction::HALT => Some(MachineState { pc: wrap_add16(s.pc, 1), halted: true, ..s }),
        Instruction::ADD(target) => {
            let value = spec_arith_value(s.regs, target);
            let new_a = ((s.regs.a + value) % 256) as u8;
            Some(
                MachineState {
                    regs: RegisterBank {
                        a: new_a,
                        f: spec_add_flags(s.regs.a, value),
                        ..s.regs
                    },
                    pc: wrap_add16(s.pc, 1),
                    ..s
                },
            )
        },
        Instruction::JP(test) => {
            if spec_eval_condition(test, s.regs.f) {
                Some(MachineState { pc: spec_imm_word(s), ..s })
            } else {
                Some(MachineState { pc: wrap_add16(s.pc, 3), ..s })
            }
        },
        Instruction::LD(load_type) => match load_type {
            LoadType::Byte(target, source) => spec_ld_byte(s, target, source),
            _ => None,
        },
        Instruction::CALL(test) => {
            let return_pc = wrap_add16(s.pc, 3);
            if spec_eval_condition(test, s.regs.f) {
                let pushed = spec_push(s, return_pc);
                Some(MachineState { pc: spec_imm_word(pushed), ..pushed })
            } else {
                Some(MachineState { pc: return_pc, ..s })
            }
        },
        Instruction::RET(test) => {
            if spec_eval_condition(test, s.regs.f) {
                let (popped, value) = spec_pop(s);
                Some(MachineState { pc: value, ..popped })
            } else {
                Some(MachineState { pc: wrap_add16(s.pc, 1), ..s })
            }
        },
        Instruction::PUSH(target) => match target {
            StackTarget::BC => {
                let pushed = spec_push(s, s.regs.spec_get16(RegistersU16::BC));
                Some(MachineState { pc: wrap_add16(s.pc, 1), ..pushed })
            },
        },
        Instruction::POP(target) => match target {
            StackTarget::BC => {
                let (popped, value) = spec_pop(s);
                Some(
                    MachineState {
                        regs: popped.regs.spec_set16(RegistersU16::BC, value),
                        pc: wrap_add16(s.pc, 1),
                        ..popped
                    },
                )
            },
        },
        _ => None,
    }
}

/// The outcome of one fetch-decode-execute step: a successor state, or a
/// fatal failure naming the offending opcode and whether it was prefixed.
pub enum StepOutcome {
    Next(MachineState),
    DecodeFailed(u8, bool),
    Unimplemented(u8, bool),
}

/// One full step. A halted machine steps to itself. Otherwise the byte at
/// the program counter is fetched; the prefix marker switches decoding to
/// the prefixed space, consuming the following byte as the opcode. An
/// unmapped opcode or an unimplemented instruction is a fatal outcome that
/// leaves the state unchanged.
pub open spec fn spec_step(s: MachineState) -> StepOutcome {
    if s.halted {
        StepOutcome::Next(s)
    } else {
        let first = s.mem[s.pc as int];
        let prefixed = first == PREFIX_MARKER;
        let opcode = if prefixed {
            s.mem[wrap_add16(s.pc, 1) as int]
        } else {
            first
        };
        match spec_decode(opcode, prefixed) {
            Some(instruction) => match spec_execute(s, instruction) {
                Some(next) => StepOutcome::Next(next),
                None => StepOutcome::Unimplemented(opcode, prefixed),
            },
            None => StepOutcome::DecodeFailed(opcode, prefixed),
        }
    }
}

/// Pushing a word moves the stack pointer down by exactly two, wrapping
/// at the 16-bit boundary, and changes nothing but the pointer and the two
/// cells written.
pub proof fn lemma_push_sp(s: MachineState, value: u16)
    ensures
        spec_push(s, value).sp == wrap_sub16(s.sp, 2),
        spec_push(s, value).regs == s.regs,
        spec_push(s, value).pc == s.pc,
        spec_push(s, value).halted == s.halted,
{
}

/// Popping a word moves the stack pointer up by exactly two, wrapping at
/// the 16-bit boundary, and changes nothing but the pointer.
pub proof fn lemma_pop_sp(s: MachineState)
    ensures
        spec_pop(s).0.sp == wrap_add16(s.sp, 2),
        spec_pop(s).0.regs == s.regs,
        spec_pop(s).0.pc == s.pc,
        spec_pop(s).0.mem == s.mem,
        spec_pop(s).0.halted == s.halted,
{
}

/// Pushing any 16-bit word and popping it back yields the word again and
/// returns the stack pointer to its original value, from every starting
/// pointer, including the wraparound cases at 0x0000 and 0xFFFF.
pub proof fn lemma_push_pop_round_trip(s: MachineState, value: u16)
    requires
        s.wf(),
    ensures
        spec_pop(spec_push(s, value)).1 == value,
        spec_pop(spec_push(s, value)).0.sp == s.sp,
        spec_pop(spec_push(s, value)).0.regs == s.regs,
        spec_pop(spec_push(s, value)).0.pc == s.pc,
        spec_pop(spec_push(s, value)).0.halted == s.halted,
{
    let sp_high = wrap_sub16(s.sp, 1);
    let sp_low = wrap_sub16(sp_high, 1);
    assert(sp_low != sp_high);
    assert(wrap_add16(sp_low, 1) == sp_high);
    assert(wrap_add16(sp_high, 1) == s.sp);
    crate::words::lemma_word_bytes_round_trip(value);
}

/// An unconditional call pushes the return counter (three bytes past the
/// call) and jumps to the immediate target; an unconditional return executed
/// next pops that counter back into the program counter and restores the
/// stack pointer, whatever the target was.
pub proof fn lemma_call_ret_pairing(s: MachineState)
    requires
        s.wf(),
    ensures
        spec_execute(s, Instruction::CALL(JumpTest::Always)) is Some,
        ({
            let called = spec_execute(s, Instruction::CALL(JumpTest::Always)).unwrap();
            let returned = spec_execute(called, Instruction::RET(JumpTest::Always)).unwrap();
            &&& called.pc == spec_imm_word(spec_push(s, wrap_add16(s.pc, 3)))
            &&& called.sp == wrap_sub16(s.sp, 2)
            &&& spec_execute(called, Instruction::RET(JumpTest::Always)) is Some
            &&& returned.pc == wrap_add16(s.pc, 3)
            &&& returned.sp == s.sp
            &&& returned.regs == s.regs
            &&& returned.halted == s.halted
        }),
{
    let return_pc = wrap_add16(s.pc, 3);
    let pushed = spec_push(s, return_pc);
    lemma_push_pop_round_trip(s, return_pc);
    let called = spec_execute(s, Instruction::CALL(JumpTest::Always)).unwrap();
    assert(called.mem == pushed.mem && called.sp == pushed.sp);
    assert(spec_pop(called).1 == spec_pop(pushed).1);
    assert(spec_pop(called).0.sp == spec_pop(pushed).0.sp);
}

/// Executing a no-op changes no register, no flag, the stack pointer, and
/// no memory cell: only the program counter moves, one byte forward.
pub proof fn lemma_nop_changes_only_pc(s: MachineState)
    ensures
        spec_execute(s, Instruction::NOP) == Some(MachineState { pc: wrap_add16(s.pc, 1), ..s }),
{
}

/// Stepping a machine whose next opcode is the no-op succeeds and changes
/// only the program counter, which moves one byte forward.
pub proof fn lemma_step_nop_changes_only_pc(s: MachineState)
    requires
        s.wf(),
        !s.halted,
        s.mem[s.pc as int] == 0x00u8,
    ensures
        spec_step(s) == StepOutcome::Next(MachineState { pc: wrap_add16(s.pc, 1), ..s }),
{
}

/// Stepping a halted machine is a defined no-op cycle: the outcome is
/// success and the state, the program counter included, is unchanged.
pub proof fn lemma_step_halted_is_no_op(s: MachineState)
    requires
        s.halted,
    ensures
        spec_step(s) == StepOutcome::Next(s),
{
}

} // verus!
