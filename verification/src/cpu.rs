//! The execution engine: owns the register file, program counter, stack
//! pointer, memory bus, and halted flag, and performs one fetch-decode-
//! execute cycle per step. Every transition is specified against the
//! abstract machine model; an unmapped opcode or an unimplemented
//! instruction is surfaced as a fatal error that leaves the state unchanged.

use vstd::prelude::*;

use crate::flags_register::Flags;
use crate::instruction::ArithmeticTarget;
use crate::instruction::Instruction;
use crate::instruction::JumpTest;
use crate::instruction::LoadSource;
use crate::instruction::LoadTarget;
use crate::instruction::LoadType;
use crate::instruction::PREFIX_MARKER;
use crate::instruction::StackTarget;
use crate::machine::MachineState;
use crate::machine::StepOutcome;
use crate::machine::spec_add_flags;
use crate::machine::spec_eval_condition;
use crate::machine::spec_execute;
use crate::machine::spec_imm_byte;
use crate::machine::spec_imm_word;
use crate::machine::spec_init;
use crate::machine::spec_pop;
use crate::machine::spec_push;
use crate::machine::spec_step;
use crate::memory::MEMORY_SIZE;
use crate::memory::MemoryBus;
use crate::registers::RegisterBank;
use crate::registers::RegistersU16;
use crate::registers::RegistersU8;
use crate::words::wrap_add16;

verus! {

/// Why a step failed, with the opcode byte, the opcode space it was decoded
/// in, and the program counter at the failing instruction. Both failures are
/// fatal to the current run: the engine mutates nothing and the caller
/// decides how to surface them.
#[derive(Clone, Copy, Debug, PartialEq, Eq, Structural)]
pub enum CpuError {
    /// The opcode byte has no defined meaning in the given prefix context.
    Decode { pc: u16, opcode: u8, prefixed: bool },
    /// The opcode is in the catalogue but the engine has no handler for it.
    UnimplementedOperation { pc: u16, opcode: u8, prefixed: bool },
}

/// An instruction the decoder produced but the execution unit does not
/// implement; the step that encountered it adds the opcode and counter.
#[derive(Clone, Copy, Debug, PartialEq, Eq, Structural)]
pub struct UnimplementedOperationError;

/// The engine: register file, program counter, stack pointer, memory bus,
/// and halted flag. One instance owns its whole state exclusively.
pub struct CPU {
    pub registers: RegisterBank,
    pub pc: u16,
    pub sp: u16,
    pub bus: MemoryBus,
    pub is_halted: bool,
}

impl View for CPU {
    type V = MachineState;

    open spec fn view(&self) -> MachineState {
        MachineState {
            regs: self.registers,
            pc: self.pc,
            sp: self.sp,
            mem: self.bus@,
            halted: self.is_halted,
        }
    }
}

impl CPU {
    /// The engine's memory bus covers the full 16-bit address range.
    pub open spec fn wf(self) -> bool {
        self@.wf()
    }

    /// A fresh engine: registers, flags, program counter, and stack pointer
    /// all zero, memory all zero, not halted.
    pub fn new() -> (r: Self)
        ensures
            r.wf(),
            r@ == spec_init(),
    {
        CPU {
            registers: RegisterBank::new(),
            pc: 0,
            sp: 0,
            bus: MemoryBus::new(),
            is_halted: false,
        }
    }

    /// Writes an image into memory starting at address zero, leaving the
    /// rest of memory and all other engine state untouched.
    pub fn load_image(&mut self, image: &Vec<u8>)
        requires
            old(self).wf(),
            image@.len() <= MEMORY_SIZE,
        ensures
            final(self).wf(),
            final(self)@.mem == image@ + old(self)@.mem.skip(image@.len() as int),
            final(self)@.regs == old(self)@.regs,
            final(self)@.pc == old(self)@.pc,
            final(self)@.sp == old(self)@.sp,
            final(self)@.halted == old(self)@.halted,
    {
        let mut index: usize = 0;
        while index < image.len()
            invariant
                self.wf(),
                index <= image@.len() <= MEMORY_SIZE,
                forall|i: int| 0 <= i < index ==> self@.mem[i] == image@[i],
                forall|i: int| index <= i < MEMORY_SIZE ==> self@.mem[i] == old(self)@.mem[i],
                self@.regs == old(self)@.regs,
                self@.pc == old(self)@.pc,
                self@.sp == old(self)@.sp,
                self@.halted == old(self)@.halted,
            decreases image@.len() - index,
        {
            self.bus.write_byte(index as u16, image[index]);
            index = index + 1;
        }
        proof {
            assert(self@.mem =~= image@ + old(self)@.mem.skip(image@.len() as int));
        }
    }

    /// One full fetch-decode-execute cycle. A halted engine performs a
    /// defined no-op cycle that leaves all state unchanged. Otherwise the
    /// byte at the program counter is fetched (the prefix marker switches to
    /// the prefixed opcode space and consumes the following byte), decoded,
    /// and executed, and the program counter moves to the next instruction.
    /// An unmapped opcode or an unimplemented instruction is returned as a
    /// fatal error, naming the opcode and the program counter, with every
    /// register, flag, and memory cell unchanged.
    pub fn step(&mut self) -> (r: Result<(), CpuError>)
        requires
            old(self).wf(),
        ensures
            final(self).wf(),
            match spec_step(old(self)@) {
                StepOutcome::Next(next) => r == Ok::<(), CpuError>(()) && final(self)@ == next,
                StepOutcome::DecodeFailed(opcode, prefixed) => r == Err::<(), CpuError>(
                    CpuError::Decode { pc: old(self)@.pc, opcode, prefixed },
                ) && final(self)@ == old(self)@,
                StepOutcome::Unimplemented(opcode, prefixed) => r == Err::<(), CpuError>(
                    CpuError::UnimplementedOperation { pc: old(self)@.pc, opcode, prefixed },
                ) && final(self)@ == old(self)@,
            },
    {
        if self.is_halted {
            return Ok(());
        }
        let first = self.bus.read_byte(self.pc);
        let prefixed = first == PREFIX_MARKER;
        let opcode = if prefixed {
            self.bus.read_byte(self.pc.wrapping_add(1))
        } else {
            first
        };
        match Instruction::from_byte(opcode, prefixed) {
            Some(instruction) => match self.execute(instruction) {
                Ok(next_pc) => {
                    self.pc = next_pc;
                    Ok(())
                },
                Err(_) => Err(CpuError::UnimplementedOperation { pc: self.pc, opcode, prefixed }),
            },
            None => Err(CpuError::Decode { pc: self.pc, opcode, prefixed }),
        }
    }

    /// Executes one decoded instruction: mutates registers, flags, stack
    /// pointer, and memory exactly as the machine model says, and returns
    /// the next program counter value without moving the counter itself.
    /// An unimplemented instruction changes nothing and reports an error.
    pub fn execute(&mut self, instruction: Instruction) -> (r: Result<
        u16,
        UnimplementedOperationError,
    >)
        requires
            old(self).wf(),
        ensures
            final(self).wf(),
            match spec_execute(old(self)@, instruction) {
                Some(next) => r == Ok::<u16, UnimplementedOperationError>(next.pc)
                    && final(self)@ == (MachineState { pc: old(self)@.pc, ..next }),
                None => r == Err::<u16, UnimplementedOperationError>(UnimplementedOperationError)
                    && final(self)@ == old(self)@,
            },
    {
        match instruction {
            Instruction::ADD(target) => {
                let value = match target {
                    ArithmeticTarget::A => self.registers.get_register_u8(RegistersU8::A),
                    ArithmeticTarget::B => self.registers.get_register_u8(RegistersU8::B),
                    ArithmeticTarget::C => self.registers.get_register_u8(RegistersU8::C),
                    ArithmeticTarget::D => self.registers.get_register_u8(RegistersU8::D),
                    ArithmeticTarget::E => self.registers.get_register_u8(RegistersU8::E),
                    ArithmeticTarget::H => self.registers.get_register_u8(RegistersU8::H),
                    ArithmeticTarget::L => self.registers.get_register_u8(RegistersU8::L),
                };
                let new_value = self.add(value);
                self.registers.set_register_u8(RegistersU8::A, new_value);
                Ok(self.pc.wrapping_add(1))
            },
            Instruction::JP(test) => {
                let condition = self.condition_met(test);
                Ok(self.jump(condition))
            },
            Instruction::LD(load_type) => match load_type {
                LoadType::Byte(target, source) => {
                    let source_value = match source {
                        LoadSource::A => Some(self.registers.get_register_u8(RegistersU8::A)),
                        LoadSource::D8 => Some(self.read_next_byte()),
                        LoadSource::HLI => Some(
                            self.bus.read_byte(self.registers.get_register_u16(RegistersU16::HL)),
                        ),
                        _ => None,
                    };
                    let next_pc = match source {
                        LoadSource::D8 => self.pc.wrapping_add(2),
                        _ => self.pc.wrapping_add(1),
                    };
                    match source_value {
                        Some(value) => match target {
                            LoadTarget::A => {
                                self.registers.set_register_u8(RegistersU8::A, value);
                                Ok(next_pc)
                            },
                            LoadTarget::HLI => {
                                let address = self.registers.get_register_u16(RegistersU16::HL);
                                self.bus.write_byte(address, value);
                                Ok(next_pc)
                            },
                            _ => Err(UnimplementedOperationError),
                        },
                        None => Err(UnimplementedOperationError),
                    }
                },
                _ => Err(UnimplementedOperationError),
            },
            Instruction::CALL(test) => {
                let condition = self.condition_met(test);
                Ok(self.call(condition))
            },
            Instruction::RET(test) => {
                let condition = self.condition_met(test);
                Ok(self.return_(condition))
            },
            Instruction::PUSH(target) => {
                let value = match target {
                    StackTarget::BC => self.registers.get_register_u16(RegistersU16::BC),
                };
                self.push(value);
                Ok(self.pc.wrapping_add(1))
            },
            Instruction::POP(target) => {
                let result = self.pop();
                match target {
                    StackTarget::BC => self.registers.set_register_u16(RegistersU16::BC, result),
                };
                Ok(self.pc.wrapping_add(1))
            },
            Instruction::NOP => Ok(self.pc.wrapping_add(1)),
            Instruction::HALT => {
                self.is_halted = true;
                Ok(self.pc.wrapping_add(1))
            },
            _ => Err(UnimplementedOperationError),
        }
    }

    /// The immediate byte following the opcode at the program counter.
    fn read_next_byte(&self) -> (r: u8)
        requires
            self.wf(),
        ensures
            r == spec_imm_byte(self@),
    {
        self.bus.read_byte(self.pc.wrapping_add(1))
    }

    /// The little-endian immediate word following the opcode: the byte at
    /// the counter plus one is the low byte, the next one the high byte.
    fn read_next_word(&self) -> (r: u16)
        requires
            self.wf(),
        ensures
            r == spec_imm_word(self@),
    {
        let low = self.bus.read_byte(self.pc.wrapping_add(1));
        let high = self.bus.read_byte(self.pc.wrapping_add(2));
        (high as u16) * 256 + (low as u16)
    }

    /// Pushes a word: stack pointer down one, high byte written; down one
    /// more, low byte written. Wraps at the 16-bit boundary.
    fn push(&mut self, value: u16)
        requires
            old(self).wf(),
        ensures
            final(self).wf(),
            final(self)@ == spec_push(old(self)@, value),
    {
        self.sp = self.sp.wrapping_sub(1);
        self.bus.write_byte(self.sp, (value / 256) as u8);
        self.sp = self.sp.wrapping_sub(1);
        self.bus.write_byte(self.sp, (value % 256) as u8);
    }

    /// Pops a word: low byte read at the stack pointer, high byte one above,
    /// the pointer moving up past both. Wraps at the 16-bit boundary.
    fn pop(&mut self) -> (r: u16)
        requires
            old(self).wf(),
        ensures
            final(self).wf(),
            final(self)@ == spec_pop(old(self)@).0,
            r == spec_pop(old(self)@).1,
    {
        let low = self.bus.read_byte(self.sp);
        self.sp = self.sp.wrapping_add(1);
        let high = self.bus.read_byte(self.sp);
        self.sp = self.sp.wrapping_add(1);
        (high as u16) * 256 + (low as u16)
    }

    /// Whether a jump condition holds under the current flags.
    fn condition_met(&self, test: JumpTest) -> (r: bool)
        ensures
            r == spec_eval_condition(test, self@.regs.f),
    {
        match test {
            JumpTest::NotZero => !self.registers.get_flag(Flags::ZERO),
            JumpTest::Zero => self.registers.get_flag(Flags::ZERO),
            JumpTest::NotCarry => !self.registers.get_flag(Flags::CARRY),
            JumpTest::Carry => self.registers.get_flag(Flags::CARRY),
            JumpTest::Always => true,
        }
    }

    /// Adds a value to the accumulator's current contents: returns the
    /// wrapped sum and sets all four flags from the pre-mutation accumulator
    /// value, leaving the accumulator itself for the caller to write.
    fn add(&mut self, value: u8) -> (r: u8)
        ensures
            r == ((old(self).registers.a + value) % 256) as u8,
            final(self)@ == (MachineState {
                regs: RegisterBank {
                    f: spec_add_flags(old(self).registers.a, value),
                    ..old(self)@.regs
                },
                ..old(self)@
            }),
    {
        let a = self.registers.get_register_u8(RegistersU8::A);
        let sum = (a as u16) + (value as u16);
        let new_value = (sum % 256) as u8;
        self.registers.set_flag(Flags::ZERO, new_value == 0);
        self.registers.set_flag(Flags::SUBTRACT, false);
        self.registers.set_flag(Flags::CARRY, sum > 0xFF);
        self.registers.set_flag(Flags::HALF_CARRY, (a % 16) + (value % 16) > 0xF);
        new_value
    }

    /// The next program counter for a jump: the immediate target word when
    /// the condition held, or past the three instruction bytes when not.
    fn jump(&self, should_jump: bool) -> (r: u16)
        requires
            self.wf(),
        ensures
            r == (if should_jump {
                spec_imm_word(self@)
            } else {
                wrap_add16(self@.pc, 3)
            }),
    {
        if should_jump {
            self.read_next_word()
        } else {
            self.pc.wrapping_add(3)
        }
    }

    /// A call: the return counter (past the three instruction bytes) is
    /// pushed and the immediate target word becomes the next counter when
    /// the condition held; otherwise nothing is pushed and execution falls
    /// through to the return counter.
    fn call(&mut self, should_jump: bool) -> (r: u16)
        requires
            old(self).wf(),
        ensures
            final(self).wf(),
            should_jump ==> final(self)@ == spec_push(old(self)@, wrap_add16(old(self)@.pc, 3))
                && r == spec_imm_word(spec_push(old(self)@, wrap_add16(old(self)@.pc, 3))),
            !should_jump ==> final(self)@ == old(self)@ && r == wrap_add16(old(self)@.pc, 3),
    {
        let next_pc = self.pc.wrapping_add(3);
        if should_jump {
            self.push(next_pc);
            self.read_next_word()
        } else {
            next_pc
        }
    }

    /// A return: pops the counter pushed by the pairing call when the
    /// condition held, or advances past the one-byte instruction.
    fn return_(&mut self, should_jump: bool) -> (r: u16)
        requires
            old(self).wf(),
        ensures
            final(self).wf(),
            should_jump ==> final(self)@ == spec_pop(old(self)@).0 && r == spec_pop(old(self)@).1,
            !should_jump ==> final(self)@ == old(self)@ && r == wrap_add16(old(self)@.pc, 1),
    {
        if should_jump {
            self.pop()
        } else {
            self.pc.wrapping_add(1)
        }
    }
}

} // verus!
