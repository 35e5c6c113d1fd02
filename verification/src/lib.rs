//! A software model of an 8-bit CPU core in the Game-Boy family: an opcode
//! decoder over the unprefixed and prefixed opcode spaces, a register file
//! with packed condition flags, a flat byte-addressable memory bus, and an
//! execution engine that performs one fetch-decode-execute cycle per step
//! with bit-exact flag, stack, and program-counter semantics.

pub mod cpu;
pub mod flags_register;
pub mod instruction;
pub mod machine;
pub mod memory;
pub mod registers;
pub mod words;

pub use cpu::CPU;
pub use cpu::CpuError;
pub use cpu::UnimplementedOperationError;
pub use flags_register::Flags;
pub use flags_register::FlagsRegister;
pub use instruction::ArithmeticSource;
pub use instruction::ArithmeticTarget;
pub use instruction::IncDecTarget;
pub use instruction::Instruction;
pub use instruction::JumpTest;
pub use instruction::LoadSource;
pub use instruction::LoadTarget;
pub use instruction::LoadType;
pub use instruction::PrefixTarget;
pub use instruction::StackTarget;
pub use memory::MemoryBus;
pub use registers::RegisterBank;
pub use registers::RegistersU16;
pub use registers::RegistersU8;
