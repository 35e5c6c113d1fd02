//! The memory bus: a flat, fixed 65,536-byte address space, zero-initialized
//! at construction, read and written one byte at a time. Both operations are
//! total over the full 16-bit address range, since the address type is
//! exactly the bus's size.

use vstd::prelude::*;

verus! {

/// The number of bytes on the bus: one for every 16-bit address.
pub const MEMORY_SIZE: usize = 0x10000;

/// A flat byte-addressable memory of exactly `MEMORY_SIZE` cells.
pub struct MemoryBus {
    pub memory: Vec<u8>,
}

impl View for MemoryBus {
    type V = Seq<u8>;

    open spec fn view(&self) -> Seq<u8> {
        self.memory@
    }
}

impl MemoryBus {
    /// The bus holds one byte for every 16-bit address.
    pub open spec fn wf(self) -> bool {
        self@.len() == MEMORY_SIZE
    }

    /// A fresh bus with every cell zero.
    pub fn new() -> (r: Self)
        ensures
            r.wf(),
            r@ == Seq::new(MEMORY_SIZE as nat, |i: int| 0u8),
    {
        let mut memory: Vec<u8> = Vec::new();
        while memory.len() < MEMORY_SIZE
            invariant
                memory@.len() <= MEMORY_SIZE,
                forall|i: int| 0 <= i < memory@.len() ==> memory@[i] == 0u8,
            decreases MEMORY_SIZE - memory@.len(),
        {
            memory.push(0);
        }
        let r = MemoryBus { memory };
        proof {
            assert(r@ =~= Seq::new(MEMORY_SIZE as nat, |i: int| 0u8));
        }
        r
    }

    /// Reads the byte at the given address.
    pub fn read_byte(&self, address: u16) -> (r: u8)
        requires
            self.wf(),
        ensures
            r == self@[address as int],
    {
        self.memory[address as usize]
    }

    /// Writes the byte at the given address, changing no other cell.
    pub fn write_byte(&mut self, address: u16, byte: u8)
        requires
            old(self).wf(),
        ensures
            final(self).wf(),
            final(self)@ == old(self)@.update(address as int, byte),
    {
        self.memory.set(address as usize, byte);
    }
}

} // verus!
