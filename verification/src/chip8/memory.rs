use vstd::prelude::*;

verus! {

/// Number of addressable bytes in the CHIP-8 address space.
pub const MEM_SIZE: usize = 4096;

/// Depth of the subroutine call stack.
pub const STACK_DEPTH: usize = 16;

/// A 16-bit address reduced into the 4 KiB address space.
///
/// Every memory access of the engine goes through this mask, so an address
/// that has grown past 0xFFF wraps around instead of faulting. That masking
/// is the single bounds discipline of the whole machine.
pub open spec fn masked(addr: u16) -> int {
    (addr & 0x0FFF) as int
}

/// The call-stack slot addressed by an 8-bit stack pointer: the pointer
/// wraps freely over its full byte range and is reduced modulo the stack
/// depth on every access.
pub open spec fn stack_slot(sp: u8) -> int {
    (sp % 16) as int
}

/// The masked form of any address lies inside the 4 KiB space.
pub proof fn lemma_masked_in_range(addr: u16)
    by (bit_vector)
    ensures
        addr & 0x0FFF < 4096,
{
}

/// Round trip: writing a byte at an address and then reading the same
/// address back yields exactly that byte, for every address, stated over
/// the memory model that `write` and `read` are specified with.
pub proof fn lemma_write_read_round_trip(mem: Seq<u8>, addr: u16, byte: u8)
    requires
        mem.len() == MEM_SIZE,
    ensures
        mem.update(masked(addr), byte)[masked(addr)] == byte,
{
    lemma_masked_in_range(addr);
}

/// Flat 4 KiB byte memory plus the bounded call stack of return addresses.
/// Both are zero-initialized at construction.
pub struct Memory {
    pub primary_memory: Vec<u8>,
    pub stack: Vec<u16>,
}

impl Memory {
    pub open spec fn wf(&self) -> bool {
        &&& self.primary_memory@.len() == MEM_SIZE
        &&& self.stack@.len() == STACK_DEPTH
    }

    pub fn new() -> (m: Memory)
        ensures
            m.wf(),
            forall|a: int| 0 <= a < MEM_SIZE ==> m.primary_memory@[a] == 0u8,
            forall|s: int| 0 <= s < STACK_DEPTH ==> m.stack@[s] == 0u16,
    {
        let mut bytes: Vec<u8> = Vec::new();
        while bytes.len() < MEM_SIZE
            invariant
                bytes@.len() <= MEM_SIZE,
                forall|a: int| 0 <= a < bytes@.len() ==> bytes@[a] == 0u8,
            decreases MEM_SIZE - bytes@.len(),
        {
            bytes.push(0u8);
        }
        let mut frames: Vec<u16> = Vec::new();
        while frames.len() < STACK_DEPTH
            invariant
                frames@.len() <= STACK_DEPTH,
                forall|s: int| 0 <= s < frames@.len() ==> frames@[s] == 0u16,
            decreases STACK_DEPTH - frames@.len(),
        {
            frames.push(0u16);
        }
        Memory { primary_memory: bytes, stack: frames }
    }

    /// Read the byte at an address (masked into range).
    pub fn read(&self, addr: u16) -> (b: u8)
        requires
            self.wf(),
        ensures
            b == self.primary_memory@[masked(addr)],
    {
        proof {
            lemma_masked_in_range(addr);
        }
        self.primary_memory[(addr & 0x0FFF) as usize]
    }

    /// Write a byte at an address (masked into range).
    pub fn write(&mut self, addr: u16, byte: u8)
        requires
            old(self).wf(),
        ensures
            final(self).wf(),
            final(self).primary_memory@ == old(self).primary_memory@.update(masked(addr), byte),
            final(self).stack == old(self).stack,
    {
        proof {
            lemma_masked_in_range(addr);
        }
        self.primary_memory.set((addr & 0x0FFF) as usize, byte);
    }

    /// Bulk-copy a byte sequence into memory starting at `offset`; used once
    /// at startup to install the font table and the program image.
    pub fn load(&mut self, offset: usize, bytes: &[u8])
        requires
            old(self).wf(),
            offset + bytes@.len() <= MEM_SIZE,
        ensures
            final(self).wf(),
            final(self).primary_memory@.len() == MEM_SIZE,
            forall|a: int|
                offset <= a < offset + bytes@.len() ==> final(self).primary_memory@[a]
                    == bytes@[a - offset],
            forall|a: int|
                0 <= a < MEM_SIZE && !(offset <= a < offset + bytes@.len())
                    ==> final(self).primary_memory@[a] == old(self).primary_memory@[a],
            final(self).stack == old(self).stack,
    {
        let mut k: usize = 0;
        while k < bytes.len()
            invariant
                self.wf(),
                k <= bytes@.len(),
                offset + bytes@.len() <= MEM_SIZE,
                forall|a: int|
                    offset <= a < offset + k ==> self.primary_memory@[a] == bytes@[a - offset],
                forall|a: int|
                    0 <= a < MEM_SIZE && !(offset <= a < offset + k) ==> self.primary_memory@[a]
                        == old(self).primary_memory@[a],
                self.stack == old(self).stack,
            decreases bytes@.len() - k,
        {
            self.primary_memory.set(offset + k, bytes[k]);
            k = k + 1;
        }
    }

    /// Read the call-stack slot addressed by a stack pointer.
    pub fn stack_read(&self, sp: u8) -> (v: u16)
        requires
            self.wf(),
        ensures
            v == self.stack@[stack_slot(sp)],
    {
        self.stack[(sp % 16) as usize]
    }

    /// Write the call-stack slot addressed by a stack pointer.
    pub fn stack_write(&mut self, sp: u8, value: u16)
        requires
            old(self).wf(),
        ensures
            final(self).wf(),
            final(self).stack@ == old(self).stack@.update(stack_slot(sp), value),
            final(self).primary_memory == old(self).primary_memory,
    {
        self.stack.set((sp % 16) as usize, value);
    }
}

} // verus!
