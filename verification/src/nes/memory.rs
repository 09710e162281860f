use vstd::prelude::*;

verus! {

/// Number of addressable bytes: the full 64 KiB space, so every 16-bit
/// address is in bounds and address arithmetic wraps at the boundary.
pub const NES_MEM_SIZE: usize = 65536;

/// Round trip: writing a byte at an address and then reading the same
/// address back yields exactly that byte, for every address, stated over
/// the memory model that `write` and `read` are specified with.
pub proof fn lemma_write_read_round_trip(mem: Seq<u8>, addr: u16, byte: u8)
    requires
        mem.len() == NES_MEM_SIZE,
    ensures
        mem.update(addr as int, byte)[addr as int] == byte,
{
}

/// Flat 64 KiB byte memory, zero-initialized at construction.
pub struct Memory {
    pub primary_memory: Vec<u8>,
}

impl Memory {
    pub open spec fn wf(&self) -> bool {
        self.primary_memory@.len() == NES_MEM_SIZE
    }

    pub fn new() -> (m: Memory)
        ensures
            m.wf(),
            forall|a: int| 0 <= a < NES_MEM_SIZE ==> m.primary_memory@[a] == 0u8,
    {
        let mut bytes: Vec<u8> = Vec::new();
        while bytes.len() < NES_MEM_SIZE
            invariant
                bytes@.len() <= NES_MEM_SIZE,
                forall|a: int| 0 <= a < bytes@.len() ==> bytes@[a] == 0u8,
            decreases NES_MEM_SIZE - bytes@.len(),
        {
            bytes.push(0u8);
        }
        Memory { primary_memory: bytes }
    }

    /// Read the byte at an address.
    pub fn read(&self, addr: u16) -> (b: u8)
        requires
            self.wf(),
        ensures
            b == self.primary_memory@[addr as int],
    {
        self.primary_memory[addr as usize]
    }

    /// Write a byte at an address.
    pub fn write(&mut self, addr: u16, byte: u8)
        requires
            old(self).wf(),
        ensures
            final(self).wf(),
            final(self).primary_memory@ == old(self).primary_memory@.update(addr as int, byte),
    {
        self.primary_memory.set(addr as usize, byte);
    }

    /// Copy a program image verbatim into memory at the cartridge base
    /// 0x8000: the entire input is the program, with no header parsing.
    pub fn load_program(&mut self, program: &[u8])
        requires
            old(self).wf(),
            program@.len() <= 0x8000,
        ensures
            final(self).wf(),
            forall|k: int|
                0 <= k < program@.len() ==> final(self).primary_memory@[0x8000 + k]
                    == program@[k],
            forall|a: int|
                0 <= a < NES_MEM_SIZE && !(0x8000 <= a < 0x8000 + program@.len())
                    ==> final(self).primary_memory@[a] == old(self).primary_memory@[a],
    {
        let mut k: usize = 0;
        while k < program.len()
            invariant
                self.wf(),
                k <= program@.len(),
                program@.len() <= 0x8000,
                forall|j: int| 0 <= j < k ==> self.primary_memory@[0x8000 + j] == program@[j],
                forall|a: int|
                    0 <= a < NES_MEM_SIZE && !(0x8000 <= a < 0x8000 + k)
                        ==> self.primary_memory@[a] == old(self).primary_memory@[a],
            decreases program@.len() - k,
        {
            self.primary_memory.set(0x8000 + k, program[k]);
            k = k + 1;
        }
    }
}

} // verus!
