use vstd::prelude::*;

verus! {

/// The 6502 register file: accumulator, the X and Y index registers, the
/// bit-mapped status register, the 16-bit program counter and the 8-bit
/// stack pointer into the fixed stack page.
///
/// Status register layout, bit 0 upward: carry, zero, interrupt-disable,
/// decimal, the two unused B bits, overflow, negative.
pub struct Cpu {
    pub program_counter: u16,
    pub stack_pointer: u8,
    pub x: u8,
    pub y: u8,
    pub accumulator: u8,
    pub status: u8,
}

impl Cpu {
    /// Power-on state: the program counter parked on the reset vector,
    /// the stack pointer at the top of the stack page, everything else zero.
    pub fn new() -> (c: Cpu)
        ensures
            c.program_counter == 0xFFFCu16,
            c.stack_pointer == 0xFFu8,
            c.x == 0u8,
            c.y == 0u8,
            c.accumulator == 0u8,
            c.status == 0u8,
    {
        Cpu {
            program_counter: 0xFFFC,
            stack_pointer: 0xFF,
            x: 0x00,
            y: 0x00,
            accumulator: 0x00,
            status: 0x00,
        }
    }
}

} // verus!
