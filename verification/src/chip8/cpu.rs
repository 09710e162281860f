use vstd::prelude::*;

verus! {

/// A countdown timer value after one tick: it decrements while nonzero and
/// floors at zero.
pub open spec fn ticked(t: u8) -> u8 {
    if t > 0 {
        (t - 1) as u8
    } else {
        0u8
    }
}

/// The CHIP-8 register file: sixteen 8-bit general registers V0..VF (VF
/// doubles as the carry/borrow/collision flag), the 16-bit address register
/// `i`, the 16-bit program counter, the wrapping 8-bit stack pointer, and the
/// two countdown timers.
pub struct Cpu {
    pub current_instruction: u16,
    pub sound_timer: u8,
    pub delay_timer: u8,
    pub registers: Vec<u8>,
    pub i: u16,
    pub program_counter: u16,
    pub stack_pointer: u8,
}

impl Cpu {
    pub open spec fn wf(&self) -> bool {
        self.registers@.len() == 16
    }

    /// Power-on state: PC at the program base 0x200, the stack pointer at its
    /// empty-stack sentinel 0xFF, everything else zero.
    pub fn new() -> (c: Cpu)
        ensures
            c.wf(),
            c.current_instruction == 0u16,
            c.i == 0u16,
            c.program_counter == 0x200u16,
            c.stack_pointer == 255u8,
            c.sound_timer == 0u8,
            c.delay_timer == 0u8,
            forall|r: int| 0 <= r < 16 ==> c.registers@[r] == 0u8,
    {
        let mut regs: Vec<u8> = Vec::new();
        while regs.len() < 16
            invariant
                regs@.len() <= 16,
                forall|r: int| 0 <= r < regs@.len() ==> regs@[r] == 0u8,
            decreases 16 - regs@.len(),
        {
            regs.push(0u8);
        }
        Cpu {
            current_instruction: 0x0000,
            i: 0x0,
            program_counter: 0x200,
            stack_pointer: 255,
            sound_timer: 0,
            delay_timer: 0,
            registers: regs,
        }
    }

    /// Decrement both countdown timers by one, flooring at zero.
    pub fn update_timers(&mut self)
        ensures
            final(self).sound_timer == ticked(old(self).sound_timer),
            final(self).delay_timer == ticked(old(self).delay_timer),
            final(self).current_instruction == old(self).current_instruction,
            final(self).registers == old(self).registers,
            final(self).i == old(self).i,
            final(self).program_counter == old(self).program_counter,
            final(self).stack_pointer == old(self).stack_pointer,
    {
        if self.sound_timer > 0 {
            self.sound_timer = self.sound_timer - 1;
        }
        if self.delay_timer > 0 {
            self.delay_timer = self.delay_timer - 1;
        }
    }
}

} // verus!
