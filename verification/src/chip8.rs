pub mod cpu;
pub mod display;
pub mod keyboard;
pub mod memory;
pub mod speaker;

use crate::EmuError;
use crate::StepOutcome;
use cpu::ticked;
use display::any_collision;
use display::rendered;
use memory::masked;
use memory::stack_slot;
use rand::Rng;
use vstd::prelude::*;

verus! {

/// The x field of an opcode: the high nibble of its second byte.
pub open spec fn op_x(op: u16) -> int {
    ((op & 0x0F00) >> 8) as int
}

/// The y field of an opcode: the high nibble of its low byte.
pub open spec fn op_y(op: u16) -> int {
    ((op & 0x00F0) >> 4) as int
}

/// The n field of an opcode: its low nibble.
pub open spec fn op_n(op: u16) -> u8 {
    (op & 0x000F) as u8
}

/// The kk field of an opcode: its low byte.
pub open spec fn op_kk(op: u16) -> u8 {
    (op & 0x00FF) as u8
}

/// The nnn field of an opcode: its low 12 bits.
pub open spec fn op_nnn(op: u16) -> u16 {
    op & 0x0FFF
}

/// Bounds of the decoded opcode fields.
pub proof fn lemma_op_field_bounds(op: u16)
    by (bit_vector)
    ensures
        (op & 0x0F00) >> 8 < 16,
        (op & 0x00F0) >> 4 < 16,
        op & 0x000F < 16,
        op & 0x00FF < 256,
        op & 0x0FFF < 4096,
{
}

/// The top nibble of an opcode selects one of sixteen instruction families.
pub proof fn lemma_family_cases(op: u16)
    by (bit_vector)
    ensures
        op & 0xF000 == 0x0000 || op & 0xF000 == 0x1000 || op & 0xF000 == 0x2000 || op & 0xF000
            == 0x3000 || op & 0xF000 == 0x4000 || op & 0xF000 == 0x5000 || op & 0xF000 == 0x6000
            || op & 0xF000 == 0x7000 || op & 0xF000 == 0x8000 || op & 0xF000 == 0x9000 || op
            & 0xF000 == 0xA000 || op & 0xF000 == 0xB000 || op & 0xF000 == 0xC000 || op & 0xF000
            == 0xD000 || op & 0xF000 == 0xE000 || op & 0xF000 == 0xF000,
{
}

/// The whole machine state as mathematical values: the state space of the
/// transition function `chip8_step`.
#[verifier::ext_equal]
pub ghost struct Chip8View {
    pub regs: Seq<u8>,
    pub i: u16,
    pub pc: u16,
    pub sp: u8,
    pub delay: u8,
    pub sound: u8,
    pub current: u16,
    pub mem: Seq<u8>,
    pub stack: Seq<u16>,
    pub disp: Seq<u8>,
    pub pressed: Option<u8>,
}

impl Chip8View {
    pub open spec fn wf(self) -> bool {
        &&& self.regs.len() == 16
        &&& self.mem.len() == 4096
        &&& self.stack.len() == 16
        &&& self.disp.len() == 2048
        &&& forall|p: int| 0 <= p < 2048 ==> (self.disp[p] == 0u8 || self.disp[p] == 1u8)
    }
}

/// The state with the program counter moved past one more instruction (a
/// taken skip).
pub open spec fn skipped(v: Chip8View) -> Chip8View {
    Chip8View { pc: v.pc.wrapping_add(2), ..v }
}

/// Memory after registers V0..V(k-1) have been stored at the address
/// register onward (the store-registers opcode).
pub open spec fn regs_stored(mem: Seq<u8>, regs: Seq<u8>, i: u16, k: nat) -> Seq<u8>
    decreases k,
{
    if k == 0 {
        mem
    } else {
        regs_stored(mem, regs, i, (k - 1) as nat).update(
            masked(i.wrapping_add((k - 1) as u16)),
            regs[k - 1],
        )
    }
}

/// Registers after V0..V(k-1) have been filled from memory at the address
/// register onward (the load-registers opcode).
pub open spec fn regs_loaded(regs: Seq<u8>, mem: Seq<u8>, i: u16, k: nat) -> Seq<u8>
    decreases k,
{
    if k == 0 {
        regs
    } else {
        regs_loaded(regs, mem, i, (k - 1) as nat).update(
            k - 1,
            mem[masked(i.wrapping_add((k - 1) as u16))],
        )
    }
}

/// Effect of the arithmetic/logic family (top nibble 8) on the register
/// file alone. The flag register VF is written first and the destination
/// register afterwards; the add and subtract forms compute their result
/// from the operands as read before the flag write, while the shift forms
/// read their operand only after it, so with VF itself as destination a
/// shift works on the fresh flag value. Returns `None` for an undefined
/// low nibble.
pub open spec fn alu_apply(regs: Seq<u8>, op: u16) -> Option<Seq<u8>> {
    let x = op_x(op);
    let y = op_y(op);
    let a = regs[x];
    let b = regs[y];
    let sel = op & 0x000F;
    if sel == 0x0 {
        Some(regs.update(x, b))
    } else if sel == 0x1 {
        Some(regs.update(x, a | b))
    } else if sel == 0x2 {
        Some(regs.update(x, a & b))
    } else if sel == 0x3 {
        Some(regs.update(x, a ^ b))
    } else if sel == 0x4 {
        let carry: u8 = if a + b > 255 {
            1u8
        } else {
            0u8
        };
        Some(regs.update(15, carry).update(x, a.wrapping_add(b)))
    } else if sel == 0x5 {
        let flag: u8 = if a > b {
            1u8
        } else {
            0u8
        };
        Some(regs.update(15, flag).update(x, a.wrapping_sub(b)))
    } else if sel == 0x6 {
        let r1 = regs.update(15, a & 1);
        Some(r1.update(x, r1[x] >> 1u8))
    } else if sel == 0x7 {
        let flag: u8 = if b > a {
            1u8
        } else {
            0u8
        };
        Some(regs.update(15, flag).update(x, b.wrapping_sub(a)))
    } else if sel == 0xE {
        let flag: u8 = if a & 0x80 == 0x80 {
            1u8
        } else {
            0u8
        };
        let r1 = regs.update(15, flag);
        Some(r1.update(x, r1[x] << 1u8))
    } else {
        None
    }
}

/// The arithmetic/logic family lifted to a whole machine state whose program
/// counter has already been advanced past the opcode.
pub open spec fn alu_step(t: Chip8View, op: u16) -> Option<Chip8View> {
    match alu_apply(t.regs, op) {
        Some(r) => Some(Chip8View { regs: r, ..t }),
        None => None,
    }
}

/// Effect of the keyboard skip family (top nibble E) on an advanced state.
pub open spec fn key_step(t: Chip8View, op: u16) -> Option<Chip8View> {
    let sel = op & 0x00FF;
    let down = t.pressed == Some(t.regs[op_x(op)]);
    if sel == 0x9E {
        Some(
            if down {
                skipped(t)
            } else {
                t
            },
        )
    } else if sel == 0xA1 {
        Some(
            if !down {
                skipped(t)
            } else {
                t
            },
        )
    } else {
        None
    }
}

/// Effect of the miscellaneous family (top nibble F) on an advanced state.
/// The wait-for-key opcode with no key down rewinds the program counter so
/// the whole step leaves the machine unchanged.
pub open spec fn misc_step(t: Chip8View, op: u16) -> Option<Chip8View> {
    let x = op_x(op);
    let sel = op & 0x00FF;
    if sel == 0x07 {
        Some(Chip8View { regs: t.regs.update(x, t.delay), ..t })
    } else if sel == 0x0A {
        match t.pressed {
            Some(v) => Some(Chip8View { regs: t.regs.update(x, v), ..t }),
            None => Some(Chip8View { pc: t.pc.wrapping_sub(2), ..t }),
        }
    } else if sel == 0x15 {
        Some(Chip8View { delay: t.regs[x], ..t })
    } else if sel == 0x18 {
        Some(Chip8View { sound: t.regs[x], ..t })
    } else if sel == 0x1E {
        Some(Chip8View { i: t.i.wrapping_add(t.regs[x] as u16), ..t })
    } else if sel == 0x29 {
        Some(Chip8View { i: (t.regs[x] * 5) as u16, ..t })
    } else if sel == 0x33 {
        let v = t.regs[x];
        Some(
            Chip8View {
                mem: t.mem.update(masked(t.i.wrapping_add(2)), (v % 10) as u8).update(
                    masked(t.i.wrapping_add(1)),
                    ((v % 100) / 10) as u8,
                ).update(masked(t.i), (v / 100) as u8),
                ..t
            },
        )
    } else if sel == 0x55 {
        Some(
            Chip8View {
                mem: regs_stored(t.mem, t.regs, t.i, (x + 1) as nat),
                i: t.i.wrapping_add((x + 1) as u16),
                ..t
            },
        )
    } else if sel == 0x65 {
        Some(
            Chip8View {
                regs: regs_loaded(t.regs, t.mem, t.i, (x + 1) as nat),
                i: t.i.wrapping_add((x + 1) as u16),
                ..t
            },
        )
    } else {
        None
    }
}

/// Whether an opcode is in the dispatch table at all; `execute` reports an
/// error exactly on the patterns this rejects.
pub open spec fn chip8_recognized(op: u16) -> bool {
    let fam = op & 0xF000;
    if fam == 0x8000 {
        let sel = op & 0x000F;
        sel == 0x0 || sel == 0x1 || sel == 0x2 || sel == 0x3 || sel == 0x4 || sel == 0x5 || sel
            == 0x6 || sel == 0x7 || sel == 0xE
    } else if fam == 0xE000 {
        op & 0x00FF == 0x9E || op & 0x00FF == 0xA1
    } else if fam == 0xF000 {
        let sel = op & 0x00FF;
        sel == 0x07 || sel == 0x0A || sel == 0x15 || sel == 0x18 || sel == 0x1E || sel == 0x29
            || sel == 0x33 || sel == 0x55 || sel == 0x65
    } else {
        true
    }
}

/// The opcode that draws a random byte; the only nondeterministic step.
pub open spec fn is_random_op(op: u16) -> bool {
    op & 0xF000 == 0xC000
}

/// The wait-for-key opcode.
pub open spec fn is_wait_key_op(op: u16) -> bool {
    op & 0xF000 == 0xF000 && op & 0x00FF == 0x0A
}

/// The transition function of the machine: the state after executing one
/// already-fetched opcode `op` from state `s`, where `rnd` is the byte the
/// random source delivered (ignored by every opcode but the random one).
/// `None` means the opcode is not in the dispatch table.
pub open spec fn chip8_step(s: Chip8View, op: u16, rnd: u8) -> Option<Chip8View> {
    let x = op_x(op);
    let y = op_y(op);
    let kk = op_kk(op);
    let nnn = op_nnn(op);
    let fam = op & 0xF000;
    let t = Chip8View { pc: s.pc.wrapping_add(2), ..s };
    if fam == 0x0000 {
        if op == 0x00E0 {
            Some(Chip8View { disp: Seq::new(2048, |p: int| 0u8), ..t })
        } else if op == 0x00EE {
            Some(Chip8View { pc: s.stack[stack_slot(s.sp)], sp: s.sp.wrapping_sub(1), ..t })
        } else {
            Some(t)
        }
    } else if fam == 0x1000 {
        Some(Chip8View { pc: nnn, ..t })
    } else if fam == 0x2000 {
        let sp1 = s.sp.wrapping_add(1);
        Some(Chip8View { sp: sp1, stack: s.stack.update(stack_slot(sp1), t.pc), pc: nnn, ..t })
    } else if fam == 0x3000 {
        Some(
            if t.regs[x] == kk {
                skipped(t)
            } else {
                t
            },
        )
    } else if fam == 0x4000 {
        Some(
            if t.regs[x] != kk {
                skipped(t)
            } else {
                t
            },
        )
    } else if fam == 0x5000 {
        Some(
            if t.regs[x] == t.regs[y] {
                skipped(t)
            } else {
                t
            },
        )
    } else if fam == 0x6000 {
        Some(Chip8View { regs: t.regs.update(x, kk), ..t })
    } else if fam == 0x7000 {
        Some(Chip8View { regs: t.regs.update(x, t.regs[x].wrapping_add(kk)), ..t })
    } else if fam == 0x8000 {
        alu_step(t, op)
    } else if fam == 0x9000 {
        Some(
            if t.regs[x] != t.regs[y] {
                skipped(t)
            } else {
                t
            },
        )
    } else if fam == 0xA000 {
        Some(Chip8View { i: nnn, ..t })
    } else if fam == 0xB000 {
        Some(Chip8View { pc: (t.regs[0] + nnn) as u16, ..t })
    } else if fam == 0xC000 {
        Some(Chip8View { regs: t.regs.update(x, rnd & kk), ..t })
    } else if fam == 0xD000 {
        let cx = t.regs[x] as int % 64;
        let cy = t.regs[y] as int % 32;
        let n = op_n(op) as int;
        let vf: u8 = if any_collision(t.disp, t.mem, t.i, cx, cy, n) {
            1u8
        } else {
            0u8
        };
        Some(
            Chip8View {
                disp: rendered(t.disp, t.mem, t.i, cx, cy, n),
                regs: t.regs.update(15, vf),
                ..t
            },
        )
    } else if fam == 0xE000 {
        key_step(t, op)
    } else {
        misc_step(t, op)
    }
}

/// The big-endian 16-bit opcode fetched at the program counter.
pub open spec fn fetched(s: Chip8View) -> u16 {
    ((s.mem[masked(s.pc)] as u16) << 8u16) | (s.mem[masked(s.pc.wrapping_add(1))] as u16)
}

/// One whole cycle: execute the fetched opcode, then tick both timers.
pub open spec fn chip8_cycle(s: Chip8View, rnd: u8) -> Option<Chip8View> {
    match chip8_step(s, fetched(s), rnd) {
        Some(v) => Some(Chip8View { delay: ticked(v.delay), sound: ticked(v.sound), ..v }),
        None => None,
    }
}

/// Relies on rand's `thread_rng` and `Rng::gen_range`: draws one random
/// byte; nothing is assumed of the value.
#[verifier::external_body]
fn random_byte() -> (r: u8) {
    let v: u16 = rand::thread_rng().gen_range(0..256);
    v as u8
}

/// The assembled CHIP-8 machine: register file, memory with its call stack,
/// display buffer, and keyboard state.
pub struct Chip8 {
    pub cpu: cpu::Cpu,
    pub memory: memory::Memory,
    pub display: display::Display,
    pub keyboard: keyboard::Keyboard,
}

impl View for Chip8 {
    type V = Chip8View;

    open spec fn view(&self) -> Chip8View {
        Chip8View {
            regs: self.cpu.registers@,
            i: self.cpu.i,
            pc: self.cpu.program_counter,
            sp: self.cpu.stack_pointer,
            delay: self.cpu.delay_timer,
            sound: self.cpu.sound_timer,
            current: self.cpu.current_instruction,
            mem: self.memory.primary_memory@,
            stack: self.memory.stack@,
            disp: self.display.buffer@,
            pressed: self.keyboard.pressed_key,
        }
    }
}

impl Chip8 {
    pub open spec fn wf(&self) -> bool {
        self@.wf()
    }

    /// Power-on machine: reset register file, zeroed memory and display, no
    /// key down.
    pub fn new() -> (c: Chip8)
        ensures
            c.wf(),
            c@.pc == 0x200u16,
            c@.sp == 255u8,
            c@.i == 0u16,
            c@.delay == 0u8,
            c@.sound == 0u8,
            c@.pressed is None,
            forall|r: int| 0 <= r < 16 ==> c@.regs[r] == 0u8,
            forall|a: int| 0 <= a < 4096 ==> c@.mem[a] == 0u8,
            forall|f: int| 0 <= f < 16 ==> c@.stack[f] == 0u16,
            forall|p: int| 0 <= p < 2048 ==> c@.disp[p] == 0u8,
    {
        Chip8 {
            cpu: cpu::Cpu::new(),
            memory: memory::Memory::new(),
            display: display::Display::new(),
            keyboard: keyboard::Keyboard::new(),
        }
    }

    /// The arithmetic/logic family, dispatched on the low nibble; the
    /// program counter has already been advanced.
    fn exec_alu(&mut self, instruction: u16) -> (ok: bool)
        requires
            old(self).wf(),
            instruction & 0xF000 == 0x8000,
        ensures
            final(self).wf(),
            ok ==> Some(final(self)@) == alu_step(old(self)@, instruction),
            !ok ==> final(self)@ == old(self)@ && alu_step(old(self)@, instruction) is None,
    {
        proof {
            lemma_op_field_bounds(instruction);
        }
        let x: usize = ((instruction & 0x0F00) >> 8) as usize;
        let y: usize = ((instruction & 0x00F0) >> 4) as usize;
        let a: u8 = self.cpu.registers[x];
        let b: u8 = self.cpu.registers[y];
        match instruction & 0x000F {
            0x0000 => {
                self.cpu.registers.set(x, b);
                true
            },
            0x0001 => {
                self.cpu.registers.set(x, a | b);
                true
            },
            0x0002 => {
                self.cpu.registers.set(x, a & b);
                true
            },
            0x0003 => {
                self.cpu.registers.set(x, a ^ b);
                true
            },
            0x0004 => {
                let sum: u16 = a as u16 + b as u16;
                if sum > 0xFF {
                    self.cpu.registers.set(15, 1);
                } else {
                    self.cpu.registers.set(15, 0);
                }
                self.cpu.registers.set(x, a.wrapping_add(b));
                true
            },
            0x0005 => {
                if a > b {
                    self.cpu.registers.set(15, 1);
                } else {
                    self.cpu.registers.set(15, 0);
                }
                self.cpu.registers.set(x, a.wrapping_sub(b));
                true
            },
            0x0006 => {
                self.cpu.registers.set(15, a & 1);
                let v: u8 = self.cpu.registers[x];
                self.cpu.registers.set(x, v >> 1u8);
                true
            },
            0x0007 => {
                if b > a {
                    self.cpu.registers.set(15, 1);
                } else {
                    self.cpu.registers.set(15, 0);
                }
                self.cpu.registers.set(x, b.wrapping_sub(a));
                true
            },
            0x000E => {
                if a & 0x80 == 0x80 {
                    self.cpu.registers.set(15, 1);
                } else {
                    self.cpu.registers.set(15, 0);
                }
                let v: u8 = self.cpu.registers[x];
                self.cpu.registers.set(x, v << 1u8);
                true
            },
            _ => false,
        }
    }

    /// The keyboard skip family; the program counter has already been
    /// advanced.
    fn exec_key(&mut self, instruction: u16) -> (ok: bool)
        requires
            old(self).wf(),
            instruction & 0xF000 == 0xE000,
        ensures
            final(self).wf(),
            ok ==> Some(final(self)@) == key_step(old(self)@, instruction),
            !ok ==> final(self)@ == old(self)@ && key_step(old(self)@, instruction) is None,
    {
        proof {
            lemma_op_field_bounds(instruction);
        }
        let x: usize = ((instruction & 0x0F00) >> 8) as usize;
        match instruction & 0x00FF {
            0x009E => {
                if self.keyboard.is_key_pressed(self.cpu.registers[x]) {
                    self.cpu.program_counter = self.cpu.program_counter.wrapping_add(2);
                }
                true
            },
            0x00A1 => {
                if !self.keyboard.is_key_pressed(self.cpu.registers[x]) {
                    self.cpu.program_counter = self.cpu.program_counter.wrapping_add(2);
                }
                true
            },
            _ => false,
        }
    }

    /// The miscellaneous family (timers, address register, binary-coded
    /// decimal, register save/restore, wait-for-key); the program counter
    /// has already been advanced.
    fn exec_misc(&mut self, instruction: u16) -> (r: Option<StepOutcome>)
        requires
            old(self).wf(),
            instruction & 0xF000 == 0xF000,
        ensures
            final(self).wf(),
            r is Some ==> Some(final(self)@) == misc_step(old(self)@, instruction),
            r is None ==> final(self)@ == old(self)@ && misc_step(old(self)@, instruction) is None,
            r == Some(StepOutcome::WaitingForKey) <==> (instruction & 0x00FF == 0x0A && old(
                self,
            )@.pressed is None),
    {
        proof {
            lemma_op_field_bounds(instruction);
        }
        let x: usize = ((instruction & 0x0F00) >> 8) as usize;
        match instruction & 0x00FF {
            0x0007 => {
                self.cpu.registers.set(x, self.cpu.delay_timer);
                Some(StepOutcome::Ran)
            },
            0x000A => {
                if let Some(val) = self.keyboard.pressed_key {
                    self.cpu.registers.set(x, val);
                    Some(StepOutcome::Ran)
                } else {
                    self.cpu.program_counter = self.cpu.program_counter.wrapping_sub(2);
                    Some(StepOutcome::WaitingForKey)
                }
            },
            0x0015 => {
                self.cpu.delay_timer = self.cpu.registers[x];
                Some(StepOutcome::Ran)
            },
            0x0018 => {
                self.cpu.sound_timer = self.cpu.registers[x];
                Some(StepOutcome::Ran)
            },
            0x001E => {
                self.cpu.i = self.cpu.i.wrapping_add(self.cpu.registers[x] as u16);
                Some(StepOutcome::Ran)
            },
            0x0029 => {
                self.cpu.i = self.cpu.registers[x] as u16 * 5;
                Some(StepOutcome::Ran)
            },
            0x0033 => {
                let v: u8 = self.cpu.registers[x];
                self.memory.write(self.cpu.i.wrapping_add(2), v % 10);
                self.memory.write(self.cpu.i.wrapping_add(1), (v % 100) / 10);
                self.memory.write(self.cpu.i, v / 100);
                Some(StepOutcome::Ran)
            },
            0x0055 => {
                let ghost t0 = self@;
                let base: u16 = self.cpu.i;
                let mut k: usize = 0;
                while k < x + 1
                    invariant
                        self.wf(),
                        k <= x + 1,
                        x < 16,
                        base == t0.i,
                        self.memory.primary_memory@ == regs_stored(t0.mem, t0.regs, base, k as nat),
                        self.cpu == old(self).cpu,
                        self.display == old(self).display,
                        self.keyboard == old(self).keyboard,
                        self.memory.stack == old(self).memory.stack,
                        t0 == old(self)@,
                    decreases x + 1 - k,
                {
                    self.memory.write(base.wrapping_add(k as u16), self.cpu.registers[k]);
                    k = k + 1;
                }
                self.cpu.i = base.wrapping_add((x + 1) as u16);
                Some(StepOutcome::Ran)
            },
            0x0065 => {
                let ghost t0 = self@;
                let base: u16 = self.cpu.i;
                let mut k: usize = 0;
                while k < x + 1
                    invariant
                        self.wf(),
                        k <= x + 1,
                        x < 16,
                        base == t0.i,
                        self.cpu.registers@ == regs_loaded(t0.regs, t0.mem, base, k as nat),
                        self.memory == old(self).memory,
                        self.display == old(self).display,
                        self.keyboard == old(self).keyboard,
                        self.cpu.i == old(self).cpu.i,
                        self.cpu.program_counter == old(self).cpu.program_counter,
                        self.cpu.stack_pointer == old(self).cpu.stack_pointer,
                        self.cpu.delay_timer == old(self).cpu.delay_timer,
                        self.cpu.sound_timer == old(self).cpu.sound_timer,
                        self.cpu.current_instruction == old(self).cpu.current_instruction,
                        t0 == old(self)@,
                    decreases x + 1 - k,
                {
                    let b: u8 = self.memory.read(base.wrapping_add(k as u16));
                    self.cpu.registers.set(k, b);
                    k = k + 1;
                }
                self.cpu.i = base.wrapping_add((x + 1) as u16);
                Some(StepOutcome::Ran)
            },
            _ => None,
        }
    }

    /// Execute one already-fetched instruction: advance the program counter
    /// past it, then apply the opcode's semantics. The whole effect is that
    /// of the transition function `chip8_step`; an opcode outside the
    /// dispatch table leaves the machine untouched and is reported as an
    /// error carrying the opcode and the program counter at fault.
    pub fn execute(&mut self, instruction: u16) -> (r: Result<StepOutcome, EmuError>)
        requires
            old(self).wf(),
        ensures
            final(self).wf(),
            (r is Ok) == chip8_recognized(instruction),
            r is Ok ==> exists|b: u8|
                Some(final(self)@) == #[trigger] chip8_step(old(self)@, instruction, b),
            r is Ok && !is_random_op(instruction) ==> Some(final(self)@) == chip8_step(
                old(self)@,
                instruction,
                0u8,
            ),
            r == Ok::<StepOutcome, EmuError>(StepOutcome::WaitingForKey) <==> (is_wait_key_op(instruction) && old(
                self,
            )@.pressed is None),
            r is Err ==> final(self)@ == old(self)@ && r == Err::<StepOutcome, EmuError>(
                EmuError::UnrecognizedInstruction { opcode: instruction, pc: old(self)@.pc },
            ),
    {
        proof {
            lemma_op_field_bounds(instruction);
            lemma_family_cases(instruction);
        }
        let pc0: u16 = self.cpu.program_counter;
        self.cpu.program_counter = pc0.wrapping_add(2);
        let x: usize = ((instruction & 0x0F00) >> 8) as usize;
        let y: usize = ((instruction & 0x00F0) >> 4) as usize;
        match instruction & 0xF000 {
            0x0000 => {
                if instruction == 0x00E0 {
                    self.display.clear();
                    proof {
                        assert(self.display.buffer@ =~= Seq::new(2048, |p: int| 0u8));
                    }
                } else if instruction == 0x00EE {
                    self.cpu.program_counter = self.memory.stack_read(self.cpu.stack_pointer);
                    self.cpu.stack_pointer = self.cpu.stack_pointer.wrapping_sub(1);
                }
                Ok(StepOutcome::Ran)
            },
            0x1000 => {
                self.cpu.program_counter = instruction & 0x0FFF;
                Ok(StepOutcome::Ran)
            },
            0x2000 => {
                self.cpu.stack_pointer = self.cpu.stack_pointer.wrapping_add(1);
                self.memory.stack_write(self.cpu.stack_pointer, self.cpu.program_counter);
                self.cpu.program_counter = instruction & 0x0FFF;
                Ok(StepOutcome::Ran)
            },
            0x3000 => {
                if self.cpu.registers[x] == (instruction & 0x00FF) as u8 {
                    self.cpu.program_counter = self.cpu.program_counter.wrapping_add(2);
                }
                Ok(StepOutcome::Ran)
            },
            0x4000 => {
                if self.cpu.registers[x] != (instruction & 0x00FF) as u8 {
                    self.cpu.program_counter = self.cpu.program_counter.wrapping_add(2);
                }
                Ok(StepOutcome::Ran)
            },
            0x5000 => {
                if self.cpu.registers[x] == self.cpu.registers[y] {
                    self.cpu.program_counter = self.cpu.program_counter.wrapping_add(2);
                }
                Ok(StepOutcome::Ran)
            },
            0x6000 => {
                self.cpu.registers.set(x, (instruction & 0x00FF) as u8);
                Ok(StepOutcome::Ran)
            },
            0x7000 => {
                let v: u8 = self.cpu.registers[x];
                self.cpu.registers.set(x, v.wrapping_add((instruction & 0x00FF) as u8));
                Ok(StepOutcome::Ran)
            },
            0x8000 => {
                if self.exec_alu(instruction) {
                    Ok(StepOutcome::Ran)
                } else {
                    self.cpu.program_counter = self.cpu.program_counter.wrapping_sub(2);
                    Err(EmuError::UnrecognizedInstruction { opcode: instruction, pc: pc0 })
                }
            },
            0x9000 => {
                if self.cpu.registers[x] != self.cpu.registers[y] {
                    self.cpu.program_counter = self.cpu.program_counter.wrapping_add(2);
                }
                Ok(StepOutcome::Ran)
            },
            0xA000 => {
                self.cpu.i = instruction & 0x0FFF;
                Ok(StepOutcome::Ran)
            },
            0xB000 => {
                self.cpu.program_counter = self.cpu.registers[0] as u16 + (instruction & 0x0FFF);
                Ok(StepOutcome::Ran)
            },
            0xC000 => {
                let b: u8 = random_byte();
                self.cpu.registers.set(x, b & (instruction & 0x00FF) as u8);
                proof {
                    assert(Some(self@) == chip8_step(old(self)@, instruction, b));
                }
                Ok(StepOutcome::Ran)
            },
            0xD000 => {
                let n: u8 = (instruction & 0x000F) as u8;
                self.display.render(
                    &mut self.cpu.registers,
                    x,
                    y,
                    n,
                    &self.memory.primary_memory,
                    self.cpu.i,
                );
                Ok(StepOutcome::Ran)
            },
            0xE000 => {
                if self.exec_key(instruction) {
                    Ok(StepOutcome::Ran)
                } else {
                    self.cpu.program_counter = self.cpu.program_counter.wrapping_sub(2);
                    Err(EmuError::UnrecognizedInstruction { opcode: instruction, pc: pc0 })
                }
            },
            _ => {
                match self.exec_misc(instruction) {
                    Some(outcome) => Ok(outcome),
                    None => {
                        self.cpu.program_counter = self.cpu.program_counter.wrapping_sub(2);
                        Err(EmuError::UnrecognizedInstruction { opcode: instruction, pc: pc0 })
                    },
                }
            },
        }
    }

    /// One whole machine cycle: fetch the big-endian opcode at the program
    /// counter, execute it, and tick both timers once (timer decay is tied
    /// to instruction count).
    pub fn emulate_cycle(&mut self) -> (r: Result<StepOutcome, EmuError>)
        requires
            old(self).wf(),
        ensures
            final(self).wf(),
            (r is Ok) == chip8_recognized(fetched(old(self)@)),
            r is Ok ==> exists|b: u8|
                Some(final(self)@) == #[trigger] chip8_cycle(old(self)@, b),
            r is Ok && !is_random_op(fetched(old(self)@)) ==> Some(final(self)@) == chip8_cycle(
                old(self)@,
                0u8,
            ),
            r == Ok::<StepOutcome, EmuError>(StepOutcome::WaitingForKey) <==> (is_wait_key_op(fetched(old(self)@)) && old(
                self,
            )@.pressed is None),
            r is Err ==> final(self)@ == old(self)@ && r == Err::<StepOutcome, EmuError>(
                EmuError::UnrecognizedInstruction {
                    opcode: fetched(old(self)@),
                    pc: old(self)@.pc,
                },
            ),
    {
        let hi: u8 = self.memory.read(self.cpu.program_counter);
        let lo: u8 = self.memory.read(self.cpu.program_counter.wrapping_add(1));
        let opcode: u16 = ((hi as u16) << 8u16) | (lo as u16);
        assert(opcode == fetched(self@));
        let outcome = self.execute(opcode);
        match outcome {
            Ok(ev) => {
                let ghost mid = self@;
                self.cpu.update_timers();
                proof {
                    let b = choose|b: u8|
                        Some(mid) == #[trigger] chip8_step(old(self)@, opcode, b);
                    assert(self@ =~= Chip8View {
                        delay: ticked(mid.delay),
                        sound: ticked(mid.sound),
                        ..mid
                    });
                    assert(Some(self@) == chip8_cycle(old(self)@, b));
                    if !is_random_op(opcode) {
                        assert(Some(mid) == chip8_step(old(self)@, opcode, 0u8));
                        assert(Some(self@) == chip8_cycle(old(self)@, 0u8));
                    }
                }
                Ok(ev)
            },
            Err(e) => Err(e),
        }
    }
}

/// The add opcode sets the flag register to 1 exactly when the true sum of
/// the two operand registers overflows eight bits, and stores the sum modulo
/// 256 — for every pair of operand values. Stated for destination registers
/// other than the flag register itself, whose carry write the result would
/// overwrite.
pub proof fn lemma_add_sets_carry(regs: Seq<u8>, op: u16)
    requires
        regs.len() == 16,
        op & 0xF000 == 0x8000,
        op & 0x000F == 0x0004,
        op_x(op) != 15,
    ensures
        alu_apply(regs, op) matches Some(r) && {
            let a = regs[op_x(op)];
            let b = regs[op_y(op)];
            &&& r[15] == (if a + b > 255 {
                1u8
            } else {
                0u8
            })
            &&& r[op_x(op)] == (a + b) % 256
        },
{
    lemma_op_field_bounds(op);
    let a = regs[op_x(op)];
    let b = regs[op_y(op)];
    assert(a.wrapping_add(b) == (a + b) % 256);
}

/// The two subtraction opcodes set the flag register to 1 exactly when the
/// minuend is strictly greater than the subtrahend, and store the difference
/// modulo 256 — for every pair of operand values. The minuend is the
/// destination register for one form and the other operand register for the
/// reversed form. Stated for destination registers other than the flag
/// register itself.
pub proof fn lemma_sub_sets_borrow_flag(regs: Seq<u8>, op: u16)
    requires
        regs.len() == 16,
        op & 0xF000 == 0x8000,
        op & 0x000F == 0x0005 || op & 0x000F == 0x0007,
        op_x(op) != 15,
    ensures
        alu_apply(regs, op) matches Some(r) && {
            let minuend = if op & 0x000F == 0x0005 {
                regs[op_x(op)]
            } else {
                regs[op_y(op)]
            };
            let subtrahend = if op & 0x000F == 0x0005 {
                regs[op_y(op)]
            } else {
                regs[op_x(op)]
            };
            &&& r[15] == (if minuend > subtrahend {
                1u8
            } else {
                0u8
            })
            &&& r[op_x(op)] == (minuend - subtrahend) % 256
        },
{
    lemma_op_field_bounds(op);
}

/// Subroutine call and return are balanced: executing a call opcode and then
/// the return opcode restores the program counter to the instruction after
/// the call and the stack pointer to its pre-call value — from any starting
/// state, hence at every nesting depth.
pub proof fn lemma_call_ret_balanced(s: Chip8View, call_op: u16)
    requires
        s.wf(),
        call_op & 0xF000 == 0x2000,
    ensures
        chip8_step(s, call_op, 0) matches Some(s1) && (chip8_step(s1, 0x00EE, 0) matches Some(s2)
            && s2.pc == s.pc.wrapping_add(2) && s2.sp == s.sp),
{
    lemma_op_field_bounds(call_op);
    assert(0x00EEu16 & 0xF000u16 == 0x0000u16) by (bit_vector);
}

} // verus!
