use crate::chip8::cpu::ticked;
use crate::chip8::memory::lemma_masked_in_range;
use crate::chip8::memory::masked;
use crate::chip8::alu_apply;
use crate::chip8::lemma_family_cases;
use crate::chip8::lemma_op_field_bounds;
use crate::chip8::op_kk;
use crate::chip8::op_nnn;
use crate::chip8::op_x;
use crate::chip8::op_y;
use crate::chip8::regs_loaded;
use crate::chip8::regs_stored;
use crate::EmuError;
use vstd::prelude::*;

verus! {

/// The call-stack slot of the self-contained machine: its stack is 64 deep
/// and its wrapping byte pointer is reduced modulo that depth on access.
pub open spec fn deep_stack_slot(sp: u8) -> int {
    (sp % 64) as int
}

/// The 80-byte font table: sixteen glyphs of five rows each, one glyph per
/// hex digit, installed at address zero.
pub open spec fn font_table() -> Seq<u8> {
    seq![
        0xF0u8, 0x90, 0x90, 0x90, 0xF0,
        0x20, 0x60, 0x20, 0x20, 0x70,
        0xF0, 0x10, 0xF0, 0x80, 0xF0,
        0xF0, 0x10, 0xF0, 0x10, 0xF0,
        0x90, 0x90, 0xF0, 0x10, 0x10,
        0xF0, 0x80, 0xF0, 0x10, 0xF0,
        0xF0, 0x80, 0xF0, 0x90, 0xF0,
        0xF0, 0x10, 0x20, 0x40, 0x40,
        0xF0, 0x90, 0xF0, 0x90, 0xF0,
        0xF0, 0x90, 0xF0, 0x10, 0xF0,
        0xF0, 0x90, 0xF0, 0x90, 0x90,
        0xE0, 0x90, 0xE0, 0x90, 0xE0,
        0xF0, 0x80, 0x80, 0x80, 0xF0,
        0xE0, 0x90, 0x90, 0x90, 0xE0,
        0xF0, 0x80, 0xF0, 0x80, 0xF0,
        0xF0, 0x80, 0xF0, 0x80, 0x80,
    ]
}

/// Machine state of the self-contained engine as mathematical values.
#[verifier::ext_equal]
pub ghost struct EmulatorView {
    pub regs: Seq<u8>,
    pub i: u16,
    pub pc: u16,
    pub sp: u8,
    pub delay: u8,
    pub sound: u8,
    pub speed: u16,
    pub mem: Seq<u8>,
    pub stack: Seq<u16>,
    pub disp: Seq<u8>,
    pub keys: Seq<u8>,
}

impl EmulatorView {
    pub open spec fn wf(self) -> bool {
        &&& self.regs.len() == 16
        &&& self.mem.len() == 4096
        &&& self.stack.len() == 64
        &&& self.disp.len() == 2048
        &&& self.keys.len() == 16
    }
}

/// The state with the program counter moved past one more instruction.
pub open spec fn far_skipped(v: EmulatorView) -> EmulatorView {
    EmulatorView { pc: v.pc.wrapping_add(2), ..v }
}

/// Which opcodes this engine's dispatch table covers. The opcodes that need
/// a peripheral it does not have (display, keyboard, random source, font and
/// decimal helpers) are still recognized and act as no-ops.
pub open spec fn emulator_recognized(op: u16) -> bool {
    let fam = op & 0xF000;
    if fam == 0x8000 {
        let sel = op & 0x000F;
        sel == 0x0 || sel == 0x1 || sel == 0x2 || sel == 0x3 || sel == 0x4 || sel == 0x5 || sel
            == 0x6 || sel == 0x7 || sel == 0xE
    } else if fam == 0xE000 {
        op & 0x00FF == 0x9E || op & 0x00FF == 0xA1
    } else if fam == 0xF000 {
        let sel = op & 0x00FF;
        sel == 0x07 || sel == 0x0A || sel == 0x15 || sel == 0x18 || sel == 0x1E || sel == 0x29
            || sel == 0x33 || sel == 0x55 || sel == 0x65
    } else {
        true
    }
}

/// The transition function of the self-contained engine: deterministic,
/// since its random opcode is one of the peripheral no-ops.
pub open spec fn emulator_step(s: EmulatorView, op: u16) -> Option<EmulatorView> {
    let x = op_x(op);
    let y = op_y(op);
    let kk = op_kk(op);
    let nnn = op_nnn(op);
    let fam = op & 0xF000;
    let t = EmulatorView { pc: s.pc.wrapping_add(2), ..s };
    if fam == 0x0000 {
        if op == 0x00EE {
            Some(EmulatorView { pc: s.stack[deep_stack_slot(s.sp)], sp: s.sp.wrapping_sub(1), ..t })
        } else {
            Some(t)
        }
    } else if fam == 0x1000 {
        Some(EmulatorView { pc: nnn, ..t })
    } else if fam == 0x2000 {
        let sp1 = s.sp.wrapping_add(1);
        Some(
            EmulatorView { sp: sp1, stack: s.stack.update(deep_stack_slot(sp1), t.pc), pc: nnn, ..t },
        )
    } else if fam == 0x3000 {
        Some(
            if t.regs[x] == kk {
                far_skipped(t)
            } else {
                t
            },
        )
    } else if fam == 0x4000 {
        Some(
            if t.regs[x] != kk {
                far_skipped(t)
            } else {
                t
            },
        )
    } else if fam == 0x5000 {
        Some(
            if t.regs[x] == t.regs[y] {
                far_skipped(t)
            } else {
                t
            },
        )
    } else if fam == 0x6000 {
        Some(EmulatorView { regs: t.regs.update(x, kk), ..t })
    } else if fam == 0x7000 {
        Some(EmulatorView { regs: t.regs.update(x, t.regs[x].wrapping_add(kk)), ..t })
    } else if fam == 0x8000 {
        match alu_apply(t.regs, op) {
            Some(r) => Some(EmulatorView { regs: r, ..t }),
            None => None,
        }
    } else if fam == 0x9000 {
        Some(
            if t.regs[x] != t.regs[y] {
                far_skipped(t)
            } else {
                t
            },
        )
    } else if fam == 0xA000 {
        Some(EmulatorView { i: nnn, ..t })
    } else if fam == 0xB000 {
        Some(EmulatorView { pc: (t.regs[0] + nnn) as u16, ..t })
    } else if fam == 0xC000 || fam == 0xD000 {
        Some(t)
    } else if fam == 0xE000 {
        let sel = op & 0x00FF;
        if sel == 0x9E || sel == 0xA1 {
            Some(t)
        } else {
            None
        }
    } else {
        let sel = op & 0x00FF;
        if sel == 0x07 {
            Some(EmulatorView { regs: t.regs.update(x, t.delay), ..t })
        } else if sel == 0x0A || sel == 0x29 || sel == 0x33 {
            Some(t)
        } else if sel == 0x15 {
            Some(EmulatorView { delay: t.regs[x], ..t })
        } else if sel == 0x18 {
            Some(EmulatorView { sound: t.regs[x], ..t })
        } else if sel == 0x1E {
            Some(EmulatorView { i: t.i.wrapping_add(t.regs[x] as u16), ..t })
        } else if sel == 0x55 {
            Some(
                EmulatorView {
                    mem: regs_stored(t.mem, t.regs, t.i, (x + 1) as nat),
                    i: t.i.wrapping_add((x + 1) as u16),
                    ..t
                },
            )
        } else if sel == 0x65 {
            Some(
                EmulatorView {
                    regs: regs_loaded(t.regs, t.mem, t.i, (x + 1) as nat),
                    i: t.i.wrapping_add((x + 1) as u16),
                    ..t
                },
            )
        } else {
            None
        }
    }
}

/// The big-endian opcode fetched at the program counter.
pub open spec fn emulator_fetched(s: EmulatorView) -> u16 {
    ((s.mem[masked(s.pc)] as u16) << 8u16) | (s.mem[masked(s.pc.wrapping_add(1))] as u16)
}

/// One fetch-execute-tick cycle, or the error it stops on.
pub open spec fn emulator_cycle(s: EmulatorView) -> Result<EmulatorView, EmuError> {
    match emulator_step(s, emulator_fetched(s)) {
        Some(v) => Ok(
            EmulatorView { delay: ticked(v.delay), sound: ticked(v.sound), ..v },
        ),
        None => Err(
            EmuError::UnrecognizedInstruction { opcode: emulator_fetched(s), pc: s.pc },
        ),
    }
}

/// `k` cycles run in sequence: the state reached, and the error that stopped
/// the run early, if any.
pub open spec fn emulator_run(s: EmulatorView, k: nat) -> (EmulatorView, Option<EmuError>)
    decreases k,
{
    if k == 0 {
        (s, None)
    } else {
        match emulator_cycle(s) {
            Ok(v) => emulator_run(v, (k - 1) as nat),
            Err(e) => (s, Some(e)),
        }
    }
}

/// A self-contained CHIP-8 engine snapshot: the same dispatch table run
/// without any peripheral ports, so the display, keyboard, random and
/// decimal/font opcodes are recognized no-ops. It owns its whole state,
/// including the flat memory and the 64-deep call stack.
pub struct Emulator {
    display: Vec<u8>,
    speed: u16,
    sound_timer: u8,
    delay_timer: u8,
    memory: Vec<u8>,
    stack_pointer: u8,
    stack: Vec<u16>,
    registers: Vec<u8>,
    i: u16,
    program_counter: u16,
    keyboard: Vec<u8>,
}

impl View for Emulator {
    type V = EmulatorView;

    closed spec fn view(&self) -> EmulatorView {
        EmulatorView {
            regs: self.registers@,
            i: self.i,
            pc: self.program_counter,
            sp: self.stack_pointer,
            delay: self.delay_timer,
            sound: self.sound_timer,
            speed: self.speed,
            mem: self.memory@,
            stack: self.stack@,
            disp: self.display@,
            keys: self.keyboard@,
        }
    }
}

fn zero_bytes(n: usize) -> (v: Vec<u8>)
    ensures
        v@.len() == n,
        forall|k: int| 0 <= k < n ==> v@[k] == 0u8,
{
    let mut v: Vec<u8> = Vec::new();
    while v.len() < n
        invariant
            v@.len() <= n,
            forall|k: int| 0 <= k < v@.len() ==> v@[k] == 0u8,
        decreases n - v@.len(),
    {
        v.push(0u8);
    }
    v
}

fn zero_words(n: usize) -> (v: Vec<u16>)
    ensures
        v@.len() == n,
        forall|k: int| 0 <= k < n ==> v@[k] == 0u16,
{
    let mut v: Vec<u16> = Vec::new();
    while v.len() < n
        invariant
            v@.len() <= n,
            forall|k: int| 0 <= k < v@.len() ==> v@[k] == 0u16,
        decreases n - v@.len(),
    {
        v.push(0u16);
    }
    v
}

impl Emulator {
    pub open spec fn wf(&self) -> bool {
        self@.wf()
    }

    /// A machine with everything zeroed and the cycle budget at its default
    /// of 60 instructions per call.
    pub fn new() -> (e: Emulator)
        ensures
            e.wf(),
            e@.i == 0u16,
            e@.pc == 0u16,
            e@.sp == 0u8,
            e@.delay == 0u8,
            e@.sound == 0u8,
            e@.speed == 60u16,
            forall|r: int| 0 <= r < 16 ==> e@.regs[r] == 0u8,
            forall|a: int| 0 <= a < 4096 ==> e@.mem[a] == 0u8,
            forall|f: int| 0 <= f < 64 ==> e@.stack[f] == 0u16,
            forall|p: int| 0 <= p < 2048 ==> e@.disp[p] == 0u8,
            forall|k: int| 0 <= k < 16 ==> e@.keys[k] == 0u8,
    {
        Emulator {
            i: 0x0,
            program_counter: 0,
            stack_pointer: 0,
            sound_timer: 0,
            delay_timer: 0,
            memory: zero_bytes(4096),
            stack: zero_words(64),
            registers: zero_bytes(16),
            keyboard: zero_bytes(16),
            speed: 60,
            display: zero_bytes(2048),
        }
    }

    /// Reset for a run: program counter at the program base 0x200, stack
    /// pointer at its empty-stack sentinel 0xFF, timers cleared, display
    /// blanked. Memory, registers, stack and keyboard are left as they are.
    pub fn init(&mut self)
        requires
            old(self).wf(),
        ensures
            final(self).wf(),
            final(self)@ == (EmulatorView {
                i: 0u16,
                pc: 0x200u16,
                sp: 255u8,
                delay: 0u8,
                sound: 0u8,
                speed: 60u16,
                disp: Seq::new(2048, |p: int| 0u8),
                ..old(self)@
            }),
    {
        self.i = 0x0;
        self.program_counter = 0x200;
        self.stack_pointer = 255;
        self.sound_timer = 0;
        self.delay_timer = 0;
        self.speed = 60;
        self.display = zero_bytes(2048);
        proof {
            assert(self.display@ =~= Seq::new(2048, |p: int| 0u8));
        }
    }

    /// Install the default font sprites for digits 0..F at address zero.
    pub fn load_sprites(&mut self)
        requires
            old(self).wf(),
        ensures
            final(self).wf(),
            forall|a: int| 0 <= a < 80 ==> final(self)@.mem[a] == font_table()[a],
            forall|a: int| 80 <= a < 4096 ==> final(self)@.mem[a] == old(self)@.mem[a],
            final(self)@ == (EmulatorView { mem: final(self)@.mem, ..old(self)@ }),
    {
        let default_sprites: Vec<u8> = vec![
            0xF0u8, 0x90, 0x90, 0x90, 0xF0,
            0x20, 0x60, 0x20, 0x20, 0x70,
            0xF0, 0x10, 0xF0, 0x80, 0xF0,
            0xF0, 0x10, 0xF0, 0x10, 0xF0,
            0x90, 0x90, 0xF0, 0x10, 0x10,
            0xF0, 0x80, 0xF0, 0x10, 0xF0,
            0xF0, 0x80, 0xF0, 0x90, 0xF0,
            0xF0, 0x10, 0x20, 0x40, 0x40,
            0xF0, 0x90, 0xF0, 0x90, 0xF0,
            0xF0, 0x90, 0xF0, 0x10, 0xF0,
            0xF0, 0x90, 0xF0, 0x90, 0x90,
            0xE0, 0x90, 0xE0, 0x90, 0xE0,
            0xF0, 0x80, 0x80, 0x80, 0xF0,
            0xE0, 0x90, 0x90, 0x90, 0xE0,
            0xF0, 0x80, 0xF0, 0x80, 0xF0,
            0xF0, 0x80, 0xF0, 0x80, 0x80,
        ];
        proof {
            assert(default_sprites@ =~= font_table());
        }
        let mut k: usize = 0;
        while k < 80
            invariant
                self.wf(),
                k <= 80,
                default_sprites@ == font_table(),
                forall|a: int| 0 <= a < k ==> self@.mem[a] == font_table()[a],
                forall|a: int| k <= a < 4096 ==> self@.mem[a] == old(self)@.mem[a],
                self@ == (EmulatorView { mem: self@.mem, ..old(self)@ }),
            decreases 80 - k,
        {
            self.memory.set(k, default_sprites[k]);
            k = k + 1;
        }
    }

    /// Copy a program image verbatim into memory at the program base 0x200.
    pub fn load_program(&mut self, program: &[u8])
        requires
            old(self).wf(),
            program@.len() <= 4096 - 0x200,
        ensures
            final(self).wf(),
            forall|k: int|
                0 <= k < program@.len() ==> final(self)@.mem[0x200 + k] == program@[k],
            forall|a: int|
                0 <= a < 4096 && !(0x200 <= a < 0x200 + program@.len()) ==> final(self)@.mem[a]
                    == old(self)@.mem[a],
            final(self)@ == (EmulatorView { mem: final(self)@.mem, ..old(self)@ }),
    {
        let mut k: usize = 0;
        while k < program.len()
            invariant
                self.wf(),
                k <= program@.len(),
                program@.len() <= 4096 - 0x200,
                forall|j: int| 0 <= j < k ==> self@.mem[0x200 + j] == program@[j],
                forall|a: int|
                    0 <= a < 4096 && !(0x200 <= a < 0x200 + k) ==> self@.mem[a] == old(
                        self,
                    )@.mem[a],
                self@ == (EmulatorView { mem: self@.mem, ..old(self)@ }),
            decreases program@.len() - k,
        {
            self.memory.set(0x200 + k, program[k]);
            k = k + 1;
        }
    }

    /// Decrement both countdown timers by one, flooring at zero.
    pub fn update_timers(&mut self)
        requires
            old(self).wf(),
        ensures
            final(self).wf(),
            final(self)@ == (EmulatorView {
                delay: ticked(old(self)@.delay),
                sound: ticked(old(self)@.sound),
                ..old(self)@
            }),
    {
        if self.sound_timer > 0 {
            self.sound_timer = self.sound_timer - 1;
        }
        if self.delay_timer > 0 {
            self.delay_timer = self.delay_timer - 1;
        }
    }

    /// The arithmetic/logic family on this machine's register file; the
    /// program counter has already been advanced.
    fn exec_alu(&mut self, instruction: u16) -> (ok: bool)
        requires
            old(self).wf(),
            instruction & 0xF000 == 0x8000,
        ensures
            final(self).wf(),
            ok ==> (alu_apply(old(self)@.regs, instruction) matches Some(r) && final(self)@
                == (EmulatorView { regs: r, ..old(self)@ })),
            !ok ==> final(self)@ == old(self)@ && alu_apply(old(self)@.regs, instruction) is None,
    {
        proof {
            lemma_op_field_bounds(instruction);
        }
        let x: usize = ((instruction & 0x0F00) >> 8) as usize;
        let y: usize = ((instruction & 0x00F0) >> 4) as usize;
        let a: u8 = self.registers[x];
        let b: u8 = self.registers[y];
        match instruction & 0x000F {
            0x0000 => {
                self.registers.set(x, b);
                true
            },
            0x0001 => {
                self.registers.set(x, a | b);
                true
            },
            0x0002 => {
                self.registers.set(x, a & b);
                true
            },
            0x0003 => {
                self.registers.set(x, a ^ b);
                true
            },
            0x0004 => {
                let sum: u16 = a as u16 + b as u16;
                if sum > 0xFF {
                    self.registers.set(15, 1);
                } else {
                    self.registers.set(15, 0);
                }
                self.registers.set(x, a.wrapping_add(b));
                true
            },
            0x0005 => {
                if a > b {
                    self.registers.set(15, 1);
                } else {
                    self.registers.set(15, 0);
                }
                self.registers.set(x, a.wrapping_sub(b));
                true
            },
            0x0006 => {
                self.registers.set(15, a & 1);
                let v: u8 = self.registers[x];
                self.registers.set(x, v >> 1u8);
                true
            },
            0x0007 => {
                if b > a {
                    self.registers.set(15, 1);
                } else {
                    self.registers.set(15, 0);
                }
                self.registers.set(x, b.wrapping_sub(a));
                true
            },
            0x000E => {
                if a & 0x80 == 0x80 {
                    self.registers.set(15, 1);
                } else {
                    self.registers.set(15, 0);
                }
                let v: u8 = self.registers[x];
                self.registers.set(x, v << 1u8);
                true
            },
            _ => false,
        }
    }

    /// Execute one already-fetched instruction; the whole effect is that of
    /// the transition function `emulator_step`.
    pub fn execute(&mut self, instruction: u16) -> (r: Result<(), EmuError>)
        requires
            old(self).wf(),
        ensures
            final(self).wf(),
            (r is Ok) == emulator_recognized(instruction),
            r is Ok ==> Some(final(self)@) == emulator_step(old(self)@, instruction),
            r is Err ==> final(self)@ == old(self)@ && r == Err::<(), EmuError>(
                EmuError::UnrecognizedInstruction { opcode: instruction, pc: old(self)@.pc },
            ),
    {
        proof {
            lemma_op_field_bounds(instruction);
            lemma_family_cases(instruction);
        }
        let pc0: u16 = self.program_counter;
        self.program_counter = pc0.wrapping_add(2);
        let x: usize = ((instruction & 0x0F00) >> 8) as usize;
        let y: usize = ((instruction & 0x00F0) >> 4) as usize;
        match instruction & 0xF000 {
            0x0000 => {
                if instruction == 0x00EE {
                    self.program_counter = self.stack[(self.stack_pointer % 64) as usize];
                    self.stack_pointer = self.stack_pointer.wrapping_sub(1);
                }
                Ok(())
            },
            0x1000 => {
                self.program_counter = instruction & 0x0FFF;
                Ok(())
            },
            0x2000 => {
                self.stack_pointer = self.stack_pointer.wrapping_add(1);
                self.stack.set((self.stack_pointer % 64) as usize, self.program_counter);
                self.program_counter = instruction & 0x0FFF;
                Ok(())
            },
            0x3000 => {
                if self.registers[x] == (instruction & 0x00FF) as u8 {
                    self.program_counter = self.program_counter.wrapping_add(2);
                }
                Ok(())
            },
            0x4000 => {
                if self.registers[x] != (instruction & 0x00FF) as u8 {
                    self.program_counter = self.program_counter.wrapping_add(2);
                }
                Ok(())
            },
            0x5000 => {
                if self.registers[x] == self.registers[y] {
                    self.program_counter = self.program_counter.wrapping_add(2);
                }
                Ok(())
            },
            0x6000 => {
                self.registers.set(x, (instruction & 0x00FF) as u8);
                Ok(())
            },
            0x7000 => {
                let v: u8 = self.registers[x];
                self.registers.set(x, v.wrapping_add((instruction & 0x00FF) as u8));
                Ok(())
            },
            0x8000 => {
                if self.exec_alu(instruction) {
                    Ok(())
                } else {
                    self.program_counter = self.program_counter.wrapping_sub(2);
                    Err(EmuError::UnrecognizedInstruction { opcode: instruction, pc: pc0 })
                }
            },
            0x9000 => {
                if self.registers[x] != self.registers[y] {
                    self.program_counter = self.program_counter.wrapping_add(2);
                }
                Ok(())
            },
            0xA000 => {
                self.i = instruction & 0x0FFF;
                Ok(())
            },
            0xB000 => {
                self.program_counter = self.registers[0] as u16 + (instruction & 0x0FFF);
                Ok(())
            },
            0xC000 => Ok(()),
            0xD000 => Ok(()),
            0xE000 => {
                match instruction & 0x00FF {
                    0x009E => Ok(()),
                    0x00A1 => Ok(()),
                    _ => {
                        self.program_counter = self.program_counter.wrapping_sub(2);
                        Err(EmuError::UnrecognizedInstruction { opcode: instruction, pc: pc0 })
                    },
                }
            },
            _ => {
                match instruction & 0x00FF {
                    0x0007 => {
                        self.registers.set(x, self.delay_timer);
                        Ok(())
                    },
                    0x000A => Ok(()),
                    0x0015 => {
                        self.delay_timer = self.registers[x];
                        Ok(())
                    },
                    0x0018 => {
                        self.sound_timer = self.registers[x];
                        Ok(())
                    },
                    0x001E => {
                        self.i = self.i.wrapping_add(self.registers[x] as u16);
                        Ok(())
                    },
                    0x0029 => Ok(()),
                    0x0033 => Ok(()),
                    0x0055 => {
                        let ghost t0 = self@;
                        let base: u16 = self.i;
                        let mut k: usize = 0;
                        while k < x + 1
                            invariant
                                self.wf(),
                                k <= x + 1,
                                x < 16,
                                base == t0.i,
                                self@.mem == regs_stored(t0.mem, t0.regs, base, k as nat),
                                self@ == (EmulatorView { mem: self@.mem, ..t0 }),
                            decreases x + 1 - k,
                        {
                            proof {
                                lemma_masked_in_range(base.wrapping_add(k as u16));
                            }
                            let byte: u8 = self.registers[k];
                            self.memory.set(
                                (base.wrapping_add(k as u16) & 0x0FFF) as usize,
                                byte,
                            );
                            k = k + 1;
                        }
                        self.i = base.wrapping_add((x + 1) as u16);
                        Ok(())
                    },
                    0x0065 => {
                        let ghost t0 = self@;
                        let base: u16 = self.i;
                        let mut k: usize = 0;
                        while k < x + 1
                            invariant
                                self.wf(),
                                k <= x + 1,
                                x < 16,
                                base == t0.i,
                                self@.regs == regs_loaded(t0.regs, t0.mem, base, k as nat),
                                self@ == (EmulatorView { regs: self@.regs, ..t0 }),
                            decreases x + 1 - k,
                        {
                            proof {
                                lemma_masked_in_range(base.wrapping_add(k as u16));
                            }
                            let byte: u8 = self.memory[(base.wrapping_add(k as u16)
                                & 0x0FFF) as usize];
                            self.registers.set(k, byte);
                            k = k + 1;
                        }
                        self.i = base.wrapping_add((x + 1) as u16);
                        Ok(())
                    },
                    _ => {
                        self.program_counter = self.program_counter.wrapping_sub(2);
                        Err(EmuError::UnrecognizedInstruction { opcode: instruction, pc: pc0 })
                    },
                }
            },
        }
    }

    /// Run one batch of cycles: `speed` rounds of fetch, execute and timer
    /// tick, stopping at the first unrecognized opcode.
    pub fn emulate_cycle(&mut self) -> (r: Result<(), EmuError>)
        requires
            old(self).wf(),
        ensures
            final(self).wf(),
            final(self)@ == emulator_run(old(self)@, old(self)@.speed as nat).0,
            match emulator_run(old(self)@, old(self)@.speed as nat).1 {
                None => r is Ok,
                Some(e) => r == Err::<(), EmuError>(e),
            },
    {
        let rounds: u16 = self.speed;
        let mut j: u16 = 0;
        while j < rounds
            invariant
                self.wf(),
                j <= rounds,
                emulator_run(old(self)@, old(self)@.speed as nat) == emulator_run(
                    self@,
                    (rounds - j) as nat,
                ),
            decreases rounds - j,
        {
            proof {
                lemma_masked_in_range(self.program_counter);
                lemma_masked_in_range(self.program_counter.wrapping_add(1));
            }
            let hi: u8 = self.memory[(self.program_counter & 0x0FFF) as usize];
            let lo: u8 = self.memory[(self.program_counter.wrapping_add(1) & 0x0FFF) as usize];
            let opcode: u16 = ((hi as u16) << 8u16) | (lo as u16);
            assert(opcode == emulator_fetched(self@));
            match self.execute(opcode) {
                Ok(_) => {
                    self.update_timers();
                },
                Err(e) => {
                    return Err(e);
                },
            }
            j = j + 1;
        }
        Ok(())
    }

    /// Observation points for the driving front end.
    pub fn register(&self, r: usize) -> (v: u8)
        requires
            self.wf(),
            r < 16,
        ensures
            v == self@.regs[r as int],
    {
        self.registers[r]
    }

    /// The current program counter.
    pub fn counter(&self) -> (v: u16)
        ensures
            v == self@.pc,
    {
        self.program_counter
    }

    /// The current address register.
    pub fn address_register(&self) -> (v: u16)
        ensures
            v == self@.i,
    {
        self.i
    }

    /// The byte at a (masked) memory address.
    pub fn memory_at(&self, addr: u16) -> (b: u8)
        requires
            self.wf(),
        ensures
            b == self@.mem[masked(addr)],
    {
        proof {
            lemma_masked_in_range(addr);
        }
        self.memory[(addr & 0x0FFF) as usize]
    }
}

} // verus!
