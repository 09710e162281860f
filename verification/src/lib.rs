//! Cycle-stepped interpreters for two small 8-bit machines: a CHIP-8 virtual
//! machine and a partial MOS 6502 CPU core. Each machine exposes a `step`-style
//! `execute` whose effect on the whole machine state is pinned down by a
//! mathematical transition function.

pub mod chip8;
pub mod emulator;
pub mod nes;

use vstd::prelude::*;

verus! {

/// The one runtime error the engines report: an opcode/operand bit pattern
/// that the dispatch table does not cover, together with the program counter
/// at which it was fetched.
#[derive(Clone, Copy, Debug, PartialEq, Eq, Structural)]
pub enum EmuError {
    UnrecognizedInstruction { opcode: u16, pc: u16 },
}

/// What a successful `execute` reports back to the driving loop.
///
/// `WaitingForKey` makes the CHIP-8 "wait for key press" opcode explicit:
/// the engine leaves its state unchanged and the driver must supply a key
/// before stepping again.
#[derive(Clone, Copy, Debug, PartialEq, Eq, Structural)]
pub enum StepOutcome {
    Ran,
    WaitingForKey,
}

/// The machine state a freshly booted engine presents to its first cycle:
/// reset register file with the stack pointer at its empty-stack sentinel,
/// font table at address zero, the program image at the program base,
/// everything else zero.
pub open spec fn boot_state(rom: Seq<u8>) -> emulator::EmulatorView {
    emulator::EmulatorView {
        regs: Seq::new(16, |r: int| 0u8),
        i: 0u16,
        pc: 0x200u16,
        sp: 255u8,
        delay: 0u8,
        sound: 0u8,
        speed: 60u16,
        mem: Seq::new(
            4096,
            |a: int|
                if a < 80 {
                    emulator::font_table()[a]
                } else if 0x200 <= a < 0x200 + rom.len() {
                    rom[a - 0x200]
                } else {
                    0u8
                },
        ),
        stack: Seq::new(64, |f: int| 0u16),
        disp: Seq::new(2048, |p: int| 0u8),
        keys: Seq::new(16, |k: int| 0u8),
    }
}

/// Boot the self-contained engine with a program image and run one batch of
/// cycles: the machine handed back is exactly the booted state driven
/// through `emulator_run`, or the error the run stopped on.
pub fn run_emu(rom: &[u8]) -> (r: Result<emulator::Emulator, EmuError>)
    requires
        rom@.len() <= 3584,
    ensures
        match r {
            Ok(e) => e@ == emulator::emulator_run(boot_state(rom@), 60).0 && emulator::emulator_run(
                boot_state(rom@),
                60,
            ).1 is None,
            Err(err) => emulator::emulator_run(boot_state(rom@), 60).1 == Some(err),
        },
{
    let mut emu = emulator::Emulator::new();
    emu.init();
    emu.load_sprites();
    emu.load_program(rom);
    proof {
        assert(emu@.regs =~= boot_state(rom@).regs);
        assert(emu@.mem =~= boot_state(rom@).mem);
        assert(emu@.stack =~= boot_state(rom@).stack);
        assert(emu@.disp =~= boot_state(rom@).disp);
        assert(emu@.keys =~= boot_state(rom@).keys);
        assert(emu@ =~= boot_state(rom@));
    }
    match emu.emulate_cycle() {
        Ok(_) => Ok(emu),
        Err(e) => Err(e),
    }
}

} // verus!
