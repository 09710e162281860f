use emu8::emulator::Emulator;
use emu8::EmuError;

#[test]
fn new_and_init_values() {
    let mut e = Emulator::new();
    assert_eq!(e.counter(), 0);
    assert_eq!(e.address_register(), 0);
    for r in 0..16 {
        assert_eq!(e.register(r), 0);
    }
    e.init();
    assert_eq!(e.counter(), 0x200);
}

#[test]
fn font_sprites_installed() {
    let mut e = Emulator::new();
    e.load_sprites();
    // Glyph 0 starts with 0xF0, glyph 1 with 0x20; the table ends at 79.
    assert_eq!(e.memory_at(0), 0xF0);
    assert_eq!(e.memory_at(4), 0xF0);
    assert_eq!(e.memory_at(5), 0x20);
    assert_eq!(e.memory_at(9), 0x70);
    assert_eq!(e.memory_at(79), 0x80);
    assert_eq!(e.memory_at(80), 0x00);
}

#[test]
fn program_loaded_at_base() {
    let mut e = Emulator::new();
    e.load_program(&[0x60, 0x05, 0x70, 0x03]);
    assert_eq!(e.memory_at(0x200), 0x60);
    assert_eq!(e.memory_at(0x201), 0x05);
    assert_eq!(e.memory_at(0x202), 0x70);
    assert_eq!(e.memory_at(0x203), 0x03);
}

#[test]
fn set_add_and_copy_ops() {
    let mut e = Emulator::new();
    e.init();
    assert_eq!(e.execute(0x6105), Ok(()));
    assert_eq!(e.register(1), 5);
    e.execute(0x7103).unwrap();
    assert_eq!(e.register(1), 8);
    // The immediate add wraps.
    e.execute(0x61FA).unwrap();
    e.execute(0x7110).unwrap();
    assert_eq!(e.register(1), 0x0A);
    e.execute(0x8210).unwrap();
    assert_eq!(e.register(2), 0x0A);
}

#[test]
fn add_with_carry_flag() {
    let mut e = Emulator::new();
    e.init();
    e.execute(0x61C8).unwrap();
    e.execute(0x6264).unwrap();
    e.execute(0x8124).unwrap();
    assert_eq!(e.register(1), 44);
    assert_eq!(e.register(0xF), 1);
}

#[test]
fn emulator_call_and_return_balance() {
    let mut e = Emulator::new();
    e.init();
    let pc0 = e.counter();
    e.execute(0x2ABC).unwrap();
    assert_eq!(e.counter(), 0xABC);
    e.execute(0x00EE).unwrap();
    assert_eq!(e.counter(), pc0 + 2);
}

#[test]
fn emulator_store_and_load_registers() {
    let mut e = Emulator::new();
    e.init();
    e.execute(0xA600).unwrap();
    e.execute(0x600B).unwrap();
    e.execute(0x6116).unwrap();
    e.execute(0xF155).unwrap();
    assert_eq!(e.memory_at(0x600), 0x0B);
    assert_eq!(e.memory_at(0x601), 0x16);
    assert_eq!(e.address_register(), 0x602);
    e.execute(0xA600).unwrap();
    e.execute(0x6000).unwrap();
    e.execute(0x6100).unwrap();
    e.execute(0xF165).unwrap();
    assert_eq!(e.register(0), 0x0B);
    assert_eq!(e.register(1), 0x16);
}

#[test]
fn peripheral_opcodes_are_recognized_no_ops() {
    let mut e = Emulator::new();
    e.init();
    let pc = e.counter();
    assert_eq!(e.execute(0x00E0), Ok(()));
    assert_eq!(e.execute(0xC10F), Ok(()));
    assert_eq!(e.execute(0xD011), Ok(()));
    assert_eq!(e.execute(0xE19E), Ok(()));
    assert_eq!(e.execute(0xE1A1), Ok(()));
    assert_eq!(e.execute(0xF10A), Ok(()));
    assert_eq!(e.execute(0xF129), Ok(()));
    assert_eq!(e.execute(0xF133), Ok(()));
    assert_eq!(e.register(1), 0);
    assert_eq!(e.counter(), pc + 16);
}

#[test]
fn emulator_unrecognized_opcode_reports_error() {
    let mut e = Emulator::new();
    e.init();
    let pc = e.counter();
    assert_eq!(
        e.execute(0x800F),
        Err(EmuError::UnrecognizedInstruction { opcode: 0x800F, pc })
    );
    assert_eq!(e.counter(), pc);
    assert_eq!(
        e.execute(0xE1FF),
        Err(EmuError::UnrecognizedInstruction { opcode: 0xE1FF, pc })
    );
    assert_eq!(
        e.execute(0xF1FF),
        Err(EmuError::UnrecognizedInstruction { opcode: 0xF1FF, pc })
    );
}

#[test]
fn run_one_batch_of_cycles() {
    // One batch runs sixty instructions: the two real ones, then no-op
    // legacy calls through zeroed memory.
    let mut e = Emulator::new();
    e.init();
    e.load_program(&[0x60, 0x05, 0x70, 0x03]);
    assert_eq!(e.emulate_cycle(), Ok(()));
    assert_eq!(e.register(0), 8);
    assert_eq!(e.counter(), 0x200 + 120);
}

#[test]
fn run_stops_on_bad_opcode() {
    let mut e = Emulator::new();
    e.init();
    e.load_program(&[0x60, 0x05, 0x80, 0x0F]);
    assert_eq!(
        e.emulate_cycle(),
        Err(EmuError::UnrecognizedInstruction { opcode: 0x800F, pc: 0x202 })
    );
    assert_eq!(e.register(0), 5);
    assert_eq!(e.counter(), 0x202);
}

#[test]
fn boot_and_run_pipeline() {
    let emu = emu8::run_emu(&[0x60, 0x05, 0x70, 0x03]).unwrap();
    assert_eq!(emu.register(0), 8);
    assert_eq!(emu.counter(), 0x200 + 120);
    // The font went in below the program.
    assert_eq!(emu.memory_at(0), 0xF0);
    match emu8::run_emu(&[0x80, 0x0F]) {
        Ok(_) => panic!("a bad opcode must stop the run"),
        Err(err) => assert_eq!(
            err,
            EmuError::UnrecognizedInstruction { opcode: 0x800F, pc: 0x200 }
        ),
    }
}

#[test]
fn delay_timer_ops() {
    let mut e = Emulator::new();
    e.init();
    e.execute(0x6105).unwrap();
    e.execute(0xF115).unwrap();
    e.execute(0xF207).unwrap();
    assert_eq!(e.register(2), 5);
}
