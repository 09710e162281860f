use emu8::chip8::keyboard::HostKey;
use emu8::chip8::Chip8;
use emu8::EmuError;
use emu8::StepOutcome;

#[test]
fn power_on_state() {
    let c = Chip8::new();
    assert_eq!(c.cpu.program_counter, 0x200);
    assert_eq!(c.cpu.stack_pointer, 255);
    assert_eq!(c.cpu.i, 0);
    assert_eq!(c.cpu.delay_timer, 0);
    assert_eq!(c.cpu.sound_timer, 0);
    for r in 0..16 {
        assert_eq!(c.cpu.registers[r], 0);
    }
    assert_eq!(c.keyboard.pressed_key, None);
}

#[test]
fn memory_round_trip() {
    let mut c = Chip8::new();
    c.memory.write(0x123, 0xAB);
    assert_eq!(c.memory.read(0x123), 0xAB);
    // Addresses are masked into the 4 KiB space.
    assert_eq!(c.memory.read(0x1123), 0xAB);
    c.memory.write(0xFFF, 0x55);
    assert_eq!(c.memory.read(0xFFF), 0x55);
    c.memory.write(0x000, 0x01);
    assert_eq!(c.memory.read(0x000), 0x01);
}

#[test]
fn load_and_run_two_instructions() {
    // Scenario: 6005 sets V0 := 5, 7003 adds 3; PC advances by 4 in total.
    let mut c = Chip8::new();
    c.memory.load(0x200, &[0x60, 0x05, 0x70, 0x03]);
    assert_eq!(c.emulate_cycle(), Ok(StepOutcome::Ran));
    assert_eq!(c.cpu.registers[0], 5);
    assert_eq!(c.emulate_cycle(), Ok(StepOutcome::Ran));
    assert_eq!(c.cpu.registers[0], 8);
    assert_eq!(c.cpu.program_counter, 0x204);
}

#[test]
fn draw_sprite_top_left() {
    // Scenario: one 0xF0 sprite row drawn at (0, 0) lights the four
    // leftmost pixels with no collision.
    let mut c = Chip8::new();
    assert_eq!(c.execute(0xA300), Ok(StepOutcome::Ran));
    assert_eq!(c.cpu.i, 0x300);
    c.memory.write(0x300, 0xF0);
    assert_eq!(c.execute(0xD011), Ok(StepOutcome::Ran));
    for px in 0..4 {
        assert_eq!(c.display.buffer[px], 1);
    }
    for px in 4..8 {
        assert_eq!(c.display.buffer[px], 0);
    }
    assert_eq!(c.cpu.registers[0xF], 0);
}

#[test]
fn draw_collision_and_clear() {
    let mut c = Chip8::new();
    c.execute(0xA300).unwrap();
    c.memory.write(0x300, 0xF0);
    c.execute(0xD011).unwrap();
    assert_eq!(c.cpu.registers[0xF], 0);
    // Drawing the same sprite again erases it and reports the collision.
    c.execute(0xD011).unwrap();
    assert_eq!(c.cpu.registers[0xF], 1);
    for px in 0..8 {
        assert_eq!(c.display.buffer[px], 0);
    }
    // Draw once more, then clear: every pixel reads zero afterwards.
    c.execute(0xD011).unwrap();
    assert_eq!(c.execute(0x00E0), Ok(StepOutcome::Ran));
    for px in 0..64 * 32 {
        assert_eq!(c.display.buffer[px], 0);
    }
}

#[test]
fn draw_clips_at_the_right_edge() {
    let mut c = Chip8::new();
    c.execute(0xA300).unwrap();
    c.memory.write(0x300, 0xFF);
    c.cpu.registers[0] = 60;
    c.cpu.registers[1] = 0;
    c.execute(0xD011).unwrap();
    // Columns 60..63 are lit; nothing wraps onto the next row.
    for px in 60..64 {
        assert_eq!(c.display.buffer[px], 1);
    }
    for px in 64..72 {
        assert_eq!(c.display.buffer[px], 0);
    }
}

#[test]
fn add_sets_carry_flag() {
    let mut c = Chip8::new();
    c.cpu.registers[1] = 200;
    c.cpu.registers[2] = 100;
    assert_eq!(c.execute(0x8124), Ok(StepOutcome::Ran));
    assert_eq!(c.cpu.registers[1], 44);
    assert_eq!(c.cpu.registers[0xF], 1);
    c.cpu.registers[3] = 10;
    c.cpu.registers[4] = 20;
    c.execute(0x8344).unwrap();
    assert_eq!(c.cpu.registers[3], 30);
    assert_eq!(c.cpu.registers[0xF], 0);
}

#[test]
fn sub_sets_borrow_flag() {
    let mut c = Chip8::new();
    // Minuend strictly greater: flag 1.
    c.cpu.registers[1] = 10;
    c.cpu.registers[2] = 3;
    c.execute(0x8125).unwrap();
    assert_eq!(c.cpu.registers[1], 7);
    assert_eq!(c.cpu.registers[0xF], 1);
    // Minuend smaller: wrapping result, flag 0.
    c.cpu.registers[3] = 3;
    c.cpu.registers[4] = 10;
    c.execute(0x8345).unwrap();
    assert_eq!(c.cpu.registers[3], 249);
    assert_eq!(c.cpu.registers[0xF], 0);
    // Equal operands: not strictly greater, flag 0.
    c.cpu.registers[5] = 9;
    c.cpu.registers[6] = 9;
    c.execute(0x8565).unwrap();
    assert_eq!(c.cpu.registers[5], 0);
    assert_eq!(c.cpu.registers[0xF], 0);
    // The reversed form takes the other register as minuend.
    c.cpu.registers[7] = 3;
    c.cpu.registers[8] = 10;
    c.execute(0x8787).unwrap();
    assert_eq!(c.cpu.registers[7], 7);
    assert_eq!(c.cpu.registers[0xF], 1);
}

#[test]
fn bitwise_and_shift_ops() {
    let mut c = Chip8::new();
    c.cpu.registers[1] = 0b1100;
    c.cpu.registers[2] = 0b1010;
    c.execute(0x8121).unwrap();
    assert_eq!(c.cpu.registers[1], 0b1110);
    c.cpu.registers[1] = 0b1100;
    c.execute(0x8122).unwrap();
    assert_eq!(c.cpu.registers[1], 0b1000);
    c.cpu.registers[1] = 0b1100;
    c.execute(0x8123).unwrap();
    assert_eq!(c.cpu.registers[1], 0b0110);
    // Shift right: flag takes the dropped low bit.
    c.cpu.registers[3] = 0b0101;
    c.execute(0x8306).unwrap();
    assert_eq!(c.cpu.registers[3], 0b0010);
    assert_eq!(c.cpu.registers[0xF], 1);
    // Shift left: the flag takes the shifted-out high bit.
    c.cpu.registers[4] = 0x81;
    c.execute(0x840E).unwrap();
    assert_eq!(c.cpu.registers[4], 0x02);
    assert_eq!(c.cpu.registers[0xF], 1);
    // With the flag register as destination the shift reads the freshly
    // written flag, as the sequential opcode table does.
    c.cpu.registers[0xF] = 0x03;
    c.execute(0x8F06).unwrap();
    assert_eq!(c.cpu.registers[0xF], 0);
}

#[test]
fn register_copy_and_jumps() {
    let mut c = Chip8::new();
    c.cpu.registers[2] = 77;
    c.execute(0x8120).unwrap();
    assert_eq!(c.cpu.registers[1], 77);
    c.execute(0x1ABC).unwrap();
    assert_eq!(c.cpu.program_counter, 0xABC);
    c.cpu.registers[0] = 5;
    c.execute(0xB100).unwrap();
    assert_eq!(c.cpu.program_counter, 0x105);
}

#[test]
fn skip_instructions() {
    let mut c = Chip8::new();
    c.cpu.registers[1] = 0x42;
    let pc = c.cpu.program_counter;
    c.execute(0x3142).unwrap();
    assert_eq!(c.cpu.program_counter, pc + 4);
    let pc = c.cpu.program_counter;
    c.execute(0x3141).unwrap();
    assert_eq!(c.cpu.program_counter, pc + 2);
    let pc = c.cpu.program_counter;
    c.execute(0x4141).unwrap();
    assert_eq!(c.cpu.program_counter, pc + 4);
    c.cpu.registers[2] = 0x42;
    let pc = c.cpu.program_counter;
    c.execute(0x5120).unwrap();
    assert_eq!(c.cpu.program_counter, pc + 4);
    let pc = c.cpu.program_counter;
    c.execute(0x9120).unwrap();
    assert_eq!(c.cpu.program_counter, pc + 2);
}

#[test]
fn call_and_return_balance() {
    let mut c = Chip8::new();
    let pc0 = c.cpu.program_counter;
    let sp0 = c.cpu.stack_pointer;
    c.execute(0x2ABC).unwrap();
    assert_eq!(c.cpu.program_counter, 0xABC);
    c.execute(0x00EE).unwrap();
    assert_eq!(c.cpu.program_counter, pc0 + 2);
    assert_eq!(c.cpu.stack_pointer, sp0);
    // Two levels of nesting balance as well.
    c.execute(0x2A00).unwrap();
    c.execute(0x2B00).unwrap();
    c.execute(0x00EE).unwrap();
    assert_eq!(c.cpu.program_counter, 0xA02);
    c.execute(0x00EE).unwrap();
    assert_eq!(c.cpu.program_counter, pc0 + 4);
    assert_eq!(c.cpu.stack_pointer, sp0);
}

#[test]
fn pop_from_empty_stack_wraps() {
    // Boundary: a return with the stack pointer still at its 0xFF sentinel
    // reads the last stack slot and wraps the pointer down to 0xFE.
    let mut c = Chip8::new();
    c.memory.stack[15] = 0x777;
    c.execute(0x00EE).unwrap();
    assert_eq!(c.cpu.program_counter, 0x777);
    assert_eq!(c.cpu.stack_pointer, 0xFE);
}

#[test]
fn timers_and_misc_ops() {
    let mut c = Chip8::new();
    c.cpu.registers[1] = 9;
    c.execute(0xF115).unwrap();
    assert_eq!(c.cpu.delay_timer, 9);
    c.execute(0xF118).unwrap();
    assert_eq!(c.cpu.sound_timer, 9);
    c.execute(0xF207).unwrap();
    assert_eq!(c.cpu.registers[2], 9);
    // One fetched cycle (opcode 0000 is the ignored legacy call) ticks both
    // timers once.
    c.cpu.program_counter = 0x400;
    c.emulate_cycle().unwrap();
    assert_eq!(c.cpu.delay_timer, 8);
    assert_eq!(c.cpu.sound_timer, 8);
}

#[test]
fn address_register_ops() {
    let mut c = Chip8::new();
    c.execute(0xAFFF).unwrap();
    assert_eq!(c.cpu.i, 0xFFF);
    c.cpu.registers[3] = 0x10;
    c.execute(0xF31E).unwrap();
    assert_eq!(c.cpu.i, 0x100F);
    // Font glyph address: digit times five.
    c.cpu.registers[4] = 0xA;
    c.execute(0xF429).unwrap();
    assert_eq!(c.cpu.i, 50);
}

#[test]
fn bcd_digits() {
    let mut c = Chip8::new();
    c.execute(0xA500).unwrap();
    c.cpu.registers[3] = 234;
    c.execute(0xF333).unwrap();
    assert_eq!(c.memory.read(0x500), 2);
    assert_eq!(c.memory.read(0x501), 3);
    assert_eq!(c.memory.read(0x502), 4);
}

#[test]
fn store_and_load_registers() {
    let mut c = Chip8::new();
    c.execute(0xA600).unwrap();
    c.cpu.registers[0] = 11;
    c.cpu.registers[1] = 22;
    c.cpu.registers[2] = 33;
    c.execute(0xF255).unwrap();
    assert_eq!(c.memory.read(0x600), 11);
    assert_eq!(c.memory.read(0x601), 22);
    assert_eq!(c.memory.read(0x602), 33);
    assert_eq!(c.cpu.i, 0x603);
    let mut d = Chip8::new();
    d.memory.write(0x600, 44);
    d.memory.write(0x601, 55);
    d.execute(0xA600).unwrap();
    d.execute(0xF165).unwrap();
    assert_eq!(d.cpu.registers[0], 44);
    assert_eq!(d.cpu.registers[1], 55);
    assert_eq!(d.cpu.i, 0x602);
}

#[test]
fn keyboard_skips_and_wait() {
    let mut c = Chip8::new();
    c.cpu.registers[1] = 5;
    let pc = c.cpu.program_counter;
    c.execute(0xE19E).unwrap();
    assert_eq!(c.cpu.program_counter, pc + 2);
    let pc = c.cpu.program_counter;
    c.execute(0xE1A1).unwrap();
    assert_eq!(c.cpu.program_counter, pc + 4);
    c.keyboard.pressed_key = Some(5);
    let pc = c.cpu.program_counter;
    c.execute(0xE19E).unwrap();
    assert_eq!(c.cpu.program_counter, pc + 4);
    // Wait-for-key with no key down: the machine reports it and stands
    // still; with a key down it stores the code.
    let mut w = Chip8::new();
    let pc = w.cpu.program_counter;
    assert_eq!(w.execute(0xF20A), Ok(StepOutcome::WaitingForKey));
    assert_eq!(w.cpu.program_counter, pc);
    w.keyboard.pressed_key = Some(0xB);
    assert_eq!(w.execute(0xF20A), Ok(StepOutcome::Ran));
    assert_eq!(w.cpu.registers[2], 0xB);
    assert_eq!(w.cpu.program_counter, pc + 2);
}

#[test]
fn cycle_waits_for_key() {
    // A fetched wait-for-key with no key down leaves the machine on the
    // same instruction, so the driver can poll and step again; the timers
    // still tick.
    let mut c = Chip8::new();
    c.memory.load(0x200, &[0xF2, 0x0A]);
    c.cpu.delay_timer = 3;
    assert_eq!(c.emulate_cycle(), Ok(StepOutcome::WaitingForKey));
    assert_eq!(c.cpu.program_counter, 0x200);
    assert_eq!(c.cpu.delay_timer, 2);
    c.keyboard.pressed_key = Some(7);
    assert_eq!(c.emulate_cycle(), Ok(StepOutcome::Ran));
    assert_eq!(c.cpu.registers[2], 7);
    assert_eq!(c.cpu.program_counter, 0x202);
}

#[test]
fn random_byte_is_masked() {
    let mut c = Chip8::new();
    for _ in 0..16 {
        c.execute(0xC10F).unwrap();
        assert!(c.cpu.registers[1] <= 0x0F);
        c.execute(0xC200).unwrap();
        assert_eq!(c.cpu.registers[2], 0);
    }
}

#[test]
fn unrecognized_opcode_reports_error() {
    let mut c = Chip8::new();
    let pc = c.cpu.program_counter;
    assert_eq!(
        c.execute(0x8009),
        Err(EmuError::UnrecognizedInstruction { opcode: 0x8009, pc })
    );
    assert_eq!(c.cpu.program_counter, pc);
    assert_eq!(
        c.execute(0xE1FF),
        Err(EmuError::UnrecognizedInstruction { opcode: 0xE1FF, pc })
    );
    assert_eq!(
        c.execute(0xF1FF),
        Err(EmuError::UnrecognizedInstruction { opcode: 0xF1FF, pc })
    );
}

#[test]
fn host_key_mapping() {
    let k = emu8::chip8::keyboard::Keyboard::new();
    assert_eq!(k.get_key_code(Some(HostKey::Digit1)), Some(0x1));
    assert_eq!(k.get_key_code(Some(HostKey::Digit4)), Some(0xC));
    assert_eq!(k.get_key_code(Some(HostKey::Q)), Some(0x4));
    assert_eq!(k.get_key_code(Some(HostKey::X)), Some(0x0));
    assert_eq!(k.get_key_code(Some(HostKey::V)), Some(0xF));
    assert_eq!(k.get_key_code(None), None);
    let mut k2 = emu8::chip8::keyboard::Keyboard::new();
    assert!(!k2.is_key_pressed(3));
    k2.pressed_key = Some(3);
    assert!(k2.is_key_pressed(3));
    assert!(!k2.is_key_pressed(4));
}
