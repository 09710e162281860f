use emu8::nes::Nes;
use emu8::EmuError;

#[test]
fn nes_power_on_state() {
    let n = Nes::new();
    assert_eq!(n.cpu.program_counter, 0xFFFC);
    assert_eq!(n.cpu.stack_pointer, 0xFF);
    assert_eq!(n.cpu.accumulator, 0);
    assert_eq!(n.cpu.x, 0);
    assert_eq!(n.cpu.y, 0);
    assert_eq!(n.cpu.status, 0);
}

#[test]
fn nes_memory_round_trip() {
    let mut n = Nes::new();
    n.memory.write(0xBEEF, 0x77);
    assert_eq!(n.memory.read(0xBEEF), 0x77);
    n.memory.write(0x0000, 0x01);
    assert_eq!(n.memory.read(0x0000), 0x01);
    n.memory.write(0xFFFF, 0xFE);
    assert_eq!(n.memory.read(0xFFFF), 0xFE);
}

#[test]
fn load_program_copies_verbatim() {
    // The entire input file is the program image: no header parsing, every
    // byte lands at the base plus its own offset.
    let mut n = Nes::new();
    let mut rom = vec![0u8; 20];
    rom[0] = 0x11;
    rom[16] = 0xAB;
    rom[19] = 0xCD;
    n.memory.load_program(&rom);
    assert_eq!(n.memory.read(0x8000), 0x11);
    assert_eq!(n.memory.read(0x8010), 0xAB);
    assert_eq!(n.memory.read(0x8013), 0xCD);
    assert_eq!(n.memory.read(0x8014), 0);
    assert_eq!(n.memory.read(0x7FFF), 0);
}

#[test]
fn lda_immediate_from_reset_vector() {
    // Scenario: an immediate load dispatched from the reset vector leaves
    // the loaded value in the accumulator with zero and negative clear.
    let mut n = Nes::new();
    n.memory.write(0xFFFC, 0xA9);
    n.memory.write(0xFFFD, 0x42);
    assert_eq!(n.emulate_cycle(), Ok(()));
    assert_eq!(n.cpu.accumulator, 0x42);
    assert_eq!(n.cpu.status & 0b0000_0010, 0);
    assert_eq!(n.cpu.status & 0b1000_0000, 0);
    assert_eq!(n.cpu.program_counter, 0xFFFE);
}

#[test]
fn lda_flags() {
    let mut n = Nes::new();
    n.cpu.program_counter = 0xC000;
    n.memory.write(0xC000, 0xA9);
    n.memory.write(0xC001, 0x00);
    n.emulate_cycle().unwrap();
    assert_eq!(n.cpu.status & 0b0000_0010, 0b0000_0010);
    n.memory.write(0xC002, 0xA9);
    n.memory.write(0xC003, 0x90);
    n.emulate_cycle().unwrap();
    assert_eq!(n.cpu.accumulator, 0x90);
    assert_eq!(n.cpu.status & 0b1000_0000, 0b1000_0000);
    // The sticky-flag convention: the earlier zero flag is still set.
    assert_eq!(n.cpu.status & 0b0000_0010, 0b0000_0010);
}

#[test]
fn jsr_then_rts_balances() {
    // Scenario: a three-byte subroutine jump followed immediately by the
    // return lands just past the jump with the stack pointer net-unchanged.
    let mut n = Nes::new();
    n.cpu.program_counter = 0xC000;
    n.memory.write(0xC000, 0x20);
    n.memory.write(0xC001, 0x34);
    n.memory.write(0xC002, 0x12);
    n.memory.write(0x1234, 0x60);
    let sp0 = n.cpu.stack_pointer;
    n.emulate_cycle().unwrap();
    assert_eq!(n.cpu.program_counter, 0x1234);
    assert_eq!(n.cpu.stack_pointer, sp0.wrapping_sub(2));
    n.emulate_cycle().unwrap();
    assert_eq!(n.cpu.program_counter, 0xC003);
    assert_eq!(n.cpu.stack_pointer, sp0);
}

#[test]
fn adc_sets_carry_on_overflow() {
    let mut n = Nes::new();
    n.cpu.program_counter = 0xC000;
    n.cpu.accumulator = 200;
    n.memory.write(0xC000, 0x69);
    n.memory.write(0xC001, 100);
    n.emulate_cycle().unwrap();
    assert_eq!(n.cpu.accumulator, 44);
    assert_eq!(n.cpu.status & 0b0000_0001, 1);
    // Without overflow the carry stays clear, and the set carry feeds the
    // next addition.
    let mut m = Nes::new();
    m.cpu.program_counter = 0xC000;
    m.cpu.accumulator = 10;
    m.memory.write(0xC000, 0x69);
    m.memory.write(0xC001, 20);
    m.emulate_cycle().unwrap();
    assert_eq!(m.cpu.accumulator, 30);
    assert_eq!(m.cpu.status & 0b0000_0001, 0);
    m.cpu.status = 0x01;
    m.memory.write(0xC002, 0x69);
    m.memory.write(0xC003, 5);
    m.emulate_cycle().unwrap();
    assert_eq!(m.cpu.accumulator, 36);
}

#[test]
fn sbc_engine_convention() {
    // The borrow is taken off the operand before the wrapping subtraction.
    let mut n = Nes::new();
    n.cpu.program_counter = 0xC000;
    n.cpu.accumulator = 10;
    n.memory.write(0xC000, 0xE9);
    n.memory.write(0xC001, 3);
    n.emulate_cycle().unwrap();
    assert_eq!(n.cpu.accumulator, 8);
}

#[test]
fn compare_sets_flags() {
    let mut n = Nes::new();
    n.cpu.program_counter = 0xC000;
    n.cpu.accumulator = 7;
    n.memory.write(0xC000, 0xC9);
    n.memory.write(0xC001, 7);
    n.emulate_cycle().unwrap();
    assert_eq!(n.cpu.status & 0b0000_0001, 1);
    assert_eq!(n.cpu.status & 0b0000_0010, 0b0000_0010);
    let mut m = Nes::new();
    m.cpu.program_counter = 0xC000;
    m.cpu.x = 3;
    m.memory.write(0xC000, 0xE0);
    m.memory.write(0xC001, 5);
    m.emulate_cycle().unwrap();
    assert_eq!(m.cpu.status & 0b0000_0001, 0);
    assert_eq!(m.cpu.status & 0b1000_0000, 0b1000_0000);
}

#[test]
fn zero_page_and_absolute_modes() {
    let mut n = Nes::new();
    n.cpu.program_counter = 0xC000;
    n.memory.write(0x0042, 0x99);
    n.memory.write(0xC000, 0xA5);
    n.memory.write(0xC001, 0x42);
    n.emulate_cycle().unwrap();
    assert_eq!(n.cpu.accumulator, 0x99);
    assert_eq!(n.cpu.program_counter, 0xC002);
    n.memory.write(0x1234, 0x77);
    n.memory.write(0xC002, 0xAD);
    n.memory.write(0xC003, 0x34);
    n.memory.write(0xC004, 0x12);
    n.emulate_cycle().unwrap();
    assert_eq!(n.cpu.accumulator, 0x77);
    assert_eq!(n.cpu.program_counter, 0xC005);
}

#[test]
fn indexed_and_indirect_modes() {
    let mut n = Nes::new();
    n.cpu.program_counter = 0xC000;
    n.cpu.x = 4;
    n.memory.write(0x0046, 0x21);
    n.memory.write(0xC000, 0xB5);
    n.memory.write(0xC001, 0x42);
    n.emulate_cycle().unwrap();
    assert_eq!(n.cpu.accumulator, 0x21);
    // Indexed indirect: zero-page pointer table offset by X.
    n.memory.write(0x0010, 0x00);
    n.memory.write(0x0011, 0x80);
    n.memory.write(0x8000, 0x5A);
    n.memory.write(0xC002, 0xA1);
    n.memory.write(0xC003, 0x0C);
    n.emulate_cycle().unwrap();
    assert_eq!(n.cpu.accumulator, 0x5A);
    // Indirect indexed: pointer then Y offset.
    n.cpu.y = 3;
    n.memory.write(0x0020, 0x00);
    n.memory.write(0x0021, 0x90);
    n.memory.write(0x9003, 0xA7);
    n.memory.write(0xC004, 0xB1);
    n.memory.write(0xC005, 0x20);
    n.emulate_cycle().unwrap();
    assert_eq!(n.cpu.accumulator, 0xA7);
}

#[test]
fn stores_and_transfers() {
    let mut n = Nes::new();
    n.cpu.program_counter = 0xC000;
    n.cpu.accumulator = 0x3C;
    n.memory.write(0xC000, 0x85);
    n.memory.write(0xC001, 0x10);
    n.emulate_cycle().unwrap();
    assert_eq!(n.memory.read(0x0010), 0x3C);
    n.memory.write(0xC002, 0xAA);
    n.emulate_cycle().unwrap();
    assert_eq!(n.cpu.x, 0x3C);
    n.memory.write(0xC003, 0x9A);
    n.emulate_cycle().unwrap();
    assert_eq!(n.cpu.stack_pointer, 0x3C);
    // TXA copies X into the accumulator.
    let mut m = Nes::new();
    m.cpu.program_counter = 0xC000;
    m.cpu.x = 7;
    m.memory.write(0xC000, 0x8A);
    m.emulate_cycle().unwrap();
    assert_eq!(m.cpu.accumulator, 7);
}

#[test]
fn increments_and_decrements() {
    let mut n = Nes::new();
    n.cpu.program_counter = 0xC000;
    n.memory.write(0x0030, 0xFF);
    n.memory.write(0xC000, 0xE6);
    n.memory.write(0xC001, 0x30);
    n.emulate_cycle().unwrap();
    assert_eq!(n.memory.read(0x0030), 0x00);
    assert_eq!(n.cpu.status & 0b0000_0010, 0b0000_0010);
    n.memory.write(0xC002, 0xC6);
    n.memory.write(0xC003, 0x30);
    n.emulate_cycle().unwrap();
    assert_eq!(n.memory.read(0x0030), 0xFF);
    assert_eq!(n.cpu.status & 0b1000_0000, 0b1000_0000);
    // Register forms wrap too.
    let mut m = Nes::new();
    m.cpu.program_counter = 0xC000;
    m.cpu.x = 0xFF;
    m.memory.write(0xC000, 0xE8);
    m.emulate_cycle().unwrap();
    assert_eq!(m.cpu.x, 0);
    assert_eq!(m.cpu.status & 0b0000_0010, 0b0000_0010);
    m.memory.write(0xC001, 0x88);
    m.emulate_cycle().unwrap();
    assert_eq!(m.cpu.y, 0xFF);
}

#[test]
fn shifts_set_carry_from_shifted_out_bit() {
    let mut n = Nes::new();
    n.cpu.program_counter = 0xC000;
    n.cpu.accumulator = 0x81;
    n.memory.write(0xC000, 0x0A);
    n.emulate_cycle().unwrap();
    assert_eq!(n.cpu.accumulator, 0x02);
    assert_eq!(n.cpu.status & 0b0000_0001, 1);
    let mut m = Nes::new();
    m.cpu.program_counter = 0xC000;
    m.cpu.accumulator = 0x03;
    m.memory.write(0xC000, 0x4A);
    m.emulate_cycle().unwrap();
    assert_eq!(m.cpu.accumulator, 0x01);
    assert_eq!(m.cpu.status & 0b0000_0001, 1);
}

#[test]
fn branches_taken_and_not_taken() {
    // Taken: the signed offset is relative to the address after the
    // two-byte instruction.
    let mut n = Nes::new();
    n.cpu.program_counter = 0xC000;
    n.memory.write(0xC000, 0xD0);
    n.memory.write(0xC001, 0x05);
    n.emulate_cycle().unwrap();
    assert_eq!(n.cpu.program_counter, 0xC007);
    // Taken backwards: a high offset byte is negative.
    let mut b = Nes::new();
    b.cpu.program_counter = 0xC000;
    b.memory.write(0xC000, 0xD0);
    b.memory.write(0xC001, 0xFB);
    b.emulate_cycle().unwrap();
    assert_eq!(b.cpu.program_counter, 0xBFFD);
    // Not taken: the operand byte is still consumed.
    let mut m = Nes::new();
    m.cpu.program_counter = 0xC000;
    m.memory.write(0xC000, 0xF0);
    m.memory.write(0xC001, 0x05);
    m.emulate_cycle().unwrap();
    assert_eq!(m.cpu.program_counter, 0xC002);
}

#[test]
fn flag_set_and_clear_ops() {
    let mut n = Nes::new();
    n.cpu.program_counter = 0xC000;
    n.memory.write(0xC000, 0x38);
    n.memory.write(0xC001, 0xF8);
    n.memory.write(0xC002, 0x78);
    n.emulate_cycle().unwrap();
    n.emulate_cycle().unwrap();
    n.emulate_cycle().unwrap();
    assert_eq!(n.cpu.status, 0b0000_1101);
    n.memory.write(0xC003, 0x18);
    n.emulate_cycle().unwrap();
    assert_eq!(n.cpu.status, 0b0000_1100);
    n.memory.write(0xC004, 0xD8);
    n.emulate_cycle().unwrap();
    assert_eq!(n.cpu.status, 0b0000_0100);
    n.memory.write(0xC005, 0x58);
    n.emulate_cycle().unwrap();
    assert_eq!(n.cpu.status, 0);
}

#[test]
fn stack_push_and_pull() {
    let mut n = Nes::new();
    n.cpu.program_counter = 0xC000;
    n.cpu.accumulator = 0x5A;
    n.memory.write(0xC000, 0x48);
    n.emulate_cycle().unwrap();
    assert_eq!(n.memory.read(0x01FF), 0x5A);
    assert_eq!(n.cpu.stack_pointer, 0xFE);
    n.cpu.accumulator = 0;
    n.memory.write(0xC001, 0x68);
    n.emulate_cycle().unwrap();
    assert_eq!(n.cpu.accumulator, 0x5A);
    assert_eq!(n.cpu.stack_pointer, 0xFF);
    // Status push and pull replace the register wholesale.
    n.cpu.status = 0xC3;
    n.memory.write(0xC002, 0x08);
    n.emulate_cycle().unwrap();
    n.cpu.status = 0;
    n.memory.write(0xC003, 0x28);
    n.emulate_cycle().unwrap();
    assert_eq!(n.cpu.status, 0xC3);
}

#[test]
fn jumps() {
    let mut n = Nes::new();
    n.cpu.program_counter = 0xC000;
    n.memory.write(0xC000, 0x4C);
    n.memory.write(0xC001, 0x34);
    n.memory.write(0xC002, 0x12);
    n.emulate_cycle().unwrap();
    assert_eq!(n.cpu.program_counter, 0x1234);
    let mut m = Nes::new();
    m.cpu.program_counter = 0xC000;
    m.memory.write(0xC000, 0x6C);
    m.memory.write(0xC001, 0x00);
    m.memory.write(0xC002, 0x30);
    m.memory.write(0x3000, 0x78);
    m.memory.write(0x3001, 0x56);
    m.emulate_cycle().unwrap();
    assert_eq!(m.cpu.program_counter, 0x5678);
}

#[test]
fn bit_and_logic_ops() {
    let mut n = Nes::new();
    n.cpu.program_counter = 0xC000;
    n.cpu.accumulator = 0x0F;
    n.memory.write(0x0040, 0xC0);
    n.memory.write(0xC000, 0x24);
    n.memory.write(0xC001, 0x40);
    n.emulate_cycle().unwrap();
    // Mask missed: zero set; operand bits 6 and 7 copied in.
    assert_eq!(n.cpu.status & 0b0000_0010, 0b0000_0010);
    assert_eq!(n.cpu.status & 0b1100_0000, 0b1100_0000);
    let mut m = Nes::new();
    m.cpu.program_counter = 0xC000;
    m.cpu.accumulator = 0b0101;
    m.memory.write(0xC000, 0x29);
    m.memory.write(0xC001, 0b0011);
    m.emulate_cycle().unwrap();
    assert_eq!(m.cpu.accumulator, 0b0001);
    m.memory.write(0xC002, 0x09);
    m.memory.write(0xC003, 0b1000);
    m.emulate_cycle().unwrap();
    assert_eq!(m.cpu.accumulator, 0b1001);
}

#[test]
fn nes_unrecognized_opcode_reports_error() {
    let mut n = Nes::new();
    n.cpu.program_counter = 0xC000;
    n.memory.write(0xC000, 0xFF);
    assert_eq!(
        n.emulate_cycle(),
        Err(EmuError::UnrecognizedInstruction { opcode: 0xFF, pc: 0xC000 })
    );
    assert_eq!(n.cpu.program_counter, 0xC000);
    // The absolute-X form of subtract is outside this core's table.
    assert_eq!(
        n.execute(0xFD),
        Err(EmuError::UnrecognizedInstruction { opcode: 0xFD, pc: 0xC000 })
    );
}

#[test]
fn nop_and_brk_advance_only() {
    let mut n = Nes::new();
    n.cpu.program_counter = 0xC000;
    n.memory.write(0xC000, 0xEA);
    n.emulate_cycle().unwrap();
    assert_eq!(n.cpu.program_counter, 0xC001);
    n.memory.write(0xC001, 0x00);
    n.emulate_cycle().unwrap();
    assert_eq!(n.cpu.program_counter, 0xC002);
    assert_eq!(n.cpu.status, 0);
}
