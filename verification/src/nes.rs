pub mod cpu;
pub mod memory;

use crate::EmuError;
use vstd::prelude::*;

verus! {

/// The byte of memory at an address.
pub open spec fn at(mem: Seq<u8>, addr: u16) -> u8 {
    mem[addr as int]
}

/// The whole machine state as mathematical values: the state space of the
/// transition function `nes_step`.
#[verifier::ext_equal]
pub ghost struct NesView {
    pub a: u8,
    pub x: u8,
    pub y: u8,
    pub status: u8,
    pub sp: u8,
    pub pc: u16,
    pub mem: Seq<u8>,
}

impl NesView {
    pub open spec fn wf(self) -> bool {
        self.mem.len() == 65536
    }
}

/// The status register with the zero flag OR-ed in when the operand is zero.
/// Like the other flag helpers this only ever sets its bit, never clears it,
/// faithfully to the engine's sticky-flag convention.
pub open spec fn zero_flagged(st: u8, v: u8) -> u8 {
    if v == 0 {
        st | 0x02u8
    } else {
        st
    }
}

/// The status register with the negative flag OR-ed in when bit 7 of the
/// operand is set.
pub open spec fn negative_flagged(st: u8, v: u8) -> u8 {
    if v & 0x80 == 0x80 {
        st | 0x80u8
    } else {
        st
    }
}

/// Zero then negative flag, the pair every data operation updates.
pub open spec fn zn_flagged(st: u8, v: u8) -> u8 {
    negative_flagged(zero_flagged(st, v), v)
}

/// The status register with the carry flag OR-ed in when bit 0 of the
/// operand is set (the shift-out bit of a right shift).
pub open spec fn carry_lsb_flagged(st: u8, v: u8) -> u8 {
    if v & 0x01 == 0x01 {
        st | 0x01u8
    } else {
        st
    }
}

/// The status register with the carry flag OR-ed in when a condition holds.
pub open spec fn carry_flagged_if(st: u8, c: bool) -> u8 {
    if c {
        st | 0x01u8
    } else {
        st
    }
}

// Addressing modes. Each yields the program counter after the operand
// bytes are consumed, together with the operand value (immediate mode) or
// the effective address (all other modes). The trailing increment of the
// dispatch loop accounts for the opcode byte itself.
/// Immediate: the operand byte itself.
pub open spec fn imm_mode(s: NesView) -> (u16, u8) {
    let p = s.pc.wrapping_add(1);
    (p, at(s.mem, p))
}

/// Zero page: the operand byte is the address.
pub open spec fn zp_mode(s: NesView) -> (u16, u8) {
    let p = s.pc.wrapping_add(1);
    (p, at(s.mem, p))
}

/// Zero page indexed by X, wrapping within the page.
pub open spec fn zpx_mode(s: NesView) -> (u16, u8) {
    let p = s.pc.wrapping_add(1);
    (p, at(s.mem, p).wrapping_add(s.x))
}

/// Zero page indexed by Y, wrapping within the page.
pub open spec fn zpy_mode(s: NesView) -> (u16, u8) {
    let p = s.pc.wrapping_add(1);
    (p, at(s.mem, p).wrapping_add(s.y))
}

/// Absolute: little-endian 16-bit address.
pub open spec fn abs_mode(s: NesView) -> (u16, u16) {
    let p1 = s.pc.wrapping_add(1);
    let p2 = s.pc.wrapping_add(2);
    (p2, ((at(s.mem, p2) as u16) << 8u16) | (at(s.mem, p1) as u16))
}

/// Absolute indexed by X, wrapping at the 64 KiB boundary.
pub open spec fn absx_mode(s: NesView) -> (u16, u16) {
    let r = abs_mode(s);
    (r.0, r.1.wrapping_add(s.x as u16))
}

/// Absolute indexed by Y, wrapping at the 64 KiB boundary.
pub open spec fn absy_mode(s: NesView) -> (u16, u16) {
    let r = abs_mode(s);
    (r.0, r.1.wrapping_add(s.y as u16))
}

/// Indirect: the absolute operand points at the little-endian target.
pub open spec fn ind_mode(s: NesView) -> (u16, u16) {
    let r = abs_mode(s);
    let ptr = r.1;
    (r.0, ((at(s.mem, ptr.wrapping_add(1)) as u16) << 8u16) | (at(s.mem, ptr) as u16))
}

/// Indexed indirect: the zero-page operand plus X names a pointer; the read
/// of its high byte runs past the page rather than wrapping in it, as the
/// engine's table does.
pub open spec fn indx_mode(s: NesView) -> (u16, u16) {
    let p = s.pc.wrapping_add(1);
    let zp = at(s.mem, p).wrapping_add(s.x);
    (p, ((s.mem[zp as int + 1] as u16) << 8u16) | (s.mem[zp as int] as u16))
}

/// Indirect indexed: the zero-page operand names a pointer, and Y is added
/// to the address it holds, wrapping at the 64 KiB boundary.
pub open spec fn indy_mode(s: NesView) -> (u16, u16) {
    let p = s.pc.wrapping_add(1);
    let zp = at(s.mem, p);
    let base = ((s.mem[zp as int + 1] as u16) << 8u16) | (s.mem[zp as int] as u16);
    (p, base.wrapping_add(s.y as u16))
}

// Instruction semantics, each on the state before the opcode, with `p` the
// program counter after the operand fetch.
/// The trailing program-counter increment every dispatch ends with.
pub open spec fn bumped(s: NesView) -> NesView {
    NesView { pc: s.pc.wrapping_add(1), ..s }
}

/// Load the accumulator.
pub open spec fn load_a(s: NesView, p: u16, v: u8) -> NesView {
    NesView { pc: p, a: v, status: zn_flagged(s.status, v), ..s }
}

/// Load the X register.
pub open spec fn load_x(s: NesView, p: u16, v: u8) -> NesView {
    NesView { pc: p, x: v, status: zn_flagged(s.status, v), ..s }
}

/// Load the Y register.
pub open spec fn load_y(s: NesView, p: u16, v: u8) -> NesView {
    NesView { pc: p, y: v, status: zn_flagged(s.status, v), ..s }
}

/// Bitwise AND into the accumulator.
pub open spec fn and_a(s: NesView, p: u16, v: u8) -> NesView {
    NesView { pc: p, a: s.a & v, status: zn_flagged(s.status, s.a & v), ..s }
}

/// Bitwise OR into the accumulator.
pub open spec fn ora_a(s: NesView, p: u16, v: u8) -> NesView {
    NesView { pc: p, a: s.a | v, status: zn_flagged(s.status, s.a | v), ..s }
}

/// Add with carry: the carry flag is OR-ed in exactly when the true sum
/// overflows eight bits.
pub open spec fn adc_a(s: NesView, p: u16, v: u8) -> NesView {
    let c: u8 = if s.status & 0x01 == 0x01 {
        1u8
    } else {
        0u8
    };
    let sum = s.a + v + c;
    let a2 = (sum % 256) as u8;
    let st1 = if sum > 255 {
        s.status | 0x01u8
    } else {
        s.status
    };
    NesView { pc: p, a: a2, status: zn_flagged(st1, a2), ..s }
}

/// Subtract with borrow, with the engine's own operand convention: the
/// borrow is subtracted from the operand before the wrapping subtraction,
/// and the carry helper then tests bit 0 of the result.
pub open spec fn sbc_a(s: NesView, p: u16, v: u8) -> NesView {
    let borrow: u8 = if s.status & 0x01 == 0x01 {
        0u8
    } else {
        1u8
    };
    let a2 = s.a.wrapping_sub(v.wrapping_sub(borrow));
    NesView { pc: p, a: a2, status: zn_flagged(carry_lsb_flagged(s.status, a2), a2), ..s }
}

/// Compare a register with an operand: carry OR-ed in when the register is
/// at least the operand, zero and negative from the wrapping difference.
pub open spec fn cmp_flags(s: NesView, p: u16, lhs: u8, v: u8) -> NesView {
    let d = lhs.wrapping_sub(v);
    NesView { pc: p, status: zn_flagged(carry_flagged_if(s.status, lhs >= v), d), ..s }
}

/// Bit test: zero flag from the accumulator mask, bits 6 and 7 of the
/// operand OR-ed into overflow and negative.
pub open spec fn bit_test(s: NesView, p: u16, v: u8) -> NesView {
    let st1 = if s.a & v == 0 {
        s.status | 0x02u8
    } else {
        s.status
    };
    NesView { pc: p, status: st1 | (v & 0xC0), ..s }
}

/// Arithmetic shift left of the accumulator; carry takes the shifted-out
/// high bit.
pub open spec fn asl_acc_spec(s: NesView) -> NesView {
    let r = s.a << 1u8;
    NesView { a: r, status: zn_flagged(carry_flagged_if(s.status, s.a & 0x80 == 0x80), r), ..s }
}

/// Arithmetic shift left in memory.
pub open spec fn asl_at_spec(s: NesView, p: u16, addr: u16) -> NesView {
    let v = at(s.mem, addr);
    let r = v << 1u8;
    NesView {
        pc: p,
        mem: s.mem.update(addr as int, r),
        status: zn_flagged(carry_flagged_if(s.status, v & 0x80 == 0x80), r),
        ..s
    }
}

/// Logical shift right of the accumulator; carry takes the shifted-out low
/// bit.
pub open spec fn lsr_acc_spec(s: NesView) -> NesView {
    let r = s.a >> 1u8;
    NesView { a: r, status: zn_flagged(carry_lsb_flagged(s.status, s.a), r), ..s }
}

/// Logical shift right in memory.
pub open spec fn lsr_at_spec(s: NesView, p: u16, addr: u16) -> NesView {
    let v = at(s.mem, addr);
    let r = v >> 1u8;
    NesView {
        pc: p,
        mem: s.mem.update(addr as int, r),
        status: zn_flagged(carry_lsb_flagged(s.status, v), r),
        ..s
    }
}

/// Increment in memory (wrapping), zero and negative from the result.
pub open spec fn inc_at_spec(s: NesView, p: u16, addr: u16) -> NesView {
    let r = at(s.mem, addr).wrapping_add(1);
    NesView { pc: p, mem: s.mem.update(addr as int, r), status: zn_flagged(s.status, r), ..s }
}

/// Decrement in memory (wrapping), zero and negative from the result.
pub open spec fn dec_at_spec(s: NesView, p: u16, addr: u16) -> NesView {
    let r = at(s.mem, addr).wrapping_sub(1);
    NesView { pc: p, mem: s.mem.update(addr as int, r), status: zn_flagged(s.status, r), ..s }
}

/// Store a value in memory.
pub open spec fn store_at(s: NesView, p: u16, addr: u16, v: u8) -> NesView {
    NesView { pc: p, mem: s.mem.update(addr as int, v), ..s }
}

/// The destination of a taken relative branch: the signed offset byte is
/// added to the address after the two-byte instruction, wrapping at the
/// 64 KiB boundary.
pub open spec fn branch_dest(pc: u16, offset: u8) -> u16 {
    let base = pc.wrapping_add(2);
    if offset >= 0x80 {
        base.wrapping_add(offset as u16).wrapping_sub(0x100)
    } else {
        base.wrapping_add(offset as u16)
    }
}

/// A conditional relative branch: the offset byte is always consumed; when
/// taken the program counter lands on the signed-offset destination (minus
/// one to pre-compensate the trailing increment), when not taken it moves
/// past the operand.
pub open spec fn branch_spec(s: NesView, cond: bool) -> NesView {
    if cond {
        NesView { pc: branch_dest(s.pc, at(s.mem, s.pc.wrapping_add(1))).wrapping_sub(1), ..s }
    } else {
        NesView { pc: s.pc.wrapping_add(1), ..s }
    }
}

/// Push one byte onto the stack page.
pub open spec fn pushed(s: NesView, v: u8) -> NesView {
    NesView {
        mem: s.mem.update(0x100 + s.sp as int, v),
        sp: s.sp.wrapping_sub(1),
        ..s
    }
}

/// The stack pointer and byte exposed by one pull.
pub open spec fn pull_sp(s: NesView) -> u8 {
    s.sp.wrapping_add(1)
}

/// The byte a pull reads.
pub open spec fn pulled_byte(s: NesView) -> u8 {
    s.mem[0x100 + pull_sp(s) as int]
}

/// Jump to subroutine: the address of the last byte of the three-byte
/// instruction is pushed high byte first, and the program counter lands on
/// the target minus one to pre-compensate the trailing increment.
pub open spec fn jsr_spec(s: NesView) -> NesView {
    let r = abs_mode(s);
    let ret = r.0;
    let hi = (ret >> 8u16) as u8;
    let lo = (ret & 0xFF) as u8;
    let s1 = pushed(NesView { pc: ret, ..s }, hi);
    let s2 = pushed(s1, lo);
    NesView { pc: r.1.wrapping_sub(1), ..s2 }
}

/// Return from subroutine: pull the return address low byte first; the
/// trailing increment then moves past the jump's last byte.
pub open spec fn rts_spec(s: NesView) -> NesView {
    let sp1 = s.sp.wrapping_add(1);
    let lo = s.mem[0x100 + sp1 as int];
    let sp2 = sp1.wrapping_add(1);
    let hi = s.mem[0x100 + sp2 as int];
    NesView { sp: sp2, pc: ((hi as u16) << 8u16) | (lo as u16), ..s }
}

/// Return from interrupt: pull the status register, then the program
/// counter, minus one to pre-compensate the trailing increment.
pub open spec fn rti_spec(s: NesView) -> NesView {
    let sp1 = s.sp.wrapping_add(1);
    let st = s.mem[0x100 + sp1 as int];
    let sp2 = sp1.wrapping_add(1);
    let lo = s.mem[0x100 + sp2 as int];
    let sp3 = sp2.wrapping_add(1);
    let hi = s.mem[0x100 + sp3 as int];
    NesView {
        sp: sp3,
        status: st,
        pc: (((hi as u16) << 8u16) | (lo as u16)).wrapping_sub(1),
        ..s
    }
}

/// The transition function of the CPU core: the state after dispatching one
/// opcode byte `op` from state `s`, including the unconditional trailing
/// program-counter increment. `None` means the opcode is not in the table.
pub open spec fn nes_step(s: NesView, op: u8) -> Option<NesView> {
    match op {
        // ADC
        0x69 => { let r = imm_mode(s); Some(bumped(adc_a(s, r.0, r.1))) },
        0x65 => { let r = zp_mode(s); Some(bumped(adc_a(s, r.0, at(s.mem, r.1 as u16)))) },
        0x75 => { let r = zpx_mode(s); Some(bumped(adc_a(s, r.0, at(s.mem, r.1 as u16)))) },
        0x6D => { let r = abs_mode(s); Some(bumped(adc_a(s, r.0, at(s.mem, r.1)))) },
        0x7D => { let r = absx_mode(s); Some(bumped(adc_a(s, r.0, at(s.mem, r.1)))) },
        0x79 => { let r = absy_mode(s); Some(bumped(adc_a(s, r.0, at(s.mem, r.1)))) },
        0x61 => { let r = indx_mode(s); Some(bumped(adc_a(s, r.0, at(s.mem, r.1)))) },
        0x71 => { let r = indy_mode(s); Some(bumped(adc_a(s, r.0, at(s.mem, r.1)))) },
        // AND
        0x29 => { let r = imm_mode(s); Some(bumped(and_a(s, r.0, r.1))) },
        0x25 => { let r = zp_mode(s); Some(bumped(and_a(s, r.0, at(s.mem, r.1 as u16)))) },
        0x35 => { let r = zpx_mode(s); Some(bumped(and_a(s, r.0, at(s.mem, r.1 as u16)))) },
        0x2D => { let r = abs_mode(s); Some(bumped(and_a(s, r.0, at(s.mem, r.1)))) },
        0x3D => { let r = absx_mode(s); Some(bumped(and_a(s, r.0, at(s.mem, r.1)))) },
        0x39 => { let r = absy_mode(s); Some(bumped(and_a(s, r.0, at(s.mem, r.1)))) },
        0x21 => { let r = indx_mode(s); Some(bumped(and_a(s, r.0, at(s.mem, r.1)))) },
        0x31 => { let r = indy_mode(s); Some(bumped(and_a(s, r.0, at(s.mem, r.1)))) },
        // ASL
        0x0A => Some(bumped(asl_acc_spec(s))),
        0x06 => { let r = zp_mode(s); Some(bumped(asl_at_spec(s, r.0, r.1 as u16))) },
        0x16 => { let r = zpx_mode(s); Some(bumped(asl_at_spec(s, r.0, r.1 as u16))) },
        0x0E => { let r = abs_mode(s); Some(bumped(asl_at_spec(s, r.0, r.1))) },
        0x1E => { let r = absx_mode(s); Some(bumped(asl_at_spec(s, r.0, r.1))) },
        // Branches
        0x90 => Some(bumped(branch_spec(s, s.status & 0x01 == 0x00))),
        0xB0 => Some(bumped(branch_spec(s, s.status & 0x01 == 0x01))),
        0xF0 => Some(bumped(branch_spec(s, s.status & 0x02 == 0x02))),
        0x30 => Some(bumped(branch_spec(s, s.status & 0x80 == 0x80))),
        0xD0 => Some(bumped(branch_spec(s, s.status & 0x02 == 0x00))),
        0x10 => Some(bumped(branch_spec(s, s.status & 0x80 == 0x00))),
        0x50 => Some(bumped(branch_spec(s, s.status & 0x40 == 0x00))),
        0x70 => Some(bumped(branch_spec(s, s.status & 0x40 == 0x40))),
        // BRK: an explicit non-goal stub, a recognized no-op.
        0x00 => Some(bumped(s)),
        // BIT
        0x24 => { let r = zp_mode(s); Some(bumped(bit_test(s, r.0, at(s.mem, r.1 as u16)))) },
        0x2C => { let r = abs_mode(s); Some(bumped(bit_test(s, r.0, at(s.mem, r.1)))) },
        // Flag clears
        0x18 => Some(bumped(NesView { status: s.status & 0xFE, ..s })),
        0xD8 => Some(bumped(NesView { status: s.status & 0xF7, ..s })),
        0x58 => Some(bumped(NesView { status: s.status & 0xFB, ..s })),
        0xB8 => Some(bumped(NesView { status: s.status & 0xBF, ..s })),
        // CMP
        0xC9 => { let r = imm_mode(s); Some(bumped(cmp_flags(s, r.0, s.a, r.1))) },
        0xC5 => { let r = zp_mode(s); Some(bumped(cmp_flags(s, r.0, s.a, at(s.mem, r.1 as u16)))) },
        0xD5 => { let r = zpx_mode(s); Some(bumped(cmp_flags(s, r.0, s.a, at(s.mem, r.1 as u16)))) },
        0xCD => { let r = abs_mode(s); Some(bumped(cmp_flags(s, r.0, s.a, at(s.mem, r.1)))) },
        0xDD => { let r = absx_mode(s); Some(bumped(cmp_flags(s, r.0, s.a, at(s.mem, r.1)))) },
        0xD9 => { let r = absy_mode(s); Some(bumped(cmp_flags(s, r.0, s.a, at(s.mem, r.1)))) },
        0xC1 => { let r = indx_mode(s); Some(bumped(cmp_flags(s, r.0, s.a, at(s.mem, r.1)))) },
        0xD1 => { let r = indy_mode(s); Some(bumped(cmp_flags(s, r.0, s.a, at(s.mem, r.1)))) },
        // CPX
        0xE0 => { let r = imm_mode(s); Some(bumped(cmp_flags(s, r.0, s.x, r.1))) },
        0xE4 => { let r = zp_mode(s); Some(bumped(cmp_flags(s, r.0, s.x, at(s.mem, r.1 as u16)))) },
        0xEC => { let r = abs_mode(s); Some(bumped(cmp_flags(s, r.0, s.x, at(s.mem, r.1)))) },
        // CPY
        0xC0 => { let r = imm_mode(s); Some(bumped(cmp_flags(s, r.0, s.y, r.1))) },
        0xC4 => { let r = zp_mode(s); Some(bumped(cmp_flags(s, r.0, s.y, at(s.mem, r.1 as u16)))) },
        0xCC => { let r = abs_mode(s); Some(bumped(cmp_flags(s, r.0, s.y, at(s.mem, r.1)))) },
        // DEC
        0xC6 => { let r = zp_mode(s); Some(bumped(dec_at_spec(s, r.0, r.1 as u16))) },
        0xD6 => { let r = zpx_mode(s); Some(bumped(dec_at_spec(s, r.0, r.1 as u16))) },
        0xCE => { let r = abs_mode(s); Some(bumped(dec_at_spec(s, r.0, r.1))) },
        0xDE => { let r = absx_mode(s); Some(bumped(dec_at_spec(s, r.0, r.1))) },
        // DEX / DEY
        0xCA => {
            let v = s.x.wrapping_sub(1);
            Some(bumped(NesView { x: v, status: zn_flagged(s.status, v), ..s }))
        },
        0x88 => {
            let v = s.y.wrapping_sub(1);
            Some(bumped(NesView { y: v, status: zn_flagged(s.status, v), ..s }))
        },
        // INC
        0xE6 => { let r = zp_mode(s); Some(bumped(inc_at_spec(s, r.0, r.1 as u16))) },
        0xF6 => { let r = zpx_mode(s); Some(bumped(inc_at_spec(s, r.0, r.1 as u16))) },
        0xEE => { let r = abs_mode(s); Some(bumped(inc_at_spec(s, r.0, r.1))) },
        0xFE => { let r = absx_mode(s); Some(bumped(inc_at_spec(s, r.0, r.1))) },
        // INX / INY
        0xE8 => {
            let v = s.x.wrapping_add(1);
            Some(bumped(NesView { x: v, status: zn_flagged(s.status, v), ..s }))
        },
        0xC8 => {
            let v = s.y.wrapping_add(1);
            Some(bumped(NesView { y: v, status: zn_flagged(s.status, v), ..s }))
        },
        // JMP
        0x4C => {
            let r = abs_mode(s);
            Some(bumped(NesView { pc: r.1.wrapping_sub(1), ..s }))
        },
        0x6C => {
            let r = ind_mode(s);
            Some(bumped(NesView { pc: r.1.wrapping_sub(1), ..s }))
        },
        // JSR
        0x20 => Some(bumped(jsr_spec(s))),
        // LDA
        0xA9 => { let r = imm_mode(s); Some(bumped(load_a(s, r.0, r.1))) },
        0xA5 => { let r = zp_mode(s); Some(bumped(load_a(s, r.0, at(s.mem, r.1 as u16)))) },
        0xB5 => { let r = zpx_mode(s); Some(bumped(load_a(s, r.0, at(s.mem, r.1 as u16)))) },
        0xAD => { let r = abs_mode(s); Some(bumped(load_a(s, r.0, at(s.mem, r.1)))) },
        0xBD => { let r = absx_mode(s); Some(bumped(load_a(s, r.0, at(s.mem, r.1)))) },
        0xB9 => { let r = absy_mode(s); Some(bumped(load_a(s, r.0, at(s.mem, r.1)))) },
        0xA1 => { let r = indx_mode(s); Some(bumped(load_a(s, r.0, at(s.mem, r.1)))) },
        0xB1 => { let r = indy_mode(s); Some(bumped(load_a(s, r.0, at(s.mem, r.1)))) },
        // LDX
        0xA2 => { let r = imm_mode(s); Some(bumped(load_x(s, r.0, r.1))) },
        0xA6 => { let r = zp_mode(s); Some(bumped(load_x(s, r.0, at(s.mem, r.1 as u16)))) },
        0xB6 => { let r = zpy_mode(s); Some(bumped(load_x(s, r.0, at(s.mem, r.1 as u16)))) },
        0xAE => { let r = abs_mode(s); Some(bumped(load_x(s, r.0, at(s.mem, r.1)))) },
        0xBE => { let r = absy_mode(s); Some(bumped(load_x(s, r.0, at(s.mem, r.1)))) },
        // LDY
        0xA0 => { let r = imm_mode(s); Some(bumped(load_y(s, r.0, r.1))) },
        0xA4 => { let r = zp_mode(s); Some(bumped(load_y(s, r.0, at(s.mem, r.1 as u16)))) },
        0xB4 => { let r = zpx_mode(s); Some(bumped(load_y(s, r.0, at(s.mem, r.1 as u16)))) },
        0xAC => { let r = abs_mode(s); Some(bumped(load_y(s, r.0, at(s.mem, r.1)))) },
        0xBC => { let r = absx_mode(s); Some(bumped(load_y(s, r.0, at(s.mem, r.1)))) },
        // LSR
        0x4A => Some(bumped(lsr_acc_spec(s))),
        0x46 => { let r = zp_mode(s); Some(bumped(lsr_at_spec(s, r.0, r.1 as u16))) },
        0x56 => { let r = zpx_mode(s); Some(bumped(lsr_at_spec(s, r.0, r.1 as u16))) },
        0x4E => { let r = abs_mode(s); Some(bumped(lsr_at_spec(s, r.0, r.1))) },
        0x5E => { let r = absx_mode(s); Some(bumped(lsr_at_spec(s, r.0, r.1))) },
        // NOP
        0xEA => Some(bumped(s)),
        // ORA
        0x09 => { let r = imm_mode(s); Some(bumped(ora_a(s, r.0, r.1))) },
        0x05 => { let r = zp_mode(s); Some(bumped(ora_a(s, r.0, at(s.mem, r.1 as u16)))) },
        0x15 => { let r = zpx_mode(s); Some(bumped(ora_a(s, r.0, at(s.mem, r.1 as u16)))) },
        0x0D => { let r = abs_mode(s); Some(bumped(ora_a(s, r.0, at(s.mem, r.1)))) },
        0x1D => { let r = absx_mode(s); Some(bumped(ora_a(s, r.0, at(s.mem, r.1)))) },
        0x19 => { let r = absy_mode(s); Some(bumped(ora_a(s, r.0, at(s.mem, r.1)))) },
        0x01 => { let r = indx_mode(s); Some(bumped(ora_a(s, r.0, at(s.mem, r.1)))) },
        0x11 => { let r = indy_mode(s); Some(bumped(ora_a(s, r.0, at(s.mem, r.1)))) },
        // PHA / PHP / PLA / PLP
        0x48 => Some(bumped(pushed(s, s.a))),
        0x08 => Some(bumped(pushed(s, s.status))),
        0x68 => {
            let v = pulled_byte(s);
            Some(
                bumped(
                    NesView { sp: pull_sp(s), a: v, status: zn_flagged(s.status, v), ..s },
                ),
            )
        },
        0x28 => Some(bumped(NesView { sp: pull_sp(s), status: pulled_byte(s), ..s })),
        // RTI / RTS
        0x40 => Some(bumped(rti_spec(s))),
        0x60 => Some(bumped(rts_spec(s))),
        // SBC
        0xE9 => { let r = imm_mode(s); Some(bumped(sbc_a(s, r.0, r.1))) },
        0xE5 => { let r = zp_mode(s); Some(bumped(sbc_a(s, r.0, at(s.mem, r.1 as u16)))) },
        0xF5 => { let r = zpx_mode(s); Some(bumped(sbc_a(s, r.0, at(s.mem, r.1 as u16)))) },
        0xED => { let r = abs_mode(s); Some(bumped(sbc_a(s, r.0, at(s.mem, r.1)))) },
        0xF9 => { let r = absy_mode(s); Some(bumped(sbc_a(s, r.0, at(s.mem, r.1)))) },
        0xE1 => { let r = indx_mode(s); Some(bumped(sbc_a(s, r.0, at(s.mem, r.1)))) },
        0xF1 => { let r = indy_mode(s); Some(bumped(sbc_a(s, r.0, at(s.mem, r.1)))) },
        // Flag sets
        0x38 => Some(bumped(NesView { status: s.status | 0x01, ..s })),
        0xF8 => Some(bumped(NesView { status: s.status | 0x08, ..s })),
        0x78 => Some(bumped(NesView { status: s.status | 0x04, ..s })),
        // STA
        0x85 => { let r = zp_mode(s); Some(bumped(store_at(s, r.0, r.1 as u16, s.a))) },
        0x95 => { let r = zpx_mode(s); Some(bumped(store_at(s, r.0, r.1 as u16, s.a))) },
        0x8D => { let r = abs_mode(s); Some(bumped(store_at(s, r.0, r.1, s.a))) },
        0x9D => { let r = absx_mode(s); Some(bumped(store_at(s, r.0, r.1, s.a))) },
        0x99 => { let r = absy_mode(s); Some(bumped(store_at(s, r.0, r.1, s.a))) },
        0x81 => { let r = indx_mode(s); Some(bumped(store_at(s, r.0, r.1, s.a))) },
        0x91 => { let r = indy_mode(s); Some(bumped(store_at(s, r.0, r.1, s.a))) },
        // STX
        0x86 => { let r = zp_mode(s); Some(bumped(store_at(s, r.0, r.1 as u16, s.x))) },
        0x96 => { let r = zpy_mode(s); Some(bumped(store_at(s, r.0, r.1 as u16, s.x))) },
        0x8E => { let r = abs_mode(s); Some(bumped(store_at(s, r.0, r.1, s.x))) },
        // STY
        0x84 => { let r = zp_mode(s); Some(bumped(store_at(s, r.0, r.1 as u16, s.y))) },
        0x94 => { let r = zpx_mode(s); Some(bumped(store_at(s, r.0, r.1 as u16, s.y))) },
        0x8C => { let r = abs_mode(s); Some(bumped(store_at(s, r.0, r.1, s.y))) },
        // Transfers
        0xAA => Some(bumped(NesView { x: s.a, status: zn_flagged(s.status, s.a), ..s })),
        0xA8 => Some(bumped(NesView { y: s.a, status: zn_flagged(s.status, s.a), ..s })),
        0xBA => Some(bumped(NesView { x: s.sp, status: zn_flagged(s.status, s.sp), ..s })),
        0x8A => Some(bumped(NesView { a: s.x, status: zn_flagged(s.status, s.x), ..s })),
        0x9A => Some(bumped(NesView { sp: s.x, ..s })),
        0x98 => Some(bumped(NesView { a: s.y, status: zn_flagged(s.status, s.y), ..s })),
        _ => None,
    }
}

/// One whole cycle: dispatch the opcode byte at the program counter.
pub open spec fn nes_cycle(s: NesView) -> Option<NesView> {
    nes_step(s, at(s.mem, s.pc))
}

/// The assembled CPU core: register file and flat memory.
pub struct Nes {
    pub cpu: cpu::Cpu,
    pub memory: memory::Memory,
}

impl View for Nes {
    type V = NesView;

    open spec fn view(&self) -> NesView {
        NesView {
            a: self.cpu.accumulator,
            x: self.cpu.x,
            y: self.cpu.y,
            status: self.cpu.status,
            sp: self.cpu.stack_pointer,
            pc: self.cpu.program_counter,
            mem: self.memory.primary_memory@,
        }
    }
}

impl Nes {
    pub open spec fn wf(&self) -> bool {
        self@.wf()
    }

    /// Power-on machine: reset register file over zeroed memory.
    pub fn new() -> (n: Nes)
        ensures
            n.wf(),
            n@.pc == 0xFFFCu16,
            n@.sp == 0xFFu8,
            n@.a == 0u8,
            n@.x == 0u8,
            n@.y == 0u8,
            n@.status == 0u8,
            forall|a: int| 0 <= a < 65536 ==> n@.mem[a] == 0u8,
    {
        Nes { cpu: cpu::Cpu::new(), memory: memory::Memory::new() }
    }

    // Addressing-mode helpers: each consumes its operand bytes by advancing
    // the program counter and returns the operand value (immediate) or the
    // effective address (all others).
    fn immediate(&mut self) -> (v: u8)
        requires
            old(self).wf(),
        ensures
            final(self).wf(),
            final(self)@ == (NesView { pc: imm_mode(old(self)@).0, ..old(self)@ }),
            v == imm_mode(old(self)@).1,
    {
        self.cpu.program_counter = self.cpu.program_counter.wrapping_add(1);
        self.memory.read(self.cpu.program_counter)
    }

    fn zero_page(&mut self) -> (addr: u8)
        requires
            old(self).wf(),
        ensures
            final(self).wf(),
            final(self)@ == (NesView { pc: zp_mode(old(self)@).0, ..old(self)@ }),
            addr == zp_mode(old(self)@).1,
    {
        self.cpu.program_counter = self.cpu.program_counter.wrapping_add(1);
        self.memory.read(self.cpu.program_counter)
    }

    fn zero_page_x(&mut self) -> (addr: u8)
        requires
            old(self).wf(),
        ensures
            final(self).wf(),
            final(self)@ == (NesView { pc: zpx_mode(old(self)@).0, ..old(self)@ }),
            addr == zpx_mode(old(self)@).1,
    {
        self.cpu.program_counter = self.cpu.program_counter.wrapping_add(1);
        self.memory.read(self.cpu.program_counter).wrapping_add(self.cpu.x)
    }

    fn zero_page_y(&mut self) -> (addr: u8)
        requires
            old(self).wf(),
        ensures
            final(self).wf(),
            final(self)@ == (NesView { pc: zpy_mode(old(self)@).0, ..old(self)@ }),
            addr == zpy_mode(old(self)@).1,
    {
        self.cpu.program_counter = self.cpu.program_counter.wrapping_add(1);
        self.memory.read(self.cpu.program_counter).wrapping_add(self.cpu.y)
    }

    fn absolute(&mut self) -> (addr: u16)
        requires
            old(self).wf(),
        ensures
            final(self).wf(),
            final(self)@ == (NesView { pc: abs_mode(old(self)@).0, ..old(self)@ }),
            addr == abs_mode(old(self)@).1,
    {
        self.cpu.program_counter = self.cpu.program_counter.wrapping_add(1);
        let lo: u8 = self.memory.read(self.cpu.program_counter);
        self.cpu.program_counter = self.cpu.program_counter.wrapping_add(1);
        let hi: u8 = self.memory.read(self.cpu.program_counter);
        ((hi as u16) << 8u16) | (lo as u16)
    }

    fn absolute_x(&mut self) -> (addr: u16)
        requires
            old(self).wf(),
        ensures
            final(self).wf(),
            final(self)@ == (NesView { pc: absx_mode(old(self)@).0, ..old(self)@ }),
            addr == absx_mode(old(self)@).1,
    {
        let base: u16 = self.absolute();
        base.wrapping_add(self.cpu.x as u16)
    }

    fn absolute_y(&mut self) -> (addr: u16)
        requires
            old(self).wf(),
        ensures
            final(self).wf(),
            final(self)@ == (NesView { pc: absy_mode(old(self)@).0, ..old(self)@ }),
            addr == absy_mode(old(self)@).1,
    {
        let base: u16 = self.absolute();
        base.wrapping_add(self.cpu.y as u16)
    }

    fn indirect(&mut self) -> (addr: u16)
        requires
            old(self).wf(),
        ensures
            final(self).wf(),
            final(self)@ == (NesView { pc: ind_mode(old(self)@).0, ..old(self)@ }),
            addr == ind_mode(old(self)@).1,
    {
        let ptr: u16 = self.absolute();
        let lo: u8 = self.memory.read(ptr);
        let hi: u8 = self.memory.read(ptr.wrapping_add(1));
        ((hi as u16) << 8u16) | (lo as u16)
    }

    fn indexed_indirect(&mut self) -> (addr: u16)
        requires
            old(self).wf(),
        ensures
            final(self).wf(),
            final(self)@ == (NesView { pc: indx_mode(old(self)@).0, ..old(self)@ }),
            addr == indx_mode(old(self)@).1,
    {
        self.cpu.program_counter = self.cpu.program_counter.wrapping_add(1);
        let zp: u8 = self.memory.read(self.cpu.program_counter).wrapping_add(self.cpu.x);
        let lo: u8 = self.memory.primary_memory[zp as usize];
        let hi: u8 = self.memory.primary_memory[zp as usize + 1];
        ((hi as u16) << 8u16) | (lo as u16)
    }

    fn indirect_indexed(&mut self) -> (addr: u16)
        requires
            old(self).wf(),
        ensures
            final(self).wf(),
            final(self)@ == (NesView { pc: indy_mode(old(self)@).0, ..old(self)@ }),
            addr == indy_mode(old(self)@).1,
    {
        self.cpu.program_counter = self.cpu.program_counter.wrapping_add(1);
        let zp: u8 = self.memory.read(self.cpu.program_counter);
        let lo: u8 = self.memory.primary_memory[zp as usize];
        let hi: u8 = self.memory.primary_memory[zp as usize + 1];
        (((hi as u16) << 8u16) | (lo as u16)).wrapping_add(self.cpu.y as u16)
    }

    // Flag helpers: each only ever sets its bit (the sticky-flag convention).
    fn set_carry_flag(&mut self, arg: u8)
        ensures
            final(self)@ == (NesView {
                status: carry_lsb_flagged(old(self)@.status, arg),
                ..old(self)@
            }),
    {
        if arg & 0x01 == 0x01 {
            self.cpu.status = self.cpu.status | 0b0000_0001;
        }
    }

    fn set_zero_flag(&mut self, arg: u8)
        ensures
            final(self)@ == (NesView {
                status: zero_flagged(old(self)@.status, arg),
                ..old(self)@
            }),
    {
        if arg == 0 {
            self.cpu.status = self.cpu.status | 0b0000_0010;
        }
    }

    fn set_negative_flag(&mut self, arg: u8)
        ensures
            final(self)@ == (NesView {
                status: negative_flagged(old(self)@.status, arg),
                ..old(self)@
            }),
    {
        if arg & 0b1000_0000 == 0b1000_0000 {
            self.cpu.status = self.cpu.status | 0b1000_0000;
        }
    }

    // Instruction bodies shared by the addressing-mode variants of one
    // mnemonic.
    fn lda_set(&mut self, v: u8)
        ensures
            final(self)@ == (NesView {
                a: v,
                status: zn_flagged(old(self)@.status, v),
                ..old(self)@
            }),
    {
        self.cpu.accumulator = v;
        self.set_zero_flag(v);
        self.set_negative_flag(v);
    }

    fn ldx_set(&mut self, v: u8)
        ensures
            final(self)@ == (NesView {
                x: v,
                status: zn_flagged(old(self)@.status, v),
                ..old(self)@
            }),
    {
        self.cpu.x = v;
        self.set_zero_flag(v);
        self.set_negative_flag(v);
    }

    fn ldy_set(&mut self, v: u8)
        ensures
            final(self)@ == (NesView {
                y: v,
                status: zn_flagged(old(self)@.status, v),
                ..old(self)@
            }),
    {
        self.cpu.y = v;
        self.set_zero_flag(v);
        self.set_negative_flag(v);
    }

    fn and_acc(&mut self, v: u8)
        ensures
            final(self)@ == (NesView {
                a: old(self)@.a & v,
                status: zn_flagged(old(self)@.status, old(self)@.a & v),
                ..old(self)@
            }),
    {
        self.cpu.accumulator = self.cpu.accumulator & v;
        self.set_zero_flag(self.cpu.accumulator);
        self.set_negative_flag(self.cpu.accumulator);
    }

    fn ora_acc(&mut self, v: u8)
        ensures
            final(self)@ == (NesView {
                a: old(self)@.a | v,
                status: zn_flagged(old(self)@.status, old(self)@.a | v),
                ..old(self)@
            }),
    {
        self.cpu.accumulator = self.cpu.accumulator | v;
        self.set_zero_flag(self.cpu.accumulator);
        self.set_negative_flag(self.cpu.accumulator);
    }

    fn adc_acc(&mut self, v: u8)
        ensures
            final(self)@ == (NesView {
                a: adc_a(old(self)@, old(self)@.pc, v).a,
                status: adc_a(old(self)@, old(self)@.pc, v).status,
                ..old(self)@
            }),
    {
        let c: u8 = if self.cpu.status & 0x01 == 0x01 {
            1
        } else {
            0
        };
        let sum: u16 = self.cpu.accumulator as u16 + v as u16 + c as u16;
        if sum > 0xFF {
            self.cpu.status = self.cpu.status | 0b0000_0001;
        }
        self.cpu.accumulator = (sum % 256) as u8;
        self.set_zero_flag(self.cpu.accumulator);
        self.set_negative_flag(self.cpu.accumulator);
    }

    fn sbc_acc(&mut self, v: u8)
        ensures
            final(self)@ == (NesView {
                a: sbc_a(old(self)@, old(self)@.pc, v).a,
                status: sbc_a(old(self)@, old(self)@.pc, v).status,
                ..old(self)@
            }),
    {
        let borrow: u8 = if self.cpu.status & 0x01 == 0x01 {
            0
        } else {
            1
        };
        let rhs: u8 = v.wrapping_sub(borrow);
        self.cpu.accumulator = self.cpu.accumulator.wrapping_sub(rhs);
        self.set_carry_flag(self.cpu.accumulator);
        self.set_zero_flag(self.cpu.accumulator);
        self.set_negative_flag(self.cpu.accumulator);
    }

    fn compare_with(&mut self, lhs: u8, v: u8)
        ensures
            final(self)@ == (NesView {
                status: cmp_flags(old(self)@, old(self)@.pc, lhs, v).status,
                ..old(self)@
            }),
    {
        let d: u8 = lhs.wrapping_sub(v);
        if lhs >= v {
            self.cpu.status = self.cpu.status | 0b0000_0001;
        }
        self.set_zero_flag(d);
        self.set_negative_flag(d);
    }

    fn bit_check(&mut self, v: u8)
        ensures
            final(self)@ == (NesView {
                status: bit_test(old(self)@, old(self)@.pc, v).status,
                ..old(self)@
            }),
    {
        if self.cpu.accumulator & v == 0 {
            self.cpu.status = self.cpu.status | 0x02;
        }
        self.cpu.status = self.cpu.status | (v & 0xC0);
    }

    fn asl_accumulator(&mut self)
        ensures
            final(self)@ == asl_acc_spec(old(self)@),
    {
        let orig: u8 = self.cpu.accumulator;
        if orig & 0x80 == 0x80 {
            self.cpu.status = self.cpu.status | 0b0000_0001;
        }
        self.cpu.accumulator = orig << 1u8;
        self.set_zero_flag(self.cpu.accumulator);
        self.set_negative_flag(self.cpu.accumulator);
    }

    fn asl_memory(&mut self, addr: u16)
        requires
            old(self).wf(),
        ensures
            final(self).wf(),
            final(self)@ == asl_at_spec(old(self)@, old(self)@.pc, addr),
    {
        let orig: u8 = self.memory.read(addr);
        if orig & 0x80 == 0x80 {
            self.cpu.status = self.cpu.status | 0b0000_0001;
        }
        let r: u8 = orig << 1u8;
        self.memory.write(addr, r);
        self.set_zero_flag(r);
        self.set_negative_flag(r);
    }

    fn lsr_accumulator(&mut self)
        ensures
            final(self)@ == lsr_acc_spec(old(self)@),
    {
        let orig: u8 = self.cpu.accumulator;
        self.set_carry_flag(orig);
        self.cpu.accumulator = orig >> 1u8;
        self.set_zero_flag(self.cpu.accumulator);
        self.set_negative_flag(self.cpu.accumulator);
    }

    fn lsr_memory(&mut self, addr: u16)
        requires
            old(self).wf(),
        ensures
            final(self).wf(),
            final(self)@ == lsr_at_spec(old(self)@, old(self)@.pc, addr),
    {
        let orig: u8 = self.memory.read(addr);
        self.set_carry_flag(orig);
        let r: u8 = orig >> 1u8;
        self.memory.write(addr, r);
        self.set_zero_flag(r);
        self.set_negative_flag(r);
    }

    fn inc_memory(&mut self, addr: u16)
        requires
            old(self).wf(),
        ensures
            final(self).wf(),
            final(self)@ == inc_at_spec(old(self)@, old(self)@.pc, addr),
    {
        let r: u8 = self.memory.read(addr).wrapping_add(1);
        self.memory.write(addr, r);
        self.set_zero_flag(r);
        self.set_negative_flag(r);
    }

    fn dec_memory(&mut self, addr: u16)
        requires
            old(self).wf(),
        ensures
            final(self).wf(),
            final(self)@ == dec_at_spec(old(self)@, old(self)@.pc, addr),
    {
        let r: u8 = self.memory.read(addr).wrapping_sub(1);
        self.memory.write(addr, r);
        self.set_zero_flag(r);
        self.set_negative_flag(r);
    }

    fn push_byte(&mut self, v: u8)
        requires
            old(self).wf(),
        ensures
            final(self).wf(),
            final(self)@ == pushed(old(self)@, v),
    {
        self.memory.write(0x100u16 + self.cpu.stack_pointer as u16, v);
        self.cpu.stack_pointer = self.cpu.stack_pointer.wrapping_sub(1);
    }

    fn pull_byte(&mut self) -> (v: u8)
        requires
            old(self).wf(),
        ensures
            final(self).wf(),
            final(self)@ == (NesView { sp: pull_sp(old(self)@), ..old(self)@ }),
            v == pulled_byte(old(self)@),
    {
        self.cpu.stack_pointer = self.cpu.stack_pointer.wrapping_add(1);
        self.memory.read(0x100u16 + self.cpu.stack_pointer as u16)
    }

    fn branch_if(&mut self, cond: bool)
        requires
            old(self).wf(),
        ensures
            final(self).wf(),
            final(self)@ == branch_spec(old(self)@, cond),
    {
        let pc0: u16 = self.cpu.program_counter;
        if cond {
            let offset: u8 = self.memory.read(pc0.wrapping_add(1));
            let base: u16 = pc0.wrapping_add(2);
            let dest: u16 = if offset >= 0x80 {
                base.wrapping_add(offset as u16).wrapping_sub(0x100)
            } else {
                base.wrapping_add(offset as u16)
            };
            self.cpu.program_counter = dest.wrapping_sub(1);
        } else {
            self.cpu.program_counter = pc0.wrapping_add(1);
        }
    }

    /// Dispatch one already-fetched opcode byte: run its addressing mode and
    /// semantics, then the unconditional trailing program-counter increment.
    /// The whole effect is that of the transition function `nes_step`; an
    /// opcode outside the table leaves the machine untouched and is reported
    /// as an error carrying the opcode and the program counter at fault.
    #[verifier::rlimit(100)]
    pub fn execute(&mut self, instruction: u8) -> (r: Result<(), EmuError>)
        requires
            old(self).wf(),
        ensures
            final(self).wf(),
            (r is Ok) == (nes_step(old(self)@, instruction) is Some),
            r is Ok ==> Some(final(self)@) == nes_step(old(self)@, instruction),
            r is Err ==> final(self)@ == old(self)@ && r == Err::<(), EmuError>(
                EmuError::UnrecognizedInstruction {
                    opcode: instruction as u16,
                    pc: old(self)@.pc,
                },
            ),
    {
        match instruction {
            // ADC
            0x69 => {
                let v = self.immediate();
                self.adc_acc(v);
            },
            0x65 => {
                let a8 = self.zero_page();
                let v = self.memory.read(a8 as u16);
                self.adc_acc(v);
            },
            0x75 => {
                let a8 = self.zero_page_x();
                let v = self.memory.read(a8 as u16);
                self.adc_acc(v);
            },
            0x6D => {
                let a = self.absolute();
                let v = self.memory.read(a);
                self.adc_acc(v);
            },
            0x7D => {
                let a = self.absolute_x();
                let v = self.memory.read(a);
                self.adc_acc(v);
            },
            0x79 => {
                let a = self.absolute_y();
                let v = self.memory.read(a);
                self.adc_acc(v);
            },
            0x61 => {
                let a = self.indexed_indirect();
                let v = self.memory.read(a);
                self.adc_acc(v);
            },
            0x71 => {
                let a = self.indirect_indexed();
                let v = self.memory.read(a);
                self.adc_acc(v);
            },
            // AND
            0x29 => {
                let v = self.immediate();
                self.and_acc(v);
            },
            0x25 => {
                let a8 = self.zero_page();
                let v = self.memory.read(a8 as u16);
                self.and_acc(v);
            },
            0x35 => {
                let a8 = self.zero_page_x();
                let v = self.memory.read(a8 as u16);
                self.and_acc(v);
            },
            0x2D => {
                let a = self.absolute();
                let v = self.memory.read(a);
                self.and_acc(v);
            },
            0x3D => {
                let a = self.absolute_x();
                let v = self.memory.read(a);
                self.and_acc(v);
            },
            0x39 => {
                let a = self.absolute_y();
                let v = self.memory.read(a);
                self.and_acc(v);
            },
            0x21 => {
                let a = self.indexed_indirect();
                let v = self.memory.read(a);
                self.and_acc(v);
            },
            0x31 => {
                let a = self.indirect_indexed();
                let v = self.memory.read(a);
                self.and_acc(v);
            },
            // ASL
            0x0A => {
                self.asl_accumulator();
            },
            0x06 => {
                let a8 = self.zero_page();
                self.asl_memory(a8 as u16);
            },
            0x16 => {
                let a8 = self.zero_page_x();
                self.asl_memory(a8 as u16);
            },
            0x0E => {
                let a = self.absolute();
                self.asl_memory(a);
            },
            0x1E => {
                let a = self.absolute_x();
                self.asl_memory(a);
            },
            // Branches
            0x90 => {
                let cond: bool = self.cpu.status & 0b0000_0001 == 0b0000_0000;
                self.branch_if(cond);
            },
            0xB0 => {
                let cond: bool = self.cpu.status & 0b0000_0001 == 0b0000_0001;
                self.branch_if(cond);
            },
            0xF0 => {
                let cond: bool = self.cpu.status & 0b0000_0010 == 0b0000_0010;
                self.branch_if(cond);
            },
            0x30 => {
                let cond: bool = self.cpu.status & 0b1000_0000 == 0b1000_0000;
                self.branch_if(cond);
            },
            0xD0 => {
                let cond: bool = self.cpu.status & 0b0000_0010 == 0b0000_0000;
                self.branch_if(cond);
            },
            0x10 => {
                let cond: bool = self.cpu.status & 0b1000_0000 == 0b0000_0000;
                self.branch_if(cond);
            },
            0x50 => {
                let cond: bool = self.cpu.status & 0b0100_0000 == 0b0000_0000;
                self.branch_if(cond);
            },
            0x70 => {
                let cond: bool = self.cpu.status & 0b0100_0000 == 0b0100_0000;
                self.branch_if(cond);
            },
            // BRK: explicit non-goal stub.
            0x00 => {},
            // BIT
            0x24 => {
                let a8 = self.zero_page();
                let v = self.memory.read(a8 as u16);
                self.bit_check(v);
            },
            0x2C => {
                let a = self.absolute();
                let v = self.memory.read(a);
                self.bit_check(v);
            },
            // Flag clears
            0x18 => {
                self.cpu.status = self.cpu.status & 0b1111_1110;
            },
            0xD8 => {
                self.cpu.status = self.cpu.status & 0b1111_0111;
            },
            0x58 => {
                self.cpu.status = self.cpu.status & 0b1111_1011;
            },
            0xB8 => {
                self.cpu.status = self.cpu.status & 0b1011_1111;
            },
            // CMP
            0xC9 => {
                let v = self.immediate();
                let lhs = self.cpu.accumulator;
                self.compare_with(lhs, v);
            },
            0xC5 => {
                let a8 = self.zero_page();
                let v = self.memory.read(a8 as u16);
                let lhs = self.cpu.accumulator;
                self.compare_with(lhs, v);
            },
            0xD5 => {
                let a8 = self.zero_page_x();
                let v = self.memory.read(a8 as u16);
                let lhs = self.cpu.accumulator;
                self.compare_with(lhs, v);
            },
            0xCD => {
                let a = self.absolute();
                let v = self.memory.read(a);
                let lhs = self.cpu.accumulator;
                self.compare_with(lhs, v);
            },
            0xDD => {
                let a = self.absolute_x();
                let v = self.memory.read(a);
                let lhs = self.cpu.accumulator;
                self.compare_with(lhs, v);
            },
            0xD9 => {
                let a = self.absolute_y();
                let v = self.memory.read(a);
                let lhs = self.cpu.accumulator;
                self.compare_with(lhs, v);
            },
            0xC1 => {
                let a = self.indexed_indirect();
                let v = self.memory.read(a);
                let lhs = self.cpu.accumulator;
                self.compare_with(lhs, v);
            },
            0xD1 => {
                let a = self.indirect_indexed();
                let v = self.memory.read(a);
                let lhs = self.cpu.accumulator;
                self.compare_with(lhs, v);
            },
            // CPX
            0xE0 => {
                let v = self.immediate();
                let lhs = self.cpu.x;
                self.compare_with(lhs, v);
            },
            0xE4 => {
                let a8 = self.zero_page();
                let v = self.memory.read(a8 as u16);
                let lhs = self.cpu.x;
                self.compare_with(lhs, v);
            },
            0xEC => {
                let a = self.absolute();
                let v = self.memory.read(a);
                let lhs = self.cpu.x;
                self.compare_with(lhs, v);
            },
            // CPY
            0xC0 => {
                let v = self.immediate();
                let lhs = self.cpu.y;
                self.compare_with(lhs, v);
            },
            0xC4 => {
                let a8 = self.zero_page();
                let v = self.memory.read(a8 as u16);
                let lhs = self.cpu.y;
                self.compare_with(lhs, v);
            },
            0xCC => {
                let a = self.absolute();
                let v = self.memory.read(a);
                let lhs = self.cpu.y;
                self.compare_with(lhs, v);
            },
            // DEC
            0xC6 => {
                let a8 = self.zero_page();
                self.dec_memory(a8 as u16);
            },
            0xD6 => {
                let a8 = self.zero_page_x();
                self.dec_memory(a8 as u16);
            },
            0xCE => {
                let a = self.absolute();
                self.dec_memory(a);
            },
            0xDE => {
                let a = self.absolute_x();
                self.dec_memory(a);
            },
            // DEX / DEY
            0xCA => {
                let v = self.cpu.x.wrapping_sub(1);
                self.ldx_set(v);
            },
            0x88 => {
                let v = self.cpu.y.wrapping_sub(1);
                self.ldy_set(v);
            },
            // INC
            0xE6 => {
                let a8 = self.zero_page();
                self.inc_memory(a8 as u16);
            },
            0xF6 => {
                let a8 = self.zero_page_x();
                self.inc_memory(a8 as u16);
            },
            0xEE => {
                let a = self.absolute();
                self.inc_memory(a);
            },
            0xFE => {
                let a = self.absolute_x();
                self.inc_memory(a);
            },
            // INX / INY
            0xE8 => {
                let v = self.cpu.x.wrapping_add(1);
                self.ldx_set(v);
            },
            0xC8 => {
                let v = self.cpu.y.wrapping_add(1);
                self.ldy_set(v);
            },
            // JMP
            0x4C => {
                let t = self.absolute();
                self.cpu.program_counter = t.wrapping_sub(1);
            },
            0x6C => {
                let t = self.indirect();
                self.cpu.program_counter = t.wrapping_sub(1);
            },
            // JSR
            0x20 => {
                let t = self.absolute();
                let ret: u16 = self.cpu.program_counter;
                self.push_byte((ret >> 8u16) as u8);
                self.push_byte((ret & 0xFF) as u8);
                self.cpu.program_counter = t.wrapping_sub(1);
            },
            // LDA
            0xA9 => {
                let v = self.immediate();
                self.lda_set(v);
            },
            0xA5 => {
                let a8 = self.zero_page();
                let v = self.memory.read(a8 as u16);
                self.lda_set(v);
            },
            0xB5 => {
                let a8 = self.zero_page_x();
                let v = self.memory.read(a8 as u16);
                self.lda_set(v);
            },
            0xAD => {
                let a = self.absolute();
                let v = self.memory.read(a);
                self.lda_set(v);
            },
            0xBD => {
                let a = self.absolute_x();
                let v = self.memory.read(a);
                self.lda_set(v);
            },
            0xB9 => {
                let a = self.absolute_y();
                let v = self.memory.read(a);
                self.lda_set(v);
            },
            0xA1 => {
                let a = self.indexed_indirect();
                let v = self.memory.read(a);
                self.lda_set(v);
            },
            0xB1 => {
                let a = self.indirect_indexed();
                let v = self.memory.read(a);
                self.lda_set(v);
            },
            // LDX
            0xA2 => {
                let v = self.immediate();
                self.ldx_set(v);
            },
            0xA6 => {
                let a8 = self.zero_page();
                let v = self.memory.read(a8 as u16);
                self.ldx_set(v);
            },
            0xB6 => {
                let a8 = self.zero_page_y();
                let v = self.memory.read(a8 as u16);
                self.ldx_set(v);
            },
            0xAE => {
                let a = self.absolute();
                let v = self.memory.read(a);
                self.ldx_set(v);
            },
            0xBE => {
                let a = self.absolute_y();
                let v = self.memory.read(a);
                self.ldx_set(v);
            },
            // LDY
            0xA0 => {
                let v = self.immediate();
                self.ldy_set(v);
            },
            0xA4 => {
                let a8 = self.zero_page();
                let v = self.memory.read(a8 as u16);
                self.ldy_set(v);
            },
            0xB4 => {
                let a8 = self.zero_page_x();
                let v = self.memory.read(a8 as u16);
                self.ldy_set(v);
            },
            0xAC => {
                let a = self.absolute();
                let v = self.memory.read(a);
                self.ldy_set(v);
            },
            0xBC => {
                let a = self.absolute_x();
                let v = self.memory.read(a);
                self.ldy_set(v);
            },
            // LSR
            0x4A => {
                self.lsr_accumulator();
            },
            0x46 => {
                let a8 = self.zero_page();
                self.lsr_memory(a8 as u16);
            },
            0x56 => {
                let a8 = self.zero_page_x();
                self.lsr_memory(a8 as u16);
            },
            0x4E => {
                let a = self.absolute();
                self.lsr_memory(a);
            },
            0x5E => {
                let a = self.absolute_x();
                self.lsr_memory(a);
            },
            // NOP
            0xEA => {},
            // ORA
            0x09 => {
                let v = self.immediate();
                self.ora_acc(v);
            },
            0x05 => {
                let a8 = self.zero_page();
                let v = self.memory.read(a8 as u16);
                self.ora_acc(v);
            },
            0x15 => {
                let a8 = self.zero_page_x();
                let v = self.memory.read(a8 as u16);
                self.ora_acc(v);
            },
            0x0D => {
                let a = self.absolute();
                let v = self.memory.read(a);
                self.ora_acc(v);
            },
            0x1D => {
                let a = self.absolute_x();
                let v = self.memory.read(a);
                self.ora_acc(v);
            },
            0x19 => {
                let a = self.absolute_y();
                let v = self.memory.read(a);
                self.ora_acc(v);
            },
            0x01 => {
                let a = self.indexed_indirect();
                let v = self.memory.read(a);
                self.ora_acc(v);
            },
            0x11 => {
                let a = self.indirect_indexed();
                let v = self.memory.read(a);
                self.ora_acc(v);
            },
            // PHA / PHP / PLA / PLP
            0x48 => {
                let v = self.cpu.accumulator;
                self.push_byte(v);
            },
            0x08 => {
                let v = self.cpu.status;
                self.push_byte(v);
            },
            0x68 => {
                let v = self.pull_byte();
                self.cpu.accumulator = v;
                self.set_zero_flag(v);
                self.set_negative_flag(v);
            },
            0x28 => {
                let v = self.pull_byte();
                self.cpu.status = v;
            },
            // RTI
            0x40 => {
                let st = self.pull_byte();
                self.cpu.status = st;
                let lo = self.pull_byte();
                let hi = self.pull_byte();
                self.cpu.program_counter = (((hi as u16) << 8u16) | (lo as u16)).wrapping_sub(1);
            },
            // RTS
            0x60 => {
                let lo = self.pull_byte();
                let hi = self.pull_byte();
                self.cpu.program_counter = ((hi as u16) << 8u16) | (lo as u16);
            },
            // SBC
            0xE9 => {
                let v = self.immediate();
                self.sbc_acc(v);
            },
            0xE5 => {
                let a8 = self.zero_page();
                let v = self.memory.read(a8 as u16);
                self.sbc_acc(v);
            },
            0xF5 => {
                let a8 = self.zero_page_x();
                let v = self.memory.read(a8 as u16);
                self.sbc_acc(v);
            },
            0xED => {
                let a = self.absolute();
                let v = self.memory.read(a);
                self.sbc_acc(v);
            },
            0xF9 => {
                let a = self.absolute_y();
                let v = self.memory.read(a);
                self.sbc_acc(v);
            },
            0xE1 => {
                let a = self.indexed_indirect();
                let v = self.memory.read(a);
                self.sbc_acc(v);
            },
            0xF1 => {
                let a = self.indirect_indexed();
                let v = self.memory.read(a);
                self.sbc_acc(v);
            },
            // Flag sets
            0x38 => {
                self.cpu.status = self.cpu.status | 0b0000_0001;
            },
            0xF8 => {
                self.cpu.status = self.cpu.status | 0b0000_1000;
            },
            0x78 => {
                self.cpu.status = self.cpu.status | 0b0000_0100;
            },
            // STA
            0x85 => {
                let a8 = self.zero_page();
                let v = self.cpu.accumulator;
                self.memory.write(a8 as u16, v);
            },
            0x95 => {
                let a8 = self.zero_page_x();
                let v = self.cpu.accumulator;
                self.memory.write(a8 as u16, v);
            },
            0x8D => {
                let a = self.absolute();
                let v = self.cpu.accumulator;
                self.memory.write(a, v);
            },
            0x9D => {
                let a = self.absolute_x();
                let v = self.cpu.accumulator;
                self.memory.write(a, v);
            },
            0x99 => {
                let a = self.absolute_y();
                let v = self.cpu.accumulator;
                self.memory.write(a, v);
            },
            0x81 => {
                let a = self.indexed_indirect();
                let v = self.cpu.accumulator;
                self.memory.write(a, v);
            },
            0x91 => {
                let a = self.indirect_indexed();
                let v = self.cpu.accumulator;
                self.memory.write(a, v);
            },
            // STX
            0x86 => {
                let a8 = self.zero_page();
                let v = self.cpu.x;
                self.memory.write(a8 as u16, v);
            },
            0x96 => {
                let a8 = self.zero_page_y();
                let v = self.cpu.x;
                self.memory.write(a8 as u16, v);
            },
            0x8E => {
                let a = self.absolute();
                let v = self.cpu.x;
                self.memory.write(a, v);
            },
            // STY
            0x84 => {
                let a8 = self.zero_page();
                let v = self.cpu.y;
                self.memory.write(a8 as u16, v);
            },
            0x94 => {
                let a8 = self.zero_page_x();
                let v = self.cpu.y;
                self.memory.write(a8 as u16, v);
            },
            0x8C => {
                let a = self.absolute();
                let v = self.cpu.y;
                self.memory.write(a, v);
            },
            // Transfers
            0xAA => {
                let v = self.cpu.accumulator;
                self.ldx_set(v);
            },
            0xA8 => {
                let v = self.cpu.accumulator;
                self.ldy_set(v);
            },
            0xBA => {
                let v = self.cpu.stack_pointer;
                self.ldx_set(v);
            },
            0x8A => {
                let v = self.cpu.x;
                self.lda_set(v);
            },
            0x9A => {
                self.cpu.stack_pointer = self.cpu.x;
            },
            0x98 => {
                let v = self.cpu.y;
                self.lda_set(v);
            },
            _ => {
                return Err(
                    EmuError::UnrecognizedInstruction {
                        opcode: instruction as u16,
                        pc: self.cpu.program_counter,
                    },
                );
            },
        }
        self.cpu.program_counter = self.cpu.program_counter.wrapping_add(1);
        Ok(())
    }

    /// One whole machine cycle: dispatch the opcode byte at the program
    /// counter.
    pub fn emulate_cycle(&mut self) -> (r: Result<(), EmuError>)
        requires
            old(self).wf(),
        ensures
            final(self).wf(),
            (r is Ok) == (nes_cycle(old(self)@) is Some),
            r is Ok ==> Some(final(self)@) == nes_cycle(old(self)@),
            r is Err ==> final(self)@ == old(self)@ && r == Err::<(), EmuError>(
                EmuError::UnrecognizedInstruction {
                    opcode: at(old(self)@.mem, old(self)@.pc) as u16,
                    pc: old(self)@.pc,
                },
            ),
    {
        let op: u8 = self.memory.read(self.cpu.program_counter);
        self.execute(op)
    }
}

proof fn lemma_zn_keeps_carry_bit(st: u8)
    by (bit_vector)
    ensures
        (st | 0x02u8) & 0x01u8 == st & 0x01u8,
        (st | 0x80u8) & 0x01u8 == st & 0x01u8,
        (st | 0x01u8) & 0x01u8 == 1u8,
{
}

/// Splitting a 16-bit word into its two bytes and reassembling them yields
/// the word back.
proof fn lemma_split_join(w: u16)
    by (bit_vector)
    ensures
        ((((w >> 8u16) as u8) as u16) << 8u16) | (((w & 0xFFu16) as u8) as u16) == w,
{
}

/// With the carry flag clear beforehand, add-with-carry stores the true sum
/// of accumulator and operand modulo 256, and the carry flag afterwards is
/// set exactly when that sum overflows eight bits — for every pair of
/// values. (With the carry flag set beforehand the sticky-flag convention
/// keeps it set whatever the sum, so that case is left out.)
pub proof fn lemma_adc_sets_carry(s: NesView, p: u16, v: u8)
    requires
        s.status & 0x01 == 0x00,
    ensures
        adc_a(s, p, v).a == (s.a + v) % 256,
        (adc_a(s, p, v).status & 0x01 == 0x01) <==> s.a + v > 255,
{
    let sum = s.a + v;
    let a2 = (sum % 256) as u8;
    let st1: u8 = if sum > 255 {
        s.status | 0x01u8
    } else {
        s.status
    };
    lemma_zn_keeps_carry_bit(st1);
    lemma_zn_keeps_carry_bit(zero_flagged(st1, a2));
    lemma_zn_keeps_carry_bit(s.status);
}

/// A subroutine jump followed immediately by a return lands the program
/// counter on the address after the three-byte jump instruction, with the
/// stack pointer restored to its pre-jump value — from any starting state.
pub proof fn lemma_jsr_rts_balanced(s: NesView)
    requires
        s.wf(),
    ensures
        nes_step(s, 0x20) matches Some(s1) && (nes_step(s1, 0x60) matches Some(s2) && s2.pc
            == s.pc.wrapping_add(3) && s2.sp == s.sp),
{
    let ret = s.pc.wrapping_add(2);
    lemma_split_join(ret);
}

} // verus!
