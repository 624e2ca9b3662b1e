//! The instruction semantics: a mathematical step function over the CPU
//! state, together with the length, control-transfer and cycle tables that
//! the execution engine is proved against.

use vstd::prelude::*;
use crate::alu::{spec_add, spec_adc, spec_sub, spec_sbb, spec_ana, spec_xra, spec_ora, spec_inr,
    spec_dcr, spec_rlc, spec_rrc, spec_ral, spec_rar, spec_dad, spec_daa};
use crate::bits::{hi8, lo8};
use crate::dasm::dasm_seq;
use crate::flags::{Flags, flags_of_byte, psw_byte};
use crate::hex::{hex2, hex4};
use crate::memory::BusView;
use crate::register::Registers;

verus! {

/// The debug switchboard as the contracts see it.
#[verifier::ext_equal]
pub ghost struct DebugView {
    /// Whether a trace line is composed after each executed instruction.
    pub switch: bool,
    /// Whether I/O messages are wanted.
    pub io: bool,
    /// The latest trace text.
    pub text: Seq<char>,
}

/// The whole CPU state as the contracts see it.
#[verifier::ext_equal]
pub ghost struct CpuView {
    pub regs: Registers,
    pub flags: Flags,
    pub pc: u16,
    pub sp: u16,
    pub bus: BusView,
    /// The halt latch set by HLT.
    pub halt: bool,
    /// The interrupt-enable latch.
    pub inte: bool,
    /// The pending-interrupt slot: armed flag and injected opcode.
    pub irq: (bool, u8),
    pub dbg: DebugView,
    /// Milliseconds per pacing slice.
    pub slice_duration: u32,
    /// Cycle budget of one pacing slice.
    pub slice_max_cycles: u32,
    /// Cycles consumed in the current pacing slice.
    pub slice_current_cycles: u32,
}

/// The byte in memory at an address.
pub open spec fn m8(s: CpuView, a: u16) -> u8 {
    s.bus.read8(a)
}

/// The immediate byte of the instruction at PC.
pub open spec fn imm8(s: CpuView) -> u8 {
    m8(s, s.pc.wrapping_add(1))
}

/// The immediate word of the instruction at PC.
pub open spec fn imm16(s: CpuView) -> u16 {
    s.bus.read16(s.pc.wrapping_add(1))
}

/// The state after a byte write.
pub open spec fn wr8(s: CpuView, a: u16, v: u8) -> CpuView {
    CpuView { bus: s.bus.write8(a, v), ..s }
}

/// The state after a little-endian word write.
pub open spec fn wr16(s: CpuView, a: u16, v: u16) -> CpuView {
    CpuView { bus: s.bus.write16(a, v), ..s }
}

/// The state after an accumulator operation: new A and new flags.
pub open spec fn st_acc(s: CpuView, rf: (u8, Flags)) -> CpuView {
    CpuView { regs: Registers { a: rf.0, ..s.regs }, flags: rf.1, ..s }
}

/// CMP: the flags of the comparison, with A kept.
pub open spec fn st_cmp(s: CpuView, n: u8) -> CpuView {
    CpuView { flags: spec_sub(s.regs.a, n).1, ..s }
}

/// A word pushed onto the stack.
pub open spec fn st_push(s: CpuView, v: u16) -> CpuView {
    let sp2 = s.sp.wrapping_sub(2);
    CpuView { sp: sp2, ..wr16(s, sp2, v) }
}

/// CALL to a target: the address past the 3-byte instruction is pushed.
pub open spec fn st_call(s: CpuView, target: u16) -> CpuView {
    let sp2 = s.sp.wrapping_sub(2);
    CpuView { pc: target, sp: sp2, ..wr16(s, sp2, s.pc.wrapping_add(3)) }
}

/// RET: PC is popped off the stack.
pub open spec fn st_ret(s: CpuView) -> CpuView {
    CpuView { pc: s.bus.read16(s.sp), sp: s.sp.wrapping_add(2), ..s }
}

/// A conditional jump: to the immediate target when the condition holds,
/// else past the instruction.
pub open spec fn st_jump(s: CpuView, cond: bool) -> CpuView {
    if cond {
        CpuView { pc: imm16(s), ..s }
    } else {
        CpuView { pc: s.pc.wrapping_add(3), ..s }
    }
}

/// A conditional call.
pub open spec fn st_call_if(s: CpuView, cond: bool) -> CpuView {
    if cond {
        st_call(s, imm16(s))
    } else {
        CpuView { pc: s.pc.wrapping_add(3), ..s }
    }
}

/// A conditional return.
pub open spec fn st_ret_if(s: CpuView, cond: bool) -> CpuView {
    if cond {
        st_ret(s)
    } else {
        CpuView { pc: s.pc.wrapping_add(1), ..s }
    }
}

/// RST to a vector. A direct (program-executed) restart pushes the address
/// of the next instruction; an indirect (interrupt-driven) one pushes PC
/// itself, since no instruction byte was consumed.
pub open spec fn st_rst(s: CpuView, vector: u16, direct: bool) -> CpuView {
    let ret = if direct {
        s.pc.wrapping_add(1)
    } else {
        s.pc
    };
    let sp2 = s.sp.wrapping_sub(2);
    CpuView { pc: vector, sp: sp2, ..wr16(s, sp2, ret) }
}

/// What one opcode does to the CPU state, PC advancement aside. Opcodes the
/// 8080 leaves undefined act as NOP.
pub open spec fn exec_op(s: CpuView, op: u8, direct: bool) -> CpuView {
    if op < 0x40 {
        exec_misc(s, op)
    } else if op < 0x80 {
        exec_mov(s, op)
    } else if op < 0xc0 {
        exec_alu(s, op)
    } else {
        exec_ctrl(s, op, direct)
    }
}

/// Opcodes 0x00-0x3f: loads, increments, rotates, double adds, direct
/// addressing, decimal adjust and the carry-bit instructions.
#[verifier::opaque]
pub open spec fn exec_misc(s: CpuView, op: u8) -> CpuView {
    match op {
        0x00 => s,
        0x01 => {
            let v = imm16(s);
            CpuView { regs: Registers { b: hi8(v), c: lo8(v), ..s.regs }, ..s }
        },
        0x02 => wr8(s, s.regs.bc(), s.regs.a),
        0x03 => {
            let v = s.regs.bc().wrapping_add(1);
            CpuView { regs: Registers { b: hi8(v), c: lo8(v), ..s.regs }, ..s }
        },
        0x04 => {
            let rf = spec_inr(s.regs.b, s.flags);
            CpuView { regs: Registers { b: rf.0, ..s.regs }, flags: rf.1, ..s }
        },
        0x05 => {
            let rf = spec_dcr(s.regs.b, s.flags);
            CpuView { regs: Registers { b: rf.0, ..s.regs }, flags: rf.1, ..s }
        },
        0x06 => CpuView { regs: Registers { b: imm8(s), ..s.regs }, ..s },
        0x07 => {
            let rc = spec_rlc(s.regs.a);
            CpuView { regs: Registers { a: rc.0, ..s.regs }, flags: Flags { c: rc.1, ..s.flags }, ..s }
        },
        0x09 => {
            let rc = spec_dad(s.regs.hl(), s.regs.bc());
            CpuView { regs: Registers { h: hi8(rc.0), l: lo8(rc.0), ..s.regs }, flags: Flags { c: rc.1, ..s.flags }, ..s }
        },
        0x0a => CpuView { regs: Registers { a: m8(s, s.regs.bc()), ..s.regs }, ..s },
        0x0b => {
            let v = s.regs.bc().wrapping_sub(1);
            CpuView { regs: Registers { b: hi8(v), c: lo8(v), ..s.regs }, ..s }
        },
        0x0c => {
            let rf = spec_inr(s.regs.c, s.flags);
            CpuView { regs: Registers { c: rf.0, ..s.regs }, flags: rf.1, ..s }
        },
        0x0d => {
            let rf = spec_dcr(s.regs.c, s.flags);
            CpuView { regs: Registers { c: rf.0, ..s.regs }, flags: rf.1, ..s }
        },
        0x0e => CpuView { regs: Registers { c: imm8(s), ..s.regs }, ..s },
        0x0f => {
            let rc = spec_rrc(s.regs.a);
            CpuView { regs: Registers { a: rc.0, ..s.regs }, flags: Flags { c: rc.1, ..s.flags }, ..s }
        },
        0x11 => {
            let v = imm16(s);
            CpuView { regs: Registers { d: hi8(v), e: lo8(v), ..s.regs }, ..s }
        },
        0x12 => wr8(s, s.regs.de(), s.regs.a),
        0x13 => {
            let v = s.regs.de().wrapping_add(1);
            CpuView { regs: Registers { d: hi8(v), e: lo8(v), ..s.regs }, ..s }
        },
        0x14 => {
            let rf = spec_inr(s.regs.d, s.flags);
            CpuView { regs: Registers { d: rf.0, ..s.regs }, flags: rf.1, ..s }
        },
        0x15 => {
            let rf = spec_dcr(s.regs.d, s.flags);
            CpuView { regs: Registers { d: rf.0, ..s.regs }, flags: rf.1, ..s }
        },
        0x16 => CpuView { regs: Registers { d: imm8(s), ..s.regs }, ..s },
        0x17 => {
            let rc = spec_ral(s.regs.a, s.flags.c);
            CpuView { regs: Registers { a: rc.0, ..s.regs }, flags: Flags { c: rc.1, ..s.flags }, ..s }
        },
        0x19 => {
            let rc = spec_dad(s.regs.hl(), s.regs.de());
            CpuView { regs: Registers { h: hi8(rc.0), l: lo8(rc.0), ..s.regs }, flags: Flags { c: rc.1, ..s.flags }, ..s }
        },
        0x1a => CpuView { regs: Registers { a: m8(s, s.regs.de()), ..s.regs }, ..s },
        0x1b => {
            let v = s.regs.de().wrapping_sub(1);
            CpuView { regs: Registers { d: hi8(v), e: lo8(v), ..s.regs }, ..s }
        },
        0x1c => {
            let rf = spec_inr(s.regs.e, s.flags);
            CpuView { regs: Registers { e: rf.0, ..s.regs }, flags: rf.1, ..s }
        },
        0x1d => {
            let rf = spec_dcr(s.regs.e, s.flags);
            CpuView { regs: Registers { e: rf.0, ..s.regs }, flags: rf.1, ..s }
        },
        0x1e => CpuView { regs: Registers { e: imm8(s), ..s.regs }, ..s },
        0x1f => {
            let rc = spec_rar(s.regs.a, s.flags.c);
            CpuView { regs: Registers { a: rc.0, ..s.regs }, flags: Flags { c: rc.1, ..s.flags }, ..s }
        },
        0x21 => {
            let v = imm16(s);
            CpuView { regs: Registers { h: hi8(v), l: lo8(v), ..s.regs }, ..s }
        },
        0x22 => wr16(s, imm16(s), s.regs.hl()),
        0x23 => {
            let v = s.regs.hl().wrapping_add(1);
            CpuView { regs: Registers { h: hi8(v), l: lo8(v), ..s.regs }, ..s }
        },
        0x24 => {
            let rf = spec_inr(s.regs.h, s.flags);
            CpuView { regs: Registers { h: rf.0, ..s.regs }, flags: rf.1, ..s }
        },
        0x25 => {
            let rf = spec_dcr(s.regs.h, s.flags);
            CpuView { regs: Registers { h: rf.0, ..s.regs }, flags: rf.1, ..s }
        },
        0x26 => CpuView { regs: Registers { h: imm8(s), ..s.regs }, ..s },
        0x27 => st_acc(s, spec_daa(s.regs.a, s.flags)),
        0x29 => {
            let rc = spec_dad(s.regs.hl(), s.regs.hl());
            CpuView { regs: Registers { h: hi8(rc.0), l: lo8(rc.0), ..s.regs }, flags: Flags { c: rc.1, ..s.flags }, ..s }
        },
        0x2a => {
            let v = s.bus.read16(imm16(s));
            CpuView { regs: Registers { h: hi8(v), l: lo8(v), ..s.regs }, ..s }
        },
        0x2b => {
            let v = s.regs.hl().wrapping_sub(1);
            CpuView { regs: Registers { h: hi8(v), l: lo8(v), ..s.regs }, ..s }
        },
        0x2c => {
            let rf = spec_inr(s.regs.l, s.flags);
            CpuView { regs: Registers { l: rf.0, ..s.regs }, flags: rf.1, ..s }
        },
        0x2d => {
            let rf = spec_dcr(s.regs.l, s.flags);
            CpuView { regs: Registers { l: rf.0, ..s.regs }, flags: rf.1, ..s }
        },
        0x2e => CpuView { regs: Registers { l: imm8(s), ..s.regs }, ..s },
        0x2f => CpuView { regs: Registers { a: !s.regs.a, ..s.regs }, ..s },
        0x31 => CpuView { sp: imm16(s), ..s },
        0x32 => wr8(s, imm16(s), s.regs.a),
        0x33 => CpuView { sp: s.sp.wrapping_add(1), ..s },
        0x34 => {
            let rf = spec_inr(m8(s, s.regs.hl()), s.flags);
            CpuView { flags: rf.1, ..wr8(s, s.regs.hl(), rf.0) }
        },
        0x35 => {
            let rf = spec_dcr(m8(s, s.regs.hl()), s.flags);
            CpuView { flags: rf.1, ..wr8(s, s.regs.hl(), rf.0) }
        },
        0x36 => wr8(s, s.regs.hl(), imm8(s)),
        0x37 => CpuView { flags: Flags { c: true, ..s.flags }, ..s },
        0x39 => {
            let rc = spec_dad(s.regs.hl(), s.sp);
            CpuView { regs: Registers { h: hi8(rc.0), l: lo8(rc.0), ..s.regs }, flags: Flags { c: rc.1, ..s.flags }, ..s }
        },
        0x3a => CpuView { regs: Registers { a: m8(s, imm16(s)), ..s.regs }, ..s },
        0x3b => CpuView { sp: s.sp.wrapping_sub(1), ..s },
        0x3c => {
            let rf = spec_inr(s.regs.a, s.flags);
            CpuView { regs: Registers { a: rf.0, ..s.regs }, flags: rf.1, ..s }
        },
        0x3d => {
            let rf = spec_dcr(s.regs.a, s.flags);
            CpuView { regs: Registers { a: rf.0, ..s.regs }, flags: rf.1, ..s }
        },
        0x3e => CpuView { regs: Registers { a: imm8(s), ..s.regs }, ..s },
        0x3f => CpuView { flags: Flags { c: !s.flags.c, ..s.flags }, ..s },
        _ => s,
    }
}

/// Opcodes 0x40-0x7f: the register-to-register moves and HLT.
#[verifier::opaque]
pub open spec fn exec_mov(s: CpuView, op: u8) -> CpuView {
    match op {
        0x40 => s,
        0x41 => CpuView { regs: Registers { b: s.regs.c, ..s.regs }, ..s },
        0x42 => CpuView { regs: Registers { b: s.regs.d, ..s.regs }, ..s },
        0x43 => CpuView { regs: Registers { b: s.regs.e, ..s.regs }, ..s },
        0x44 => CpuView { regs: Registers { b: s.regs.h, ..s.regs }, ..s },
        0x45 => CpuView { regs: Registers { b: s.regs.l, ..s.regs }, ..s },
        0x46 => CpuView { regs: Registers { b: m8(s, s.regs.hl()), ..s.regs }, ..s },
        0x47 => CpuView { regs: Registers { b: s.regs.a, ..s.regs }, ..s },
        0x48 => CpuView { regs: Registers { c: s.regs.b, ..s.regs }, ..s },
        0x49 => s,
        0x4a => CpuView { regs: Registers { c: s.regs.d, ..s.regs }, ..s },
        0x4b => CpuView { regs: Registers { c: s.regs.e, ..s.regs }, ..s },
        0x4c => CpuView { regs: Registers { c: s.regs.h, ..s.regs }, ..s },
        0x4d => CpuView { regs: Registers { c: s.regs.l, ..s.regs }, ..s },
        0x4e => CpuView { regs: Registers { c: m8(s, s.regs.hl()), ..s.regs }, ..s },
        0x4f => CpuView { regs: Registers { c: s.regs.a, ..s.regs }, ..s },
        0x50 => CpuView { regs: Registers { d: s.regs.b, ..s.regs }, ..s },
        0x51 => CpuView { regs: Registers { d: s.regs.c, ..s.regs }, ..s },
        0x52 => s,
        0x53 => CpuView { regs: Registers { d: s.regs.e, ..s.regs }, ..s },
        0x54 => CpuView { regs: Registers { d: s.regs.h, ..s.regs }, ..s },
        0x55 => CpuView { regs: Registers { d: s.regs.l, ..s.regs }, ..s },
        0x56 => CpuView { regs: Registers { d: m8(s, s.regs.hl()), ..s.regs }, ..s },
        0x57 => CpuView { regs: Registers { d: s.regs.a, ..s.regs }, ..s },
        0x58 => CpuView { regs: Registers { e: s.regs.b, ..s.regs }, ..s },
        0x59 => CpuView { regs: Registers { e: s.regs.c, ..s.regs }, ..s },
        0x5a => CpuView { regs: Registers { e: s.regs.d, ..s.regs }, ..s },
        0x5b => s,
        0x5c => CpuView { regs: Registers { e: s.regs.h, ..s.regs }, ..s },
        0x5d => CpuView { regs: Registers { e: s.regs.l, ..s.regs }, ..s },
        0x5e => CpuView { regs: Registers { e: m8(s, s.regs.hl()), ..s.regs }, ..s },
        0x5f => CpuView { regs: Registers { e: s.regs.a, ..s.regs }, ..s },
        0x60 => CpuView { regs: Registers { h: s.regs.b, ..s.regs }, ..s },
        0x61 => CpuView { regs: Registers { h: s.regs.c, ..s.regs }, ..s },
        0x62 => CpuView { regs: Registers { h: s.regs.d, ..s.regs }, ..s },
        0x63 => CpuView { regs: Registers { h: s.regs.e, ..s.regs }, ..s },
        0x64 => s,
        0x65 => CpuView { regs: Registers { h: s.regs.l, ..s.regs }, ..s },
        0x66 => CpuView { regs: Registers { h: m8(s, s.regs.hl()), ..s.regs }, ..s },
        0x67 => CpuView { regs: Registers { h: s.regs.a, ..s.regs }, ..s },
        0x68 => CpuView { regs: Registers { l: s.regs.b, ..s.regs }, ..s },
        0x69 => CpuView { regs: Registers { l: s.regs.c, ..s.regs }, ..s },
        0x6a => CpuView { regs: Registers { l: s.regs.d, ..s.regs }, ..s },
        0x6b => CpuView { regs: Registers { l: s.regs.e, ..s.regs }, ..s },
        0x6c => CpuView { regs: Registers { l: s.regs.h, ..s.regs }, ..s },
        0x6d => s,
        0x6e => CpuView { regs: Registers { l: m8(s, s.regs.hl()), ..s.regs }, ..s },
        0x6f => CpuView { regs: Registers { l: s.regs.a, ..s.regs }, ..s },
        0x70 => wr8(s, s.regs.hl(), s.regs.b),
        0x71 => wr8(s, s.regs.hl(), s.regs.c),
        0x72 => wr8(s, s.regs.hl(), s.regs.d),
        0x73 => wr8(s, s.regs.hl(), s.regs.e),
        0x74 => wr8(s, s.regs.hl(), s.regs.h),
        0x75 => wr8(s, s.regs.hl(), s.regs.l),
        0x76 => CpuView { halt: true, ..s },
        0x77 => wr8(s, s.regs.hl(), s.regs.a),
        0x78 => CpuView { regs: Registers { a: s.regs.b, ..s.regs }, ..s },
        0x79 => CpuView { regs: Registers { a: s.regs.c, ..s.regs }, ..s },
        0x7a => CpuView { regs: Registers { a: s.regs.d, ..s.regs }, ..s },
        0x7b => CpuView { regs: Registers { a: s.regs.e, ..s.regs }, ..s },
        0x7c => CpuView { regs: Registers { a: s.regs.h, ..s.regs }, ..s },
        0x7d => CpuView { regs: Registers { a: s.regs.l, ..s.regs }, ..s },
        0x7e => CpuView { regs: Registers { a: m8(s, s.regs.hl()), ..s.regs }, ..s },
        0x7f => s,
        _ => s,
    }
}

/// Opcodes 0x80-0xbf: the accumulator arithmetic and logic group.
#[verifier::opaque]
pub open spec fn exec_alu(s: CpuView, op: u8) -> CpuView {
    match op {
        0x80 => st_acc(s, spec_add(s.regs.a, s.regs.b)),
        0x81 => st_acc(s, spec_add(s.regs.a, s.regs.c)),
        0x82 => st_acc(s, spec_add(s.regs.a, s.regs.d)),
        0x83 => st_acc(s, spec_add(s.regs.a, s.regs.e)),
        0x84 => st_acc(s, spec_add(s.regs.a, s.regs.h)),
        0x85 => st_acc(s, spec_add(s.regs.a, s.regs.l)),
        0x86 => st_acc(s, spec_add(s.regs.a, m8(s, s.regs.hl()))),
        0x87 => st_acc(s, spec_add(s.regs.a, s.regs.a)),
        0x88 => st_acc(s, spec_adc(s.regs.a, s.regs.b, s.flags.c)),
        0x89 => st_acc(s, spec_adc(s.regs.a, s.regs.c, s.flags.c)),
        0x8a => st_acc(s, spec_adc(s.regs.a, s.regs.d, s.flags.c)),
        0x8b => st_acc(s, spec_adc(s.regs.a, s.regs.e, s.flags.c)),
        0x8c => st_acc(s, spec_adc(s.regs.a, s.regs.h, s.flags.c)),
        0x8d => st_acc(s, spec_adc(s.regs.a, s.regs.l, s.flags.c)),
        0x8e => st_acc(s, spec_adc(s.regs.a, m8(s, s.regs.hl()), s.flags.c)),
        0x8f => st_acc(s, spec_adc(s.regs.a, s.regs.a, s.flags.c)),
        0x90 => st_acc(s, spec_sub(s.regs.a, s.regs.b)),
        0x91 => st_acc(s, spec_sub(s.regs.a, s.regs.c)),
        0x92 => st_acc(s, spec_sub(s.regs.a, s.regs.d)),
        0x93 => st_acc(s, spec_sub(s.regs.a, s.regs.e)),
        0x94 => st_acc(s, spec_sub(s.regs.a, s.regs.h)),
        0x95 => st_acc(s, spec_sub(s.regs.a, s.regs.l)),
        0x96 => st_acc(s, spec_sub(s.regs.a, m8(s, s.regs.hl()))),
        0x97 => st_acc(s, spec_sub(s.regs.a, s.regs.a)),
        0x98 => st_acc(s, spec_sbb(s.regs.a, s.regs.b, s.flags.c)),
        0x99 => st_acc(s, spec_sbb(s.regs.a, s.regs.c, s.flags.c)),
        0x9a => st_acc(s, spec_sbb(s.regs.a, s.regs.d, s.flags.c)),
        0x9b => st_acc(s, spec_sbb(s.regs.a, s.regs.e, s.flags.c)),
        0x9c => st_acc(s, spec_sbb(s.regs.a, s.regs.h, s.flags.c)),
        0x9d => st_acc(s, spec_sbb(s.regs.a, s.regs.l, s.flags.c)),
        0x9e => st_acc(s, spec_sbb(s.regs.a, m8(s, s.regs.hl()), s.flags.c)),
        0x9f => st_acc(s, spec_sbb(s.regs.a, s.regs.a, s.flags.c)),
        0xa0 => st_acc(s, spec_ana(s.regs.a, s.regs.b)),
        0xa1 => st_acc(s, spec_ana(s.regs.a, s.regs.c)),
        0xa2 => st_acc(s, spec_ana(s.regs.a, s.regs.d)),
        0xa3 => st_acc(s, spec_ana(s.regs.a, s.regs.e)),
        0xa4 => st_acc(s, spec_ana(s.regs.a, s.regs.h)),
        0xa5 => st_acc(s, spec_ana(s.regs.a, s.regs.l)),
        0xa6 => st_acc(s, spec_ana(s.regs.a, m8(s, s.regs.hl()))),
        0xa7 => st_acc(s, spec_ana(s.regs.a, s.regs.a)),
        0xa8 => st_acc(s, spec_xra(s.regs.a, s.regs.b)),
        0xa9 => st_acc(s, spec_xra(s.regs.a, s.regs.c)),
        0xaa => st_acc(s, spec_xra(s.regs.a, s.regs.d)),
        0xab => st_acc(s, spec_xra(s.regs.a, s.regs.e)),
        0xac => st_acc(s, spec_xra(s.regs.a, s.regs.h)),
        0xad => st_acc(s, spec_xra(s.regs.a, s.regs.l)),
        0xae => st_acc(s, spec_xra(s.regs.a, m8(s, s.regs.hl()))),
        0xaf => st_acc(s, spec_xra(s.regs.a, s.regs.a)),
        0xb0 => st_acc(s, spec_ora(s.regs.a, s.regs.b)),
        0xb1 => st_acc(s, spec_ora(s.regs.a, s.regs.c)),
        0xb2 => st_acc(s, spec_ora(s.regs.a, s.regs.d)),
        0xb3 => st_acc(s, spec_ora(s.regs.a, s.regs.e)),
        0xb4 => st_acc(s, spec_ora(s.regs.a, s.regs.h)),
        0xb5 => st_acc(s, spec_ora(s.regs.a, s.regs.l)),
        0xb6 => st_acc(s, spec_ora(s.regs.a, m8(s, s.regs.hl()))),
        0xb7 => st_acc(s, spec_ora(s.regs.a, s.regs.a)),
        0xb8 => st_cmp(s, s.regs.b),
        0xb9 => st_cmp(s, s.regs.c),
        0xba => st_cmp(s, s.regs.d),
        0xbb => st_cmp(s, s.regs.e),
        0xbc => st_cmp(s, s.regs.h),
        0xbd => st_cmp(s, s.regs.l),
        0xbe => st_cmp(s, m8(s, s.regs.hl())),
        0xbf => st_cmp(s, s.regs.a),
        _ => s,
    }
}

/// Opcodes 0xc0-0xff: stack, jumps, calls, returns, restarts, immediates,
/// exchanges, interrupt control and I/O.
pub open spec fn exec_ctrl(s: CpuView, op: u8, direct: bool) -> CpuView {
    if op < 0xe0 {
        exec_ctrl_c(s, op, direct)
    } else {
        exec_ctrl_e(s, op, direct)
    }
}

/// Opcodes 0xc0-0xdf of the control group.
#[verifier::opaque]
pub open spec fn exec_ctrl_c(s: CpuView, op: u8, direct: bool) -> CpuView {
    match op {
        0xc0 => st_ret_if(s, !s.flags.z),
        0xc1 => {
            let v = s.bus.read16(s.sp);
            CpuView { regs: Registers { b: hi8(v), c: lo8(v), ..s.regs }, sp: s.sp.wrapping_add(2), ..s }
        },
        0xc2 => st_jump(s, !s.flags.z),
        0xc3 => CpuView { pc: imm16(s), ..s },
        0xc4 => st_call_if(s, !s.flags.z),
        0xc5 => st_push(s, s.regs.bc()),
        0xc6 => st_acc(s, spec_add(s.regs.a, imm8(s))),
        0xc7 => st_rst(s, 0x00, direct),
        0xc8 => st_ret_if(s, s.flags.z),
        0xc9 => st_ret(s),
        0xca => st_jump(s, s.flags.z),
        0xcc => st_call_if(s, s.flags.z),
        0xcd => st_call(s, imm16(s)),
        0xce => st_acc(s, spec_adc(s.regs.a, imm8(s), s.flags.c)),
        0xcf => st_rst(s, 0x08, direct),
        0xd0 => st_ret_if(s, !s.flags.c),
        0xd1 => {
            let v = s.bus.read16(s.sp);
            CpuView { regs: Registers { d: hi8(v), e: lo8(v), ..s.regs }, sp: s.sp.wrapping_add(2), ..s }
        },
        0xd2 => st_jump(s, !s.flags.c),
        0xd3 => CpuView { bus: BusView { pout: Some((imm8(s), s.regs.a)), ..s.bus }, ..s },
        0xd4 => st_call_if(s, !s.flags.c),
        0xd5 => st_push(s, s.regs.de()),
        0xd6 => st_acc(s, spec_sub(s.regs.a, imm8(s))),
        0xd7 => st_rst(s, 0x10, direct),
        0xd8 => st_ret_if(s, s.flags.c),
        0xda => st_jump(s, s.flags.c),
        0xdb => CpuView { regs: Registers { a: s.bus.pin[imm8(s) as int], ..s.regs }, ..s },
        0xdc => st_call_if(s, s.flags.c),
        0xde => st_acc(s, spec_sbb(s.regs.a, imm8(s), s.flags.c)),
        0xdf => st_rst(s, 0x18, direct),
        _ => s,
    }
}

/// Opcodes 0xe0-0xff of the control group.
#[verifier::opaque]
pub open spec fn exec_ctrl_e(s: CpuView, op: u8, direct: bool) -> CpuView {
    match op {
        0xe0 => st_ret_if(s, !s.flags.p),
        0xe1 => {
            let v = s.bus.read16(s.sp);
            CpuView { regs: Registers { h: hi8(v), l: lo8(v), ..s.regs }, sp: s.sp.wrapping_add(2), ..s }
        },
        0xe2 => st_jump(s, !s.flags.p),
        0xe3 => {
            let v = s.bus.read16(s.sp);
            CpuView { regs: Registers { h: hi8(v), l: lo8(v), ..s.regs }, ..wr16(s, s.sp, s.regs.hl()) }
        },
        0xe4 => st_call_if(s, !s.flags.p),
        0xe5 => st_push(s, s.regs.hl()),
        0xe6 => st_acc(s, spec_ana(s.regs.a, imm8(s))),
        0xe7 => st_rst(s, 0x20, direct),
        0xe8 => st_ret_if(s, s.flags.p),
        0xe9 => CpuView { pc: s.regs.hl(), ..s },
        0xea => st_jump(s, s.flags.p),
        0xeb => CpuView { regs: Registers { d: s.regs.h, e: s.regs.l, h: s.regs.d, l: s.regs.e, ..s.regs }, ..s },
        0xec => st_call_if(s, s.flags.p),
        0xee => st_acc(s, spec_xra(s.regs.a, imm8(s))),
        0xef => st_rst(s, 0x28, direct),
        0xf0 => st_ret_if(s, !s.flags.s),
        0xf1 => {
            CpuView {
                regs: Registers { a: m8(s, s.sp.wrapping_add(1)), ..s.regs },
                flags: flags_of_byte(m8(s, s.sp)),
                sp: s.sp.wrapping_add(2),
                ..s
            }
        },
        0xf2 => st_jump(s, !s.flags.s),
        0xf3 => CpuView { inte: false, ..s },
        0xf4 => st_call_if(s, !s.flags.s),
        0xf5 => {
            let sp2 = s.sp.wrapping_sub(2);
            let s2 = wr8(s, sp2, psw_byte(s.flags));
            CpuView { sp: sp2, ..wr8(s2, sp2.wrapping_add(1), s.regs.a) }
        },
        0xf6 => st_acc(s, spec_ora(s.regs.a, imm8(s))),
        0xf7 => st_rst(s, 0x30, direct),
        0xf8 => st_ret_if(s, s.flags.s),
        0xf9 => CpuView { sp: s.regs.hl(), ..s },
        0xfa => st_jump(s, s.flags.s),
        0xfb => CpuView { inte: true, ..s },
        0xfc => st_call_if(s, s.flags.s),
        0xfe => st_cmp(s, imm8(s)),
        0xff => st_rst(s, 0x38, direct),
        _ => s,
    }
}

/// Whether the opcode computes PC itself: jumps, calls, returns, restarts and PCHL.
pub open spec fn is_control(op: u8) -> bool {
    match op {
        0xe9 | 0xc3 | 0xda | 0xd2 | 0xca | 0xc2 | 0xfa | 0xf2 | 0xea | 0xe2 | 0xcd | 0xdc | 0xd4 | 0xcc | 0xc4 | 0xfc | 0xf4 | 0xec | 0xe4 | 0xc9 | 0xd8 | 0xd0 | 0xc8 | 0xc0 | 0xf8 | 0xf0 | 0xe8 | 0xe0 | 0xc7 | 0xcf | 0xd7 | 0xdf | 0xe7 | 0xef | 0xf7 | 0xff => true,
        _ => false,
    }
}

/// Whether the opcode is one of the eight restarts.
pub open spec fn is_rst(op: u8) -> bool {
    match op {
        0xc7 | 0xcf | 0xd7 | 0xdf | 0xe7 | 0xef | 0xf7 | 0xff => true,
        _ => false,
    }
}

/// The byte length of an opcode outside the control-transfer set, per the
/// length table.
pub open spec fn op_len(op: u8) -> u16 {
    match op {
        0x06 | 0x0e | 0x16 | 0x1e | 0x26 | 0x2e | 0x36 | 0x3e | 0xc6 | 0xce | 0xd6 | 0xde | 0xe6 | 0xee | 0xf6 | 0xfe | 0xdb | 0xd3 => 2,
        0x32 | 0x3a | 0x22 | 0x2a | 0x01 | 0x11 | 0x21 | 0x31 => 3,
        _ => 1,
    }
}

/// The base cycle count of an opcode, per the datasheet table.
pub open spec fn base_cycles(op: u8) -> u8 {
    match op {
        0x00 | 0x07 | 0x08 | 0x0f | 0x10 | 0x17 | 0x18 | 0x1f | 0x20 | 0x27 | 0x28 | 0x2f | 0x30 | 0x37 | 0x38 | 0x3f | 0x80 | 0x81 | 0x82 | 0x83 | 0x84 | 0x85 | 0x87 | 0x88 | 0x89 | 0x8a | 0x8b | 0x8c | 0x8d | 0x8f | 0x90 | 0x91 | 0x92 | 0x93 | 0x94 | 0x95 | 0x97 | 0x98 | 0x99 | 0x9a | 0x9b | 0x9c | 0x9d | 0x9f | 0xa0 | 0xa1 | 0xa2 | 0xa3 | 0xa4 | 0xa5 | 0xa7 | 0xa8 | 0xa9 | 0xaa | 0xab | 0xac | 0xad | 0xaf | 0xb0 | 0xb1 | 0xb2 | 0xb3 | 0xb4 | 0xb5 | 0xb7 | 0xb8 | 0xb9 | 0xba | 0xbb | 0xbc | 0xbd | 0xbf | 0xf3 | 0xfb => 4,
        0x03 | 0x04 | 0x05 | 0x0b | 0x0c | 0x0d | 0x13 | 0x14 | 0x15 | 0x1b | 0x1c | 0x1d | 0x23 | 0x24 | 0x25 | 0x2b | 0x2c | 0x2d | 0x33 | 0x3b | 0x3c | 0x3d | 0x40 | 0x41 | 0x42 | 0x43 | 0x44 | 0x45 | 0x47 | 0x48 | 0x49 | 0x4a | 0x4b | 0x4c | 0x4d | 0x4f | 0x50 | 0x51 | 0x52 | 0x53 | 0x54 | 0x55 | 0x57 | 0x58 | 0x59 | 0x5a | 0x5b | 0x5c | 0x5d | 0x5f | 0x60 | 0x61 | 0x62 | 0x63 | 0x64 | 0x65 | 0x67 | 0x68 | 0x69 | 0x6a | 0x6b | 0x6c | 0x6d | 0x6f | 0x78 | 0x79 | 0x7a | 0x7b | 0x7c | 0x7d | 0x7f | 0xc0 | 0xc8 | 0xd0 | 0xd8 | 0xe0 | 0xe8 | 0xe9 | 0xeb | 0xf0 | 0xf8 | 0xf9 => 5,
        0x02 | 0x06 | 0x0a | 0x0e | 0x12 | 0x16 | 0x1a | 0x1e | 0x26 | 0x2e | 0x3e | 0x46 | 0x4e | 0x56 | 0x5e | 0x66 | 0x6e | 0x70 | 0x71 | 0x72 | 0x73 | 0x74 | 0x75 | 0x76 | 0x77 | 0x7e | 0x86 | 0x8e | 0x96 | 0x9e | 0xa6 | 0xae | 0xb6 | 0xbe | 0xc6 | 0xce | 0xd6 | 0xde | 0xe6 | 0xee | 0xf6 | 0xfe => 7,
        0x01 | 0x09 | 0x11 | 0x19 | 0x21 | 0x29 | 0x31 | 0x34 | 0x35 | 0x36 | 0x39 | 0xc1 | 0xc2 | 0xc3 | 0xc9 | 0xca | 0xcb | 0xd1 | 0xd2 | 0xd3 | 0xd9 | 0xda | 0xdb | 0xe1 | 0xe2 | 0xea | 0xf1 | 0xf2 | 0xfa => 10,
        0xc4 | 0xc5 | 0xc7 | 0xcc | 0xcf | 0xd4 | 0xd5 | 0xd7 | 0xdc | 0xdf | 0xe4 | 0xe5 | 0xe7 | 0xec | 0xef | 0xf4 | 0xf5 | 0xf7 | 0xfc | 0xff => 11,
        0x32 | 0x3a => 13,
        0x22 | 0x2a => 16,
        0xcd | 0xdd | 0xed | 0xfd => 17,
        _ => 18,
    }
}

/// Looks up the base cycle count of an opcode.
pub fn cycles_for(op: u8) -> (r: u8)
    ensures
        r == base_cycles(op),
{
    match op {
            0x00 | 0x07 | 0x08 | 0x0f | 0x10 | 0x17 | 0x18 | 0x1f | 0x20 | 0x27 | 0x28 | 0x2f | 0x30 | 0x37 | 0x38 | 0x3f | 0x80 | 0x81 | 0x82 | 0x83 | 0x84 | 0x85 | 0x87 | 0x88 | 0x89 | 0x8a | 0x8b | 0x8c | 0x8d | 0x8f | 0x90 | 0x91 | 0x92 | 0x93 | 0x94 | 0x95 | 0x97 | 0x98 | 0x99 | 0x9a | 0x9b | 0x9c | 0x9d | 0x9f | 0xa0 | 0xa1 | 0xa2 | 0xa3 | 0xa4 | 0xa5 | 0xa7 | 0xa8 | 0xa9 | 0xaa | 0xab | 0xac | 0xad | 0xaf | 0xb0 | 0xb1 | 0xb2 | 0xb3 | 0xb4 | 0xb5 | 0xb7 | 0xb8 | 0xb9 | 0xba | 0xbb | 0xbc | 0xbd | 0xbf | 0xf3 | 0xfb => 4,
            0x03 | 0x04 | 0x05 | 0x0b | 0x0c | 0x0d | 0x13 | 0x14 | 0x15 | 0x1b | 0x1c | 0x1d | 0x23 | 0x24 | 0x25 | 0x2b | 0x2c | 0x2d | 0x33 | 0x3b | 0x3c | 0x3d | 0x40 | 0x41 | 0x42 | 0x43 | 0x44 | 0x45 | 0x47 | 0x48 | 0x49 | 0x4a | 0x4b | 0x4c | 0x4d | 0x4f | 0x50 | 0x51 | 0x52 | 0x53 | 0x54 | 0x55 | 0x57 | 0x58 | 0x59 | 0x5a | 0x5b | 0x5c | 0x5d | 0x5f | 0x60 | 0x61 | 0x62 | 0x63 | 0x64 | 0x65 | 0x67 | 0x68 | 0x69 | 0x6a | 0x6b | 0x6c | 0x6d | 0x6f | 0x78 | 0x79 | 0x7a | 0x7b | 0x7c | 0x7d | 0x7f | 0xc0 | 0xc8 | 0xd0 | 0xd8 | 0xe0 | 0xe8 | 0xe9 | 0xeb | 0xf0 | 0xf8 | 0xf9 => 5,
            0x02 | 0x06 | 0x0a | 0x0e | 0x12 | 0x16 | 0x1a | 0x1e | 0x26 | 0x2e | 0x3e | 0x46 | 0x4e | 0x56 | 0x5e | 0x66 | 0x6e | 0x70 | 0x71 | 0x72 | 0x73 | 0x74 | 0x75 | 0x76 | 0x77 | 0x7e | 0x86 | 0x8e | 0x96 | 0x9e | 0xa6 | 0xae | 0xb6 | 0xbe | 0xc6 | 0xce | 0xd6 | 0xde | 0xe6 | 0xee | 0xf6 | 0xfe => 7,
            0x01 | 0x09 | 0x11 | 0x19 | 0x21 | 0x29 | 0x31 | 0x34 | 0x35 | 0x36 | 0x39 | 0xc1 | 0xc2 | 0xc3 | 0xc9 | 0xca | 0xcb | 0xd1 | 0xd2 | 0xd3 | 0xd9 | 0xda | 0xdb | 0xe1 | 0xe2 | 0xea | 0xf1 | 0xf2 | 0xfa => 10,
            0xc4 | 0xc5 | 0xc7 | 0xcc | 0xcf | 0xd4 | 0xd5 | 0xd7 | 0xdc | 0xdf | 0xe4 | 0xe5 | 0xe7 | 0xec | 0xef | 0xf4 | 0xf5 | 0xf7 | 0xfc | 0xff => 11,
            0x32 | 0x3a => 13,
            0x22 | 0x2a => 16,
            0xcd | 0xdd | 0xed | 0xfd => 17,
        _ => 18,
    }
}

/// The cycles a conditional call or return adds on its taken path. The taken
/// CC carries no penalty.
pub open spec fn extra_cycles(s: CpuView, op: u8) -> u8 {
    match op {
        0xd4 => if !s.flags.c { 6 } else { 0 },
        0xcc => if s.flags.z { 6 } else { 0 },
        0xc4 => if !s.flags.z { 6 } else { 0 },
        0xfc => if s.flags.s { 6 } else { 0 },
        0xf4 => if !s.flags.s { 6 } else { 0 },
        0xec => if s.flags.p { 6 } else { 0 },
        0xe4 => if !s.flags.p { 6 } else { 0 },
        0xd8 => if s.flags.c { 6 } else { 0 },
        0xd0 => if !s.flags.c { 6 } else { 0 },
        0xc8 => if s.flags.z { 6 } else { 0 },
        0xc0 => if !s.flags.z { 6 } else { 0 },
        0xf8 => if s.flags.s { 6 } else { 0 },
        0xf0 => if !s.flags.s { 6 } else { 0 },
        0xe8 => if s.flags.p { 6 } else { 0 },
        0xe0 => if !s.flags.p { 6 } else { 0 },
        _ => 0,
    }
}

/// An opcode executed and PC advanced by the length table, unless the opcode
/// set PC itself.
pub open spec fn step_op(s: CpuView, op: u8, direct: bool) -> CpuView {
    let s2 = exec_op(s, op, direct);
    if is_control(op) {
        s2
    } else {
        CpuView { pc: s2.pc.wrapping_add(op_len(op)), ..s2 }
    }
}

/// Whether the pending interrupt is taken at the next fetch.
pub open spec fn irq_taken(s: CpuView) -> bool {
    s.inte && s.irq.0
}

/// The opcode the next step executes: the injected one when an interrupt is
/// taken, the byte at PC otherwise.
pub open spec fn fetch_op(s: CpuView) -> u8 {
    if irq_taken(s) {
        s.irq.1
    } else {
        m8(s, s.pc)
    }
}

/// Interrupt acknowledgement: taking the pending interrupt clears the
/// interrupt-enable latch and the pending slot.
pub open spec fn ack_irq(s: CpuView) -> CpuView {
    if irq_taken(s) {
        CpuView { inte: false, irq: (false, 0u8), ..s }
    } else {
        s
    }
}

/// The trace line: disassembly at the executed instruction's address, then
/// the post-instruction registers, flags, SP and the word at (SP). Restarts
/// trace as a bare "RST".
pub open spec fn trace_text(s2: CpuView, pc0: u16, op: u8) -> Seq<char> {
    if is_rst(op) {
        "RST"@
    } else {
        dasm_seq(s2.bus, pc0) + "\nPC : 0x"@ + hex4(pc0) + "\tSP : 0x"@ + hex4(s2.sp) + "\tS : "@
            + bit01(s2.flags.s) + "\tZ : "@ + bit01(s2.flags.z) + "\tA : "@ + bit01(s2.flags.a)
            + "\tP : "@ + bit01(s2.flags.p) + "\tC : "@ + bit01(s2.flags.c) + "\nB : 0x"@
            + hex2(s2.regs.b) + "\tC : 0x"@ + hex2(s2.regs.c) + "\tD : 0x"@ + hex2(s2.regs.d)
            + "\tE : 0x"@ + hex2(s2.regs.e) + "\tH : 0x"@ + hex2(s2.regs.h) + "\tL : 0x"@
            + hex2(s2.regs.l) + "\tA : 0x"@ + hex2(s2.regs.a) + "\t(SP) : 0x"@
            + hex4(s2.bus.read16(s2.sp)) + "\n"@
    }
}

/// "1" when the bit is set, else "0".
pub open spec fn bit01(b: bool) -> Seq<char> {
    if b {
        "1"@
    } else {
        "0"@
    }
}

/// One execution step: nothing when halted; otherwise the fetched (or
/// injected) opcode is acknowledged, executed and PC advanced, and the trace
/// line is composed when the debug switch is on.
pub open spec fn step(s: CpuView) -> CpuView {
    if s.halt {
        s
    } else {
        let op = fetch_op(s);
        let direct = !irq_taken(s);
        let s2 = step_op(ack_irq(s), op, direct);
        CpuView {
            dbg: DebugView {
                text: if s.dbg.switch {
                    trace_text(s2, s.pc, op)
                } else {
                    s.dbg.text
                },
                ..s.dbg
            },
            ..s2
        }
    }
}

/// The cycles one execution step consumes: none when halted; otherwise the
/// base count of the opcode plus the taken-path penalty.
pub open spec fn step_cycles(s: CpuView) -> u32 {
    if s.halt {
        0
    } else {
        (base_cycles(fetch_op(s)) + extra_cycles(s, fetch_op(s))) as u32
    }
}

/// Tells whether an opcode is one of the eight restarts.
pub fn rst_opcode(op: u8) -> (r: bool)
    ensures
        r == is_rst(op),
{
    match op {
        0xc7 | 0xcf | 0xd7 | 0xdf | 0xe7 | 0xef | 0xf7 | 0xff => true,
        _ => false,
    }
}

/// The "0" or "1" text of a condition bit.
pub fn bit_str(b: bool) -> (r: &'static str)
    ensures
        r@ == bit01(b),
{
    if b {
        "1"
    } else {
        "0"
    }
}

} // verus!
