//! The quantified laws of the core, each proved once and for all over the
//! state function rather than sampled by tests.

use vstd::prelude::*;
use crate::alu::{spec_add, spec_adc, spec_sub, spec_sbb, spec_ana, spec_xra, spec_ora, spec_inr,
    spec_dcr};
use crate::bits::parity_even;
use crate::flags::{Flags, lemma_psw_roundtrip};
use crate::bits::lemma_word_parts;
use crate::memory::in_rom;
use crate::state::{CpuView, exec_misc, exec_mov, exec_alu, exec_ctrl_c, exec_ctrl_e, step,
    fetch_op, ack_irq, irq_taken, is_control, op_len, m8};

verus! {

/// INR and DCR leave the carry flag untouched.
pub proof fn lemma_inr_dcr_preserve_carry(n: u8, f: Flags)
    ensures
        spec_inr(n, f).1.c == f.c,
        spec_dcr(n, f).1.c == f.c,
{
}

/// The carry rules of the accumulator group: addition carry, subtraction
/// borrow, and the logic instructions always clearing carry.
pub proof fn lemma_alu_carry_rules(a: u8, n: u8, cin: bool)
    ensures
        spec_add(a, n).1.c == (a + n > 255),
        spec_adc(a, n, cin).1.c == (a + n + (if cin {
            1int
        } else {
            0int
        }) > 255),
        spec_sub(a, n).1.c == (a < n),
        spec_sbb(a, n, cin).1.c == (a < n + (if cin {
            1int
        } else {
            0int
        })),
        spec_ana(a, n).1.c == false,
        spec_xra(a, n).1.c == false,
        spec_ora(a, n).1.c == false,
{
}

/// The parity flag of every accumulator operation is set exactly when the
/// result byte has an even number of set bits.
pub proof fn lemma_parity_rule(a: u8, n: u8, cin: bool, f: Flags)
    ensures
        spec_add(a, n).1.p == parity_even(spec_add(a, n).0),
        spec_adc(a, n, cin).1.p == parity_even(spec_adc(a, n, cin).0),
        spec_sub(a, n).1.p == parity_even(spec_sub(a, n).0),
        spec_sbb(a, n, cin).1.p == parity_even(spec_sbb(a, n, cin).0),
        spec_ana(a, n).1.p == parity_even(spec_ana(a, n).0),
        spec_xra(a, n).1.p == parity_even(spec_xra(a, n).0),
        spec_ora(a, n).1.p == parity_even(spec_ora(a, n).0),
        spec_inr(n, f).1.p == parity_even(spec_inr(n, f).0),
        spec_dcr(n, f).1.p == parity_even(spec_dcr(n, f).0),
{
}

proof fn lemma_misc_keeps_pc(s: CpuView, op: u8)
    requires
        op < 0x40,
    ensures
        exec_misc(s, op).pc == s.pc,
{
    reveal(exec_misc);
}

proof fn lemma_mov_keeps_pc(s: CpuView, op: u8)
    requires
        0x40 <= op < 0x80,
    ensures
        exec_mov(s, op).pc == s.pc,
{
    reveal(exec_mov);
}

proof fn lemma_alu_keeps_pc(s: CpuView, op: u8)
    requires
        0x80 <= op < 0xc0,
    ensures
        exec_alu(s, op).pc == s.pc,
{
    reveal(exec_alu);
}

proof fn lemma_ctrl_c_keeps_pc(s: CpuView, op: u8)
    requires
        0xc0 <= op < 0xe0,
        !is_control(op),
    ensures
        exec_ctrl_c(s, op, true).pc == s.pc,
        exec_ctrl_c(s, op, false).pc == s.pc,
{
    reveal(exec_ctrl_c);
}

proof fn lemma_ctrl_e_keeps_pc(s: CpuView, op: u8)
    requires
        0xe0 <= op,
        !is_control(op),
    ensures
        exec_ctrl_e(s, op, true).pc == s.pc,
        exec_ctrl_e(s, op, false).pc == s.pc,
{
    reveal(exec_ctrl_e);
}

/// PC advancement: for every opcode outside the control-transfer set, one
/// step moves PC forward by exactly the length-table entry of the opcode.
pub proof fn lemma_pc_advance(s: CpuView)
    requires
        !s.halt,
        !is_control(fetch_op(s)),
    ensures
        step(s).pc == s.pc.wrapping_add(op_len(fetch_op(s))),
{
    let op = fetch_op(s);
    let s1 = ack_irq(s);
    if op < 0x40 {
        lemma_misc_keeps_pc(s1, op);
    } else if op < 0x80 {
        lemma_mov_keeps_pc(s1, op);
    } else if op < 0xc0 {
        lemma_alu_keeps_pc(s1, op);
    } else if op < 0xe0 {
        lemma_ctrl_c_keeps_pc(s1, op);
    } else {
        lemma_ctrl_e_keeps_pc(s1, op);
    }
}

/// CMP never changes the accumulator: a step that executes any of the CMP
/// or CPI opcodes leaves A as it was.
pub proof fn lemma_cmp_preserves_a(s: CpuView)
    requires
        !s.halt,
        0xb8 <= fetch_op(s) < 0xc0 || fetch_op(s) == 0xfe,
    ensures
        step(s).regs.a == s.regs.a,
{
    reveal(exec_alu);
    reveal(exec_ctrl_e);
}

/// PUSH then POP of the same register pair restores the pair and leaves SP
/// where it started. The stack cell must lie outside the read-only window
/// and must not overlap the POP instruction itself.
pub proof fn lemma_push_pop_roundtrip(s: CpuView, push_op: u8)
    requires
        s.bus.wf(),
        !s.halt,
        !irq_taken(s),
        push_op == 0xc5 || push_op == 0xd5 || push_op == 0xe5,
        m8(s, s.pc) == push_op,
        m8(s, s.pc.wrapping_add(1)) == push_op - 4,
        !in_rom(s.bus.rom, s.sp.wrapping_sub(2)),
        !in_rom(s.bus.rom, s.sp.wrapping_sub(1)),
        s.sp.wrapping_sub(2) != s.pc.wrapping_add(1),
        s.sp.wrapping_sub(1) != s.pc.wrapping_add(1),
    ensures
        step(step(s)).regs.b == s.regs.b,
        step(step(s)).regs.c == s.regs.c,
        step(step(s)).regs.d == s.regs.d,
        step(step(s)).regs.e == s.regs.e,
        step(step(s)).regs.h == s.regs.h,
        step(step(s)).regs.l == s.regs.l,
        step(step(s)).sp == s.sp,
{
    reveal(exec_ctrl_c);
    reveal(exec_ctrl_e);
    let sp2 = s.sp.wrapping_sub(2);
    if push_op == 0xc5 {
        crate::memory::lemma_word_roundtrip(s.bus, sp2, s.regs.bc());
        lemma_word_parts(s.regs.b, s.regs.c);
    } else if push_op == 0xd5 {
        crate::memory::lemma_word_roundtrip(s.bus, sp2, s.regs.de());
        lemma_word_parts(s.regs.d, s.regs.e);
    } else {
        crate::memory::lemma_word_roundtrip(s.bus, sp2, s.regs.hl());
        lemma_word_parts(s.regs.h, s.regs.l);
    }
}

/// PUSH PSW then POP PSW restores the accumulator and every condition bit,
/// and leaves SP where it started, under the same stack-cell conditions.
pub proof fn lemma_push_pop_psw_roundtrip(s: CpuView)
    requires
        s.bus.wf(),
        !s.halt,
        !irq_taken(s),
        m8(s, s.pc) == 0xf5,
        m8(s, s.pc.wrapping_add(1)) == 0xf1,
        !in_rom(s.bus.rom, s.sp.wrapping_sub(2)),
        !in_rom(s.bus.rom, s.sp.wrapping_sub(1)),
        s.sp.wrapping_sub(2) != s.pc.wrapping_add(1),
        s.sp.wrapping_sub(1) != s.pc.wrapping_add(1),
    ensures
        step(step(s)).regs.a == s.regs.a,
        step(step(s)).flags == s.flags,
        step(step(s)).sp == s.sp,
{
    reveal(exec_ctrl_e);
    lemma_psw_roundtrip(s.flags);
}

} // verus!
