//! An Intel 8080 microprocessor core: the full 256-opcode instruction set,
//! flag semantics, stack and interrupt discipline, cycle accounting, a
//! byte-addressed bus with an optional read-only window and an I/O-port
//! surface, and a disassembler.
//!
//! Every execution step is specified by the state function
//! [`state::step`]: [`CPU::execute`] is proved to carry the machine from a
//! state to exactly `step` of that state and to return exactly
//! [`state::step_cycles`] cycles.

pub mod alu;
pub mod bits;
pub mod dasm;
pub mod flags;
pub mod hex;
pub mod laws;
pub mod memory;
pub mod register;
pub mod state;

use vstd::prelude::*;
use vstd::string::StringExecFns;
use crate::alu::{spec_add, spec_adc, spec_sub, spec_sbb, spec_ana, spec_xra, spec_ora, spec_inr,
    spec_dcr, spec_dad, spec_daa};
use crate::bits::{hi8, lo8};
use crate::dasm::dasm_seq;
use crate::flags::Flags;
use crate::memory::Bus;
use crate::register::Registers;
use crate::state::{CpuView, DebugView, exec_misc, exec_mov, exec_alu, exec_ctrl, exec_ctrl_c,
    exec_ctrl_e, step_op, step, step_cycles, extra_cycles, cycles_for, trace_text, st_acc,
    st_cmp, st_push, st_ret, rst_opcode, bit_str};
use crate::hex::{push_hex2, push_hex4};
use std::time::SystemTime;

verus! {

#[verifier::external_type_specification]
#[verifier::external_body]
pub struct ExSystemTime(SystemTime);

/// Relies on std::time::SystemTime::now for the wall clock. Nothing is
/// assumed of the value.
#[verifier::external_body]
fn time_now() -> SystemTime {
    SystemTime::now()
}

/// Relies on std::time::SystemTime::elapsed: the milliseconds since the
/// given instant, or None when the clock cannot tell. Nothing is assumed of
/// the value.
#[verifier::external_body]
fn elapsed_ms(t: &SystemTime) -> Option<u32> {
    match t.elapsed() {
        Ok(d) => Some(d.as_millis() as u32),
        Err(_) => None,
    }
}

/// The debug switchboard: when `switch` is on, each executed instruction
/// leaves a trace line in `string`.
pub struct Debug {
    /// Enables the trace-line generation.
    pub switch: bool,
    /// Debug for IO messages.
    pub io: bool,
    /// The latest trace line.
    pub string: String,
}

impl View for Debug {
    type V = DebugView;

    open spec fn view(&self) -> DebugView {
        DebugView { switch: self.switch, io: self.io, text: self.string@ }
    }
}

impl Debug {
    pub fn new() -> (r: Debug)
        ensures
            r@ == (DebugView { switch: false, io: false, text: Seq::<char>::empty() }),
    {
        Debug { switch: false, io: false, string: String::new() }
    }
}

/// The processor: registers, flags, PC, SP, the bus, the halt and interrupt
/// latches, the pending-interrupt slot, the debug switchboard and the pacing
/// counters.
pub struct CPU {
    pub registers: Registers,
    pub flags: Flags,
    pub pc: u16,
    pub sp: u16,
    pub bus: Bus,
    pub halt: bool,
    /// Pending interrupt: armed flag and the opcode to inject (normally one
    /// of the RST opcodes).
    pub irq: (bool, u8),
    /// Interrupt-enable latch.
    pub inte: bool,
    pub debug: Debug,
    // Milliseconds per pacing slice; defaults to 16 (1/60 s).
    slice_duration: u32,
    // Cycle budget per slice; defaults to 35,000 per 16 ms (2.1 MHz).
    slice_max_cycles: u32,
    slice_current_cycles: u32,
    slice_start_time: SystemTime,
}

impl View for CPU {
    type V = CpuView;

    closed spec fn view(&self) -> CpuView {
        CpuView {
            regs: self.registers,
            flags: self.flags,
            pc: self.pc,
            sp: self.sp,
            bus: self.bus@,
            halt: self.halt,
            inte: self.inte,
            irq: self.irq,
            dbg: self.debug@,
            slice_duration: self.slice_duration,
            slice_max_cycles: self.slice_max_cycles,
            slice_current_cycles: self.slice_current_cycles,
        }
    }
}

impl CPU {
    /// A CPU in its power-on state: everything zero, interrupts disabled, no
    /// read-only window, default pacing.
    pub fn new() -> (r: CPU)
        ensures
            r@.bus.wf(),
            r@.regs == (Registers { a: 0, b: 0, c: 0, d: 0, e: 0, h: 0, l: 0 }),
            r@.flags == (Flags { s: false, z: false, a: false, p: false, c: false }),
            r@.pc == 0,
            r@.sp == 0,
            r@.bus.mem == Seq::new(0x10000, |i: int| 0u8),
            r@.bus.rom is None,
            r@.bus.pin == Seq::new(0x100, |i: int| 0u8),
            r@.bus.pout is None,
            !r@.halt,
            !r@.inte,
            r@.irq == (false, 0u8),
            r@.dbg == (DebugView { switch: false, io: false, text: Seq::<char>::empty() }),
            r@.slice_duration == 16,
            r@.slice_max_cycles == 35000,
            r@.slice_current_cycles == 0,
    {
        CPU {
            registers: Registers::new(),
            flags: Flags::new(),
            pc: 0,
            sp: 0,
            bus: Bus::new(),
            halt: false,
            irq: (false, 0),
            inte: false,
            debug: Debug::new(),
            slice_duration: 16,
            slice_max_cycles: 35000,
            slice_current_cycles: 0,
            slice_start_time: time_now(),
        }
    }

    /// Arms the pending-interrupt slot with the opcode to inject; it is
    /// taken at the next fetch once interrupts are enabled.
    pub fn set_pending_interrupt(&mut self, opcode: u8)
        ensures
            final(self)@ == (CpuView { irq: (true, opcode), ..old(self)@ }),
    {
        self.irq = (true, opcode);
    }

    /// Sets the pacing-slice length in milliseconds.
    pub fn set_slice_ms(&mut self, ms: u32)
        ensures
            final(self)@ == (CpuView { slice_duration: ms, ..old(self)@ }),
    {
        self.slice_duration = ms;
    }

    /// Sets the clock rate in Hz by recomputing the per-slice cycle budget.
    pub fn set_clock_hz(&mut self, hz: u32)
        requires
            0 < old(self)@.slice_duration <= 1000,
        ensures
            final(self)@ == (CpuView {
                slice_max_cycles: hz / (1000u32 / old(self)@.slice_duration),
                ..old(self)@
            }),
    {
        let d = self.slice_duration;
        proof {
            assert(1000u32 / d >= 1) by (nonlinear_arith)
                requires 0 < d <= 1000;
        }
        self.slice_max_cycles = hz / (1000 / d);
    }

    /// Increment: result and flags of adding one, carry untouched.
    fn inr(&mut self, n: u8) -> (r: u8)
        ensures
            r == spec_inr(n, old(self).flags).0,
            final(self)@ == (CpuView { flags: spec_inr(n, old(self).flags).1, ..old(self)@ }),
    {
        let r = n.wrapping_add(1);
        self.flags.z = r == 0x00;
        self.flags.s = r >= 0x80;
        self.flags.p = crate::bits::parity(r);
        self.flags.a = n % 16 + 1 > 15;
        r
    }

    /// Decrement: result and flags of subtracting one, carry untouched.
    fn dcr(&mut self, n: u8) -> (r: u8)
        ensures
            r == spec_dcr(n, old(self).flags).0,
            final(self)@ == (CpuView { flags: spec_dcr(n, old(self).flags).1, ..old(self)@ }),
    {
        let r = n.wrapping_sub(1);
        self.flags.z = r == 0x00;
        self.flags.s = r >= 0x80;
        self.flags.p = crate::bits::parity(r);
        self.flags.a = r % 16 != 15;
        r
    }

    /// ADD register or memory to the accumulator.
    fn add(&mut self, n: u8)
        ensures
            final(self)@ == st_acc(old(self)@, spec_add(old(self).registers.a, n)),
    {
        let a = self.registers.a;
        let r = a.wrapping_add(n);
        self.flags.z = r == 0x00;
        self.flags.s = r >= 0x80;
        self.flags.p = crate::bits::parity(r);
        self.flags.a = a % 16 + n % 16 > 15;
        self.flags.c = (a as u16) + (n as u16) > 0xff;
        self.registers.a = r;
    }

    /// ADC: add with the incoming carry.
    fn adc(&mut self, n: u8)
        ensures
            final(self)@ == st_acc(
                old(self)@,
                spec_adc(old(self).registers.a, n, old(self).flags.c),
            ),
    {
        let c: u8 = if self.flags.c {
            1
        } else {
            0
        };
        let a = self.registers.a;
        let r = a.wrapping_add(n).wrapping_add(c);
        self.flags.z = r == 0x00;
        self.flags.s = r >= 0x80;
        self.flags.p = crate::bits::parity(r);
        self.flags.a = a % 16 + n % 16 + c > 15;
        self.flags.c = (a as u16) + (n as u16) + (c as u16) > 0xff;
        self.registers.a = r;
    }

    /// SUB register or memory from the accumulator.
    fn sub(&mut self, n: u8)
        ensures
            final(self)@ == st_acc(old(self)@, spec_sub(old(self).registers.a, n)),
    {
        let a = self.registers.a;
        let r = a.wrapping_sub(n);
        self.flags.z = r == 0x00;
        self.flags.s = r >= 0x80;
        self.flags.p = crate::bits::parity(r);
        self.flags.a = a % 16 >= n % 16;
        self.flags.c = (a as u16) < (n as u16);
        self.registers.a = r;
    }

    /// SBB: subtract with the incoming borrow.
    fn sbb(&mut self, n: u8)
        ensures
            final(self)@ == st_acc(
                old(self)@,
                spec_sbb(old(self).registers.a, n, old(self).flags.c),
            ),
    {
        let c: u8 = if self.flags.c {
            1
        } else {
            0
        };
        let a = self.registers.a;
        let r = a.wrapping_sub(n.wrapping_add(c));
        self.flags.z = r == 0x00;
        self.flags.s = r >= 0x80;
        self.flags.p = crate::bits::parity(r);
        self.flags.a = a % 16 >= n % 16 + c;
        self.flags.c = (a as u16) < (n as u16) + (c as u16);
        self.registers.a = r;
    }

    /// ANA: logical AND with the accumulator.
    fn ana(&mut self, n: u8)
        ensures
            final(self)@ == st_acc(old(self)@, spec_ana(old(self).registers.a, n)),
    {
        let r = self.registers.a & n;
        self.flags.z = r == 0x00;
        self.flags.s = r >= 0x80;
        self.flags.p = crate::bits::parity(r);
        self.flags.a = (n | self.registers.a) & 0x08 != 0;
        self.flags.c = false;
        self.registers.a = r;
    }

    /// XRA: logical exclusive OR with the accumulator.
    fn xra(&mut self, n: u8)
        ensures
            final(self)@ == st_acc(old(self)@, spec_xra(old(self).registers.a, n)),
    {
        let r = self.registers.a ^ n;
        self.flags.z = r == 0x00;
        self.flags.s = r >= 0x80;
        self.flags.p = crate::bits::parity(r);
        self.flags.c = false;
        self.flags.a = false;
        self.registers.a = r;
    }

    /// ORA: logical OR with the accumulator.
    fn ora(&mut self, n: u8)
        ensures
            final(self)@ == st_acc(old(self)@, spec_ora(old(self).registers.a, n)),
    {
        let r = self.registers.a | n;
        self.flags.z = r == 0x00;
        self.flags.s = r >= 0x80;
        self.flags.p = crate::bits::parity(r);
        self.flags.c = false;
        self.flags.a = false;
        self.registers.a = r;
    }

    /// CMP: the flags of the comparison; the accumulator is unchanged.
    fn cmp(&mut self, n: u8)
        ensures
            final(self)@ == st_cmp(old(self)@, n),
    {
        let r = self.registers.a;
        self.sub(n);
        self.registers.a = r;
    }

    /// DAD: 16-bit add into HL; only carry is touched.
    fn dad(&mut self, n: u16)
        ensures
            final(self)@ == (CpuView {
                regs: Registers {
                    h: hi8(spec_dad(old(self)@.regs.hl(), n).0),
                    l: lo8(spec_dad(old(self)@.regs.hl(), n).0),
                    ..old(self)@.regs
                },
                flags: Flags { c: spec_dad(old(self)@.regs.hl(), n).1, ..old(self)@.flags },
                ..old(self)@
            }),
    {
        let h = self.registers.get_hl();
        let r = h.wrapping_add(n);
        self.registers.set_hl(r);
        self.flags.c = (h as u32) + (n as u32) > 0xffff;
    }

    /// XCHG: swaps DE with HL.
    fn xchg(&mut self)
        ensures
            final(self)@ == (CpuView {
                regs: Registers {
                    d: old(self)@.regs.h,
                    e: old(self)@.regs.l,
                    h: old(self)@.regs.d,
                    l: old(self)@.regs.e,
                    ..old(self)@.regs
                },
                ..old(self)@
            }),
    {
        let d = self.registers.d;
        let e = self.registers.e;
        let h = self.registers.h;
        let l = self.registers.l;
        self.registers.d = h;
        self.registers.e = l;
        self.registers.h = d;
        self.registers.l = e;
    }

    /// DAA: decimal adjust of the accumulator.
    fn daa(&mut self)
        ensures
            final(self)@ == st_acc(old(self)@, spec_daa(old(self).registers.a, old(self).flags)),
    {
        let mut inc_a: u8 = 0;
        let mut c = self.flags.c;
        let lsb = self.registers.a % 16;
        if lsb > 9 || self.flags.a {
            inc_a += 0x06;
        }
        let msb = self.registers.a / 16;
        if msb > 9 || self.flags.c || (msb >= 9 && lsb > 9) {
            inc_a += 0x60;
            c = true;
        }
        self.add(inc_a);
        self.flags.c = c;
    }

    /// Pushes the address past a 3-byte call instruction.
    fn subroutine_stack_push(&mut self)
        requires
            old(self)@.bus.wf(),
        ensures
            final(self)@ == st_push(old(self)@, old(self)@.pc.wrapping_add(3)),
            final(self)@.bus.wf(),
    {
        self.sp = self.sp.wrapping_sub(2);
        let v = self.pc.wrapping_add(3);
        self.bus.write_word(self.sp, v);
    }

    /// Pops the return address into PC.
    fn subroutine_stack_pop(&mut self)
        requires
            old(self)@.bus.wf(),
        ensures
            final(self)@ == st_ret(old(self)@),
    {
        self.pc = self.bus.read_word(self.sp);
        self.sp = self.sp.wrapping_add(2);
    }

    /// Pushes PC itself, for restarts and interrupt entry.
    fn interrupt_stack_push(&mut self)
        requires
            old(self)@.bus.wf(),
        ensures
            final(self)@ == st_push(old(self)@, old(self)@.pc),
            final(self)@.bus.wf(),
    {
        self.sp = self.sp.wrapping_sub(2);
        let v = self.pc;
        self.bus.write_word(self.sp, v);
    }

    /// Disassembles the instruction at an address.
    pub fn dasm(&self, address: u16) -> (r: String)
        requires
            self@.bus.wf(),
        ensures
            r@ == dasm_seq(self@.bus, address),
    {
        crate::dasm::disassemble(&self.bus, address)
    }

    /// Executes one opcode of the 0x00-0x3f group.
    #[verifier::spinoff_prover]
    #[verifier::rlimit(100)]
    fn run_misc(&mut self, opcode: u8)
        requires
            old(self)@.bus.wf(),
            opcode < 0x40,
        ensures
            final(self)@ == exec_misc(old(self)@, opcode),
            final(self)@.bus.wf(),
            final(self)@.dbg == old(self)@.dbg,
    {
        proof {
            reveal(exec_misc);
        }
        match opcode {
            0x00 => {},
            0x01 => {
                let d16 = self.bus.read_word(self.pc.wrapping_add(1));
                self.registers.set_bc(d16);
            },
            0x02 => {
                let addr = self.registers.get_bc();
                let v = self.registers.a;
                self.bus.write_byte(addr, v);
            },
            0x03 => {
                let v = self.registers.get_bc().wrapping_add(1);
                self.registers.set_bc(v);
            },
            0x04 => {
                let n = self.registers.b;
                self.registers.b = self.inr(n);
            },
            0x05 => {
                let n = self.registers.b;
                self.registers.b = self.dcr(n);
            },
            0x06 => {
                let d8 = self.bus.read_byte(self.pc.wrapping_add(1));
                self.registers.b = d8;
            },
            0x07 => {
                let a = self.registers.a;
                let c = a >= 0x80;
                self.flags.c = c;
                self.registers.a = a % 128 * 2 + if c {
                    1
                } else {
                    0
                };
            },
            0x09 => {
                let reg = self.registers.get_bc();
                self.dad(reg);
            },
            0x0a => {
                let addr = self.registers.get_bc();
                self.registers.a = self.bus.read_byte(addr);
            },
            0x0b => {
                let v = self.registers.get_bc().wrapping_sub(1);
                self.registers.set_bc(v);
            },
            0x0c => {
                let n = self.registers.c;
                self.registers.c = self.inr(n);
            },
            0x0d => {
                let n = self.registers.c;
                self.registers.c = self.dcr(n);
            },
            0x0e => {
                let d8 = self.bus.read_byte(self.pc.wrapping_add(1));
                self.registers.c = d8;
            },
            0x0f => {
                let a = self.registers.a;
                let c = a % 2 == 1;
                self.flags.c = c;
                self.registers.a = a / 2 + if c {
                    128
                } else {
                    0
                };
            },
            0x11 => {
                let d16 = self.bus.read_word(self.pc.wrapping_add(1));
                self.registers.set_de(d16);
            },
            0x12 => {
                let addr = self.registers.get_de();
                let v = self.registers.a;
                self.bus.write_byte(addr, v);
            },
            0x13 => {
                let v = self.registers.get_de().wrapping_add(1);
                self.registers.set_de(v);
            },
            0x14 => {
                let n = self.registers.d;
                self.registers.d = self.inr(n);
            },
            0x15 => {
                let n = self.registers.d;
                self.registers.d = self.dcr(n);
            },
            0x16 => {
                let d8 = self.bus.read_byte(self.pc.wrapping_add(1));
                self.registers.d = d8;
            },
            0x17 => {
                let a = self.registers.a;
                let cin = self.flags.c;
                self.flags.c = a >= 0x80;
                self.registers.a = a % 128 * 2 + if cin {
                    1
                } else {
                    0
                };
            },
            0x19 => {
                let reg = self.registers.get_de();
                self.dad(reg);
            },
            0x1a => {
                let addr = self.registers.get_de();
                self.registers.a = self.bus.read_byte(addr);
            },
            0x1b => {
                let v = self.registers.get_de().wrapping_sub(1);
                self.registers.set_de(v);
            },
            0x1c => {
                let n = self.registers.e;
                self.registers.e = self.inr(n);
            },
            0x1d => {
                let n = self.registers.e;
                self.registers.e = self.dcr(n);
            },
            0x1e => {
                let d8 = self.bus.read_byte(self.pc.wrapping_add(1));
                self.registers.e = d8;
            },
            0x1f => {
                let a = self.registers.a;
                let cin = self.flags.c;
                self.flags.c = a % 2 == 1;
                self.registers.a = a / 2 + if cin {
                    128
                } else {
                    0
                };
            },
            0x21 => {
                let d16 = self.bus.read_word(self.pc.wrapping_add(1));
                self.registers.set_hl(d16);
            },
            0x22 => {
                let d = self.registers.get_hl();
                let addr = self.bus.read_word(self.pc.wrapping_add(1));
                self.bus.write_word(addr, d);
            },
            0x23 => {
                let v = self.registers.get_hl().wrapping_add(1);
                self.registers.set_hl(v);
            },
            0x24 => {
                let n = self.registers.h;
                self.registers.h = self.inr(n);
            },
            0x25 => {
                let n = self.registers.h;
                self.registers.h = self.dcr(n);
            },
            0x26 => {
                let d8 = self.bus.read_byte(self.pc.wrapping_add(1));
                self.registers.h = d8;
            },
            0x27 => self.daa(),
            0x29 => {
                let reg = self.registers.get_hl();
                self.dad(reg);
            },
            0x2a => {
                let addr = self.bus.read_word(self.pc.wrapping_add(1));
                let d = self.bus.read_word(addr);
                self.registers.set_hl(d);
            },
            0x2b => {
                let v = self.registers.get_hl().wrapping_sub(1);
                self.registers.set_hl(v);
            },
            0x2c => {
                let n = self.registers.l;
                self.registers.l = self.inr(n);
            },
            0x2d => {
                let n = self.registers.l;
                self.registers.l = self.dcr(n);
            },
            0x2e => {
                let d8 = self.bus.read_byte(self.pc.wrapping_add(1));
                self.registers.l = d8;
            },
            0x2f => self.registers.a = !self.registers.a,
            0x31 => {
                let d16 = self.bus.read_word(self.pc.wrapping_add(1));
                self.sp = d16;
            },
            0x32 => {
                let addr = self.bus.read_word(self.pc.wrapping_add(1));
                let v = self.registers.a;
                self.bus.write_byte(addr, v);
            },
            0x33 => self.sp = self.sp.wrapping_add(1),
            0x34 => {
                let addr = self.registers.get_hl();
                let n = self.bus.read_byte(addr);
                let v = self.inr(n);
                self.bus.write_byte(addr, v);
            },
            0x35 => {
                let addr = self.registers.get_hl();
                let n = self.bus.read_byte(addr);
                let v = self.dcr(n);
                self.bus.write_byte(addr, v);
            },
            0x36 => {
                let d8 = self.bus.read_byte(self.pc.wrapping_add(1));
                let addr = self.registers.get_hl();
                self.bus.write_byte(addr, d8);
            },
            0x37 => self.flags.c = true,
            0x39 => {
                let reg = self.sp;
                self.dad(reg);
            },
            0x3a => {
                let addr = self.bus.read_word(self.pc.wrapping_add(1));
                self.registers.a = self.bus.read_byte(addr);
            },
            0x3b => self.sp = self.sp.wrapping_sub(1),
            0x3c => {
                let n = self.registers.a;
                self.registers.a = self.inr(n);
            },
            0x3d => {
                let n = self.registers.a;
                self.registers.a = self.dcr(n);
            },
            0x3e => {
                let d8 = self.bus.read_byte(self.pc.wrapping_add(1));
                self.registers.a = d8;
            },
            0x3f => self.flags.c = !self.flags.c,
            _ => {},
        }
    }

    /// Executes one opcode of the 0x40-0x7f group: the moves and HLT.
    #[verifier::spinoff_prover]
    #[verifier::rlimit(100)]
    fn run_mov(&mut self, opcode: u8)
        requires
            old(self)@.bus.wf(),
            0x40 <= opcode < 0x80,
        ensures
            final(self)@ == exec_mov(old(self)@, opcode),
            final(self)@.bus.wf(),
            final(self)@.dbg == old(self)@.dbg,
    {
        proof {
            reveal(exec_mov);
        }
        match opcode {
            0x40 => {},
            0x41 => self.registers.b = self.registers.c,
            0x42 => self.registers.b = self.registers.d,
            0x43 => self.registers.b = self.registers.e,
            0x44 => self.registers.b = self.registers.h,
            0x45 => self.registers.b = self.registers.l,
            0x46 => {
                let addr = self.registers.get_hl();
                self.registers.b = self.bus.read_byte(addr);
            },
            0x47 => self.registers.b = self.registers.a,
            0x48 => self.registers.c = self.registers.b,
            0x49 => {},
            0x4a => self.registers.c = self.registers.d,
            0x4b => self.registers.c = self.registers.e,
            0x4c => self.registers.c = self.registers.h,
            0x4d => self.registers.c = self.registers.l,
            0x4e => {
                let addr = self.registers.get_hl();
                self.registers.c = self.bus.read_byte(addr);
            },
            0x4f => self.registers.c = self.registers.a,
            0x50 => self.registers.d = self.registers.b,
            0x51 => self.registers.d = self.registers.c,
            0x52 => {},
            0x53 => self.registers.d = self.registers.e,
            0x54 => self.registers.d = self.registers.h,
            0x55 => self.registers.d = self.registers.l,
            0x56 => {
                let addr = self.registers.get_hl();
                self.registers.d = self.bus.read_byte(addr);
            },
            0x57 => self.registers.d = self.registers.a,
            0x58 => self.registers.e = self.registers.b,
            0x59 => self.registers.e = self.registers.c,
            0x5a => self.registers.e = self.registers.d,
            0x5b => {},
            0x5c => self.registers.e = self.registers.h,
            0x5d => self.registers.e = self.registers.l,
            0x5e => {
                let addr = self.registers.get_hl();
                self.registers.e = self.bus.read_byte(addr);
            },
            0x5f => self.registers.e = self.registers.a,
            0x60 => self.registers.h = self.registers.b,
            0x61 => self.registers.h = self.registers.c,
            0x62 => self.registers.h = self.registers.d,
            0x63 => self.registers.h = self.registers.e,
            0x64 => {},
            0x65 => self.registers.h = self.registers.l,
            0x66 => {
                let addr = self.registers.get_hl();
                self.registers.h = self.bus.read_byte(addr);
            },
            0x67 => self.registers.h = self.registers.a,
            0x68 => self.registers.l = self.registers.b,
            0x69 => self.registers.l = self.registers.c,
            0x6a => self.registers.l = self.registers.d,
            0x6b => self.registers.l = self.registers.e,
            0x6c => self.registers.l = self.registers.h,
            0x6d => {},
            0x6e => {
                let addr = self.registers.get_hl();
                self.registers.l = self.bus.read_byte(addr);
            },
            0x6f => self.registers.l = self.registers.a,
            0x70 => {
                let addr = self.registers.get_hl();
                let v = self.registers.b;
                self.bus.write_byte(addr, v);
            },
            0x71 => {
                let addr = self.registers.get_hl();
                let v = self.registers.c;
                self.bus.write_byte(addr, v);
            },
            0x72 => {
                let addr = self.registers.get_hl();
                let v = self.registers.d;
                self.bus.write_byte(addr, v);
            },
            0x73 => {
                let addr = self.registers.get_hl();
                let v = self.registers.e;
                self.bus.write_byte(addr, v);
            },
            0x74 => {
                let addr = self.registers.get_hl();
                let v = self.registers.h;
                self.bus.write_byte(addr, v);
            },
            0x75 => {
                let addr = self.registers.get_hl();
                let v = self.registers.l;
                self.bus.write_byte(addr, v);
            },
            0x76 => self.halt = true,
            0x77 => {
                let addr = self.registers.get_hl();
                let v = self.registers.a;
                self.bus.write_byte(addr, v);
            },
            0x78 => self.registers.a = self.registers.b,
            0x79 => self.registers.a = self.registers.c,
            0x7a => self.registers.a = self.registers.d,
            0x7b => self.registers.a = self.registers.e,
            0x7c => self.registers.a = self.registers.h,
            0x7d => self.registers.a = self.registers.l,
            0x7e => {
                let addr = self.registers.get_hl();
                self.registers.a = self.bus.read_byte(addr);
            },
            0x7f => {},
            _ => {},
        }
    }

    /// Executes one opcode of the 0x80-0xbf group: accumulator arithmetic
    /// and logic.
    #[verifier::spinoff_prover]
    #[verifier::rlimit(100)]
    fn run_alu(&mut self, opcode: u8)
        requires
            old(self)@.bus.wf(),
            0x80 <= opcode < 0xc0,
        ensures
            final(self)@ == exec_alu(old(self)@, opcode),
            final(self)@.bus.wf(),
            final(self)@.dbg == old(self)@.dbg,
    {
        proof {
            reveal(exec_alu);
        }
        match opcode {
            0x80 => {
                let n = self.registers.b;
                self.add(n);
            },
            0x81 => {
                let n = self.registers.c;
                self.add(n);
            },
            0x82 => {
                let n = self.registers.d;
                self.add(n);
            },
            0x83 => {
                let n = self.registers.e;
                self.add(n);
            },
            0x84 => {
                let n = self.registers.h;
                self.add(n);
            },
            0x85 => {
                let n = self.registers.l;
                self.add(n);
            },
            0x86 => {
                let addr = self.registers.get_hl();
                let n = self.bus.read_byte(addr);
                self.add(n);
            },
            0x87 => {
                let n = self.registers.a;
                self.add(n);
            },
            0x88 => {
                let n = self.registers.b;
                self.adc(n);
            },
            0x89 => {
                let n = self.registers.c;
                self.adc(n);
            },
            0x8a => {
                let n = self.registers.d;
                self.adc(n);
            },
            0x8b => {
                let n = self.registers.e;
                self.adc(n);
            },
            0x8c => {
                let n = self.registers.h;
                self.adc(n);
            },
            0x8d => {
                let n = self.registers.l;
                self.adc(n);
            },
            0x8e => {
                let addr = self.registers.get_hl();
                let n = self.bus.read_byte(addr);
                self.adc(n);
            },
            0x8f => {
                let n = self.registers.a;
                self.adc(n);
            },
            0x90 => {
                let n = self.registers.b;
                self.sub(n);
            },
            0x91 => {
                let n = self.registers.c;
                self.sub(n);
            },
            0x92 => {
                let n = self.registers.d;
                self.sub(n);
            },
            0x93 => {
                let n = self.registers.e;
                self.sub(n);
            },
            0x94 => {
                let n = self.registers.h;
                self.sub(n);
            },
            0x95 => {
                let n = self.registers.l;
                self.sub(n);
            },
            0x96 => {
                let addr = self.registers.get_hl();
                let n = self.bus.read_byte(addr);
                self.sub(n);
            },
            0x97 => {
                let n = self.registers.a;
                self.sub(n);
            },
            0x98 => {
                let n = self.registers.b;
                self.sbb(n);
            },
            0x99 => {
                let n = self.registers.c;
                self.sbb(n);
            },
            0x9a => {
                let n = self.registers.d;
                self.sbb(n);
            },
            0x9b => {
                let n = self.registers.e;
                self.sbb(n);
            },
            0x9c => {
                let n = self.registers.h;
                self.sbb(n);
            },
            0x9d => {
                let n = self.registers.l;
                self.sbb(n);
            },
            0x9e => {
                let addr = self.registers.get_hl();
                let n = self.bus.read_byte(addr);
                self.sbb(n);
            },
            0x9f => {
                let n = self.registers.a;
                self.sbb(n);
            },
            0xa0 => {
                let n = self.registers.b;
                self.ana(n);
            },
            0xa1 => {
                let n = self.registers.c;
                self.ana(n);
            },
            0xa2 => {
                let n = self.registers.d;
                self.ana(n);
            },
            0xa3 => {
                let n = self.registers.e;
                self.ana(n);
            },
            0xa4 => {
                let n = self.registers.h;
                self.ana(n);
            },
            0xa5 => {
                let n = self.registers.l;
                self.ana(n);
            },
            0xa6 => {
                let addr = self.registers.get_hl();
                let n = self.bus.read_byte(addr);
                self.ana(n);
            },
            0xa7 => {
                let n = self.registers.a;
                self.ana(n);
            },
            0xa8 => {
                let n = self.registers.b;
                self.xra(n);
            },
            0xa9 => {
                let n = self.registers.c;
                self.xra(n);
            },
            0xaa => {
                let n = self.registers.d;
                self.xra(n);
            },
            0xab => {
                let n = self.registers.e;
                self.xra(n);
            },
            0xac => {
                let n = self.registers.h;
                self.xra(n);
            },
            0xad => {
                let n = self.registers.l;
                self.xra(n);
            },
            0xae => {
                let addr = self.registers.get_hl();
                let n = self.bus.read_byte(addr);
                self.xra(n);
            },
            0xaf => {
                let n = self.registers.a;
                self.xra(n);
            },
            0xb0 => {
                let n = self.registers.b;
                self.ora(n);
            },
            0xb1 => {
                let n = self.registers.c;
                self.ora(n);
            },
            0xb2 => {
                let n = self.registers.d;
                self.ora(n);
            },
            0xb3 => {
                let n = self.registers.e;
                self.ora(n);
            },
            0xb4 => {
                let n = self.registers.h;
                self.ora(n);
            },
            0xb5 => {
                let n = self.registers.l;
                self.ora(n);
            },
            0xb6 => {
                let addr = self.registers.get_hl();
                let n = self.bus.read_byte(addr);
                self.ora(n);
            },
            0xb7 => {
                let n = self.registers.a;
                self.ora(n);
            },
            0xb8 => {
                let n = self.registers.b;
                self.cmp(n);
            },
            0xb9 => {
                let n = self.registers.c;
                self.cmp(n);
            },
            0xba => {
                let n = self.registers.d;
                self.cmp(n);
            },
            0xbb => {
                let n = self.registers.e;
                self.cmp(n);
            },
            0xbc => {
                let n = self.registers.h;
                self.cmp(n);
            },
            0xbd => {
                let n = self.registers.l;
                self.cmp(n);
            },
            0xbe => {
                let addr = self.registers.get_hl();
                let n = self.bus.read_byte(addr);
                self.cmp(n);
            },
            0xbf => {
                let n = self.registers.a;
                self.cmp(n);
            },
            _ => {},
        }
    }

    /// Executes one opcode of the 0xc0-0xcf group and returns the cycles the
    /// taken path of a conditional call or return adds.
    #[verifier::spinoff_prover]
    #[verifier::rlimit(100)]
    fn run_ctrl_c0(&mut self, opcode: u8, direct: bool) -> (extra: u32)
        requires
            old(self)@.bus.wf(),
            0xc0 <= opcode < 0xd0,
        ensures
            final(self)@ == exec_ctrl_c(old(self)@, opcode, direct),
            final(self)@.bus.wf(),
            final(self)@.dbg == old(self)@.dbg,
            extra == extra_cycles(old(self)@, opcode),
    {
        proof {
            reveal(exec_ctrl_c);
        }
        let mut extra: u32 = 0;
        match opcode {
            0xc0 => {
                if !self.flags.z {
                    self.subroutine_stack_pop();
                    extra = 6;
                } else {
                    self.pc = self.pc.wrapping_add(1);
                }
            },
            0xc1 => {
                let w = self.bus.read_word(self.sp);
                self.registers.set_bc(w);
                self.sp = self.sp.wrapping_add(2);
            },
            0xc2 => {
                let addr = self.bus.read_word(self.pc.wrapping_add(1));
                if !self.flags.z {
                    self.pc = addr;
                } else {
                    self.pc = self.pc.wrapping_add(3);
                }
            },
            0xc3 => {
                let addr = self.bus.read_word(self.pc.wrapping_add(1));
                self.pc = addr;
            },
            0xc4 => {
                let addr = self.bus.read_word(self.pc.wrapping_add(1));
                if !self.flags.z {
                    self.subroutine_stack_push();
                    self.pc = addr;
                    extra = 6;
                } else {
                    self.pc = self.pc.wrapping_add(3);
                }
            },
            0xc5 => {
                self.sp = self.sp.wrapping_sub(2);
                let v = self.registers.get_bc();
                self.bus.write_word(self.sp, v);
            },
            0xc6 => {
                let n = self.bus.read_byte(self.pc.wrapping_add(1));
                self.add(n);
            },
            0xc7 => {
                if direct {
                    self.pc = self.pc.wrapping_add(1);
                }
                self.interrupt_stack_push();
                self.pc = 0x0000;
            },
            0xc8 => {
                if self.flags.z {
                    self.subroutine_stack_pop();
                    extra = 6;
                } else {
                    self.pc = self.pc.wrapping_add(1);
                }
            },
            0xc9 => self.subroutine_stack_pop(),
            0xca => {
                let addr = self.bus.read_word(self.pc.wrapping_add(1));
                if self.flags.z {
                    self.pc = addr;
                } else {
                    self.pc = self.pc.wrapping_add(3);
                }
            },
            0xcc => {
                let addr = self.bus.read_word(self.pc.wrapping_add(1));
                if self.flags.z {
                    self.subroutine_stack_push();
                    self.pc = addr;
                    extra = 6;
                } else {
                    self.pc = self.pc.wrapping_add(3);
                }
            },
            0xcd => {
                let addr = self.bus.read_word(self.pc.wrapping_add(1));
                self.subroutine_stack_push();
                self.pc = addr;
            },
            0xce => {
                let n = self.bus.read_byte(self.pc.wrapping_add(1));
                self.adc(n);
            },
            0xcf => {
                if direct {
                    self.pc = self.pc.wrapping_add(1);
                }
                self.interrupt_stack_push();
                self.pc = 0x0008;
            },
            _ => {},
        }
        extra
    }

    /// Executes one opcode of the 0xd0-0xdf group and returns the cycles the
    /// taken path of a conditional call or return adds.
    #[verifier::spinoff_prover]
    #[verifier::rlimit(100)]
    fn run_ctrl_c1(&mut self, opcode: u8, direct: bool) -> (extra: u32)
        requires
            old(self)@.bus.wf(),
            0xd0 <= opcode < 0xe0,
        ensures
            final(self)@ == exec_ctrl_c(old(self)@, opcode, direct),
            final(self)@.bus.wf(),
            final(self)@.dbg == old(self)@.dbg,
            extra == extra_cycles(old(self)@, opcode),
    {
        proof {
            reveal(exec_ctrl_c);
        }
        let mut extra: u32 = 0;
        match opcode {
            0xd0 => {
                if !self.flags.c {
                    self.subroutine_stack_pop();
                    extra = 6;
                } else {
                    self.pc = self.pc.wrapping_add(1);
                }
            },
            0xd1 => {
                let w = self.bus.read_word(self.sp);
                self.registers.set_de(w);
                self.sp = self.sp.wrapping_add(2);
            },
            0xd2 => {
                let addr = self.bus.read_word(self.pc.wrapping_add(1));
                if !self.flags.c {
                    self.pc = addr;
                } else {
                    self.pc = self.pc.wrapping_add(3);
                }
            },
            0xd3 => {
                let device = self.bus.read_byte(self.pc.wrapping_add(1));
                let v = self.registers.a;
                self.bus.set_port_out(device, v);
            },
            0xd4 => {
                let addr = self.bus.read_word(self.pc.wrapping_add(1));
                if !self.flags.c {
                    self.subroutine_stack_push();
                    self.pc = addr;
                    extra = 6;
                } else {
                    self.pc = self.pc.wrapping_add(3);
                }
            },
            0xd5 => {
                self.sp = self.sp.wrapping_sub(2);
                let v = self.registers.get_de();
                self.bus.write_word(self.sp, v);
            },
            0xd6 => {
                let n = self.bus.read_byte(self.pc.wrapping_add(1));
                self.sub(n);
            },
            0xd7 => {
                if direct {
                    self.pc = self.pc.wrapping_add(1);
                }
                self.interrupt_stack_push();
                self.pc = 0x0010;
            },
            0xd8 => {
                if self.flags.c {
                    self.subroutine_stack_pop();
                    extra = 6;
                } else {
                    self.pc = self.pc.wrapping_add(1);
                }
            },
            0xda => {
                let addr = self.bus.read_word(self.pc.wrapping_add(1));
                if self.flags.c {
                    self.pc = addr;
                } else {
                    self.pc = self.pc.wrapping_add(3);
                }
            },
            0xdb => {
                let device = self.bus.read_byte(self.pc.wrapping_add(1));
                self.registers.a = self.bus.get_port_in(device);
            },
            0xdc => {
                let addr = self.bus.read_word(self.pc.wrapping_add(1));
                if self.flags.c {
                    self.subroutine_stack_push();
                    self.pc = addr;
                } else {
                    self.pc = self.pc.wrapping_add(3);
                }
            },
            0xde => {
                let n = self.bus.read_byte(self.pc.wrapping_add(1));
                self.sbb(n);
            },
            0xdf => {
                if direct {
                    self.pc = self.pc.wrapping_add(1);
                }
                self.interrupt_stack_push();
                self.pc = 0x0018;
            },
            _ => {},
        }
        extra
    }

    /// Executes one opcode of the 0xc0-0xdf group and returns the cycles the
    /// taken path of a conditional call or return adds.
    fn run_ctrl_c(&mut self, opcode: u8, direct: bool) -> (extra: u32)
        requires
            old(self)@.bus.wf(),
            0xc0 <= opcode < 0xe0,
        ensures
            final(self)@ == exec_ctrl(old(self)@, opcode, direct),
            final(self)@.bus.wf(),
            final(self)@.dbg == old(self)@.dbg,
            extra == extra_cycles(old(self)@, opcode),
    {
        if opcode < 0xd0 {
            self.run_ctrl_c0(opcode, direct)
        } else {
            self.run_ctrl_c1(opcode, direct)
        }
    }

    /// Executes one opcode of the 0xe0-0xff group and returns the cycles the
    /// taken path of a conditional call or return adds.
    #[verifier::spinoff_prover]
    #[verifier::rlimit(100)]
    fn run_ctrl_e(&mut self, opcode: u8, direct: bool) -> (extra: u32)
        requires
            old(self)@.bus.wf(),
            0xe0 <= opcode,
        ensures
            final(self)@ == exec_ctrl(old(self)@, opcode, direct),
            final(self)@.bus.wf(),
            final(self)@.dbg == old(self)@.dbg,
            extra == extra_cycles(old(self)@, opcode),
    {
        proof {
            reveal(exec_ctrl_e);
        }
        let mut extra: u32 = 0;
        match opcode {
            0xe0 => {
                if !self.flags.p {
                    self.subroutine_stack_pop();
                    extra = 6;
                } else {
                    self.pc = self.pc.wrapping_add(1);
                }
            },
            0xe1 => {
                let w = self.bus.read_word(self.sp);
                self.registers.set_hl(w);
                self.sp = self.sp.wrapping_add(2);
            },
            0xe2 => {
                let addr = self.bus.read_word(self.pc.wrapping_add(1));
                if !self.flags.p {
                    self.pc = addr;
                } else {
                    self.pc = self.pc.wrapping_add(3);
                }
            },
            0xe3 => {
                let w = self.bus.read_word(self.sp);
                let hl = self.registers.get_hl();
                self.bus.write_word(self.sp, hl);
                self.registers.set_hl(w);
            },
            0xe4 => {
                let addr = self.bus.read_word(self.pc.wrapping_add(1));
                if !self.flags.p {
                    self.subroutine_stack_push();
                    self.pc = addr;
                    extra = 6;
                } else {
                    self.pc = self.pc.wrapping_add(3);
                }
            },
            0xe5 => {
                self.sp = self.sp.wrapping_sub(2);
                let v = self.registers.get_hl();
                self.bus.write_word(self.sp, v);
            },
            0xe6 => {
                let n = self.bus.read_byte(self.pc.wrapping_add(1));
                self.ana(n);
            },
            0xe7 => {
                if direct {
                    self.pc = self.pc.wrapping_add(1);
                }
                self.interrupt_stack_push();
                self.pc = 0x0020;
            },
            0xe8 => {
                if self.flags.p {
                    self.subroutine_stack_pop();
                    extra = 6;
                } else {
                    self.pc = self.pc.wrapping_add(1);
                }
            },
            0xe9 => self.pc = self.registers.get_hl(),
            0xea => {
                let addr = self.bus.read_word(self.pc.wrapping_add(1));
                if self.flags.p {
                    self.pc = addr;
                } else {
                    self.pc = self.pc.wrapping_add(3);
                }
            },
            0xeb => self.xchg(),
            0xec => {
                let addr = self.bus.read_word(self.pc.wrapping_add(1));
                if self.flags.p {
                    self.subroutine_stack_push();
                    self.pc = addr;
                    extra = 6;
                } else {
                    self.pc = self.pc.wrapping_add(3);
                }
            },
            0xee => {
                let n = self.bus.read_byte(self.pc.wrapping_add(1));
                self.xra(n);
            },
            0xef => {
                if direct {
                    self.pc = self.pc.wrapping_add(1);
                }
                self.interrupt_stack_push();
                self.pc = 0x0028;
            },
            0xf0 => {
                if !self.flags.s {
                    self.subroutine_stack_pop();
                    extra = 6;
                } else {
                    self.pc = self.pc.wrapping_add(1);
                }
            },
            0xf1 => {
                self.registers.a = self.bus.read_byte(self.sp.wrapping_add(1));
                let bflags = self.bus.read_byte(self.sp);
                self.flags.from_byte(bflags);
                self.sp = self.sp.wrapping_add(2);
            },
            0xf2 => {
                let addr = self.bus.read_word(self.pc.wrapping_add(1));
                if !self.flags.s {
                    self.pc = addr;
                } else {
                    self.pc = self.pc.wrapping_add(3);
                }
            },
            0xf3 => self.inte = false,
            0xf4 => {
                let addr = self.bus.read_word(self.pc.wrapping_add(1));
                if !self.flags.s {
                    self.subroutine_stack_push();
                    self.pc = addr;
                    extra = 6;
                } else {
                    self.pc = self.pc.wrapping_add(3);
                }
            },
            0xf5 => {
                self.sp = self.sp.wrapping_sub(2);
                let psw = self.flags.as_byte();
                self.bus.write_byte(self.sp, psw);
                let a = self.registers.a;
                self.bus.write_byte(self.sp.wrapping_add(1), a);
            },
            0xf6 => {
                let n = self.bus.read_byte(self.pc.wrapping_add(1));
                self.ora(n);
            },
            0xf7 => {
                if direct {
                    self.pc = self.pc.wrapping_add(1);
                }
                self.interrupt_stack_push();
                self.pc = 0x0030;
            },
            0xf8 => {
                if self.flags.s {
                    self.subroutine_stack_pop();
                    extra = 6;
                } else {
                    self.pc = self.pc.wrapping_add(1);
                }
            },
            0xf9 => self.sp = self.registers.get_hl(),
            0xfa => {
                let addr = self.bus.read_word(self.pc.wrapping_add(1));
                if self.flags.s {
                    self.pc = addr;
                } else {
                    self.pc = self.pc.wrapping_add(3);
                }
            },
            0xfb => self.inte = true,
            0xfc => {
                let addr = self.bus.read_word(self.pc.wrapping_add(1));
                if self.flags.s {
                    self.subroutine_stack_push();
                    self.pc = addr;
                    extra = 6;
                } else {
                    self.pc = self.pc.wrapping_add(3);
                }
            },
            0xfe => {
                let n = self.bus.read_byte(self.pc.wrapping_add(1));
                self.cmp(n);
            },
            0xff => {
                if direct {
                    self.pc = self.pc.wrapping_add(1);
                }
                self.interrupt_stack_push();
                self.pc = 0x0038;
            },
            _ => {},
        }
        extra
    }

    /// Executes one opcode of the 0xc0-0xff group and returns the cycles the
    /// taken path of a conditional call or return adds.
    fn run_ctrl(&mut self, opcode: u8, direct: bool) -> (extra: u32)
        requires
            old(self)@.bus.wf(),
            0xc0 <= opcode,
        ensures
            final(self)@ == exec_ctrl(old(self)@, opcode, direct),
            final(self)@.bus.wf(),
            final(self)@.dbg == old(self)@.dbg,
            extra == extra_cycles(old(self)@, opcode),
    {
        if opcode < 0xe0 {
            self.run_ctrl_c(opcode, direct)
        } else {
            self.run_ctrl_e(opcode, direct)
        }
    }

    /// Executes one opcode and advances PC per the length table unless the
    /// opcode set PC itself.
    #[verifier::spinoff_prover]
    #[verifier::rlimit(100)]
    fn run_op(&mut self, opcode: u8, direct: bool) -> (extra: u32)
        requires
            old(self)@.bus.wf(),
        ensures
            final(self)@ == step_op(old(self)@, opcode, direct),
            final(self)@.bus.wf(),
            final(self)@.dbg == old(self)@.dbg,
            extra == extra_cycles(old(self)@, opcode),
    {
        let extra: u32 = if opcode < 0x40 {
            self.run_misc(opcode);
            0
        } else if opcode < 0x80 {
            self.run_mov(opcode);
            0
        } else if opcode < 0xc0 {
            self.run_alu(opcode);
            0
        } else {
            self.run_ctrl(opcode, direct)
        };
        match opcode {
            0xe9 | 0xc3 | 0xda | 0xd2 | 0xca | 0xc2 | 0xfa | 0xf2 | 0xea | 0xe2 | 0xcd | 0xdc | 0xd4 | 0xcc | 0xc4 | 0xfc | 0xf4 | 0xec | 0xe4 | 0xc9 | 0xd8 | 0xd0 | 0xc8 | 0xc0 | 0xf8 | 0xf0 | 0xe8 | 0xe0 | 0xc7 | 0xcf | 0xd7 | 0xdf | 0xe7 | 0xef | 0xf7 | 0xff => {},
            0x06 | 0x0e | 0x16 | 0x1e | 0x26 | 0x2e | 0x36 | 0x3e | 0xc6 | 0xce | 0xd6 | 0xde | 0xe6 | 0xee | 0xf6 | 0xfe | 0xdb | 0xd3 => self.pc = self.pc.wrapping_add(2),
            0x32 | 0x3a | 0x22 | 0x2a | 0x01 | 0x11 | 0x21 | 0x31 => self.pc = self.pc.wrapping_add(3),
            _ => self.pc = self.pc.wrapping_add(1),
        }
        extra
    }

    /// Composes the trace line for the instruction just executed: its
    /// disassembly, then the registers, flags, SP and the word at (SP).
    fn trace_line(&self, pc0: u16, op: u8) -> (r: String)
        requires
            self@.bus.wf(),
        ensures
            r@ == trace_text(self@, pc0, op),
    {
        if rst_opcode(op) {
            return String::from_str("RST");
        }
        let mut s = crate::dasm::disassemble(&self.bus, pc0);
        s.append("\nPC : 0x");
        push_hex4(&mut s, pc0);
        s.append("\tSP : 0x");
        push_hex4(&mut s, self.sp);
        s.append("\tS : ");
        s.append(bit_str(self.flags.s));
        s.append("\tZ : ");
        s.append(bit_str(self.flags.z));
        s.append("\tA : ");
        s.append(bit_str(self.flags.a));
        s.append("\tP : ");
        s.append(bit_str(self.flags.p));
        s.append("\tC : ");
        s.append(bit_str(self.flags.c));
        s.append("\nB : 0x");
        push_hex2(&mut s, self.registers.b);
        s.append("\tC : 0x");
        push_hex2(&mut s, self.registers.c);
        s.append("\tD : 0x");
        push_hex2(&mut s, self.registers.d);
        s.append("\tE : 0x");
        push_hex2(&mut s, self.registers.e);
        s.append("\tH : 0x");
        push_hex2(&mut s, self.registers.h);
        s.append("\tL : 0x");
        push_hex2(&mut s, self.registers.l);
        s.append("\tA : 0x");
        push_hex2(&mut s, self.registers.a);
        s.append("\t(SP) : 0x");
        let w = self.bus.read_word(self.sp);
        push_hex4(&mut s, w);
        s.append("\n");
        s
    }

    /// Fetches and executes one instruction and returns the consumed clock
    /// cycles: the machine moves to exactly `step` of its state.
    #[verifier::spinoff_prover]
    #[verifier::rlimit(100)]
    pub fn execute(&mut self) -> (cycles: u32)
        requires
            old(self)@.bus.wf(),
        ensures
            final(self)@ == step(old(self)@),
            final(self)@.bus.wf(),
            cycles == step_cycles(old(self)@),
    {
        if self.halt {
            return 0;
        }
        // The instruction's own address, for the trace line.
        let pc = self.pc;
        let opcode = if self.inte && self.irq.0 {
            self.irq.1
        } else {
            self.bus.read_byte(self.pc)
        };
        // A RST reached through an interrupt pushes PC itself.
        let direct_rst = !(self.inte && self.irq.0);
        let cycles: u32 = cycles_for(opcode) as u32;
        if self.inte && self.irq.0 {
            self.inte = false;
            self.irq = (false, 0);
        }
        let extra = self.run_op(opcode, direct_rst);
        if self.debug.switch {
            self.debug.string = self.trace_line(pc, opcode);
        }
        cycles + extra
    }

    /// Fetches and executes one instruction under the pacing budget: when
    /// the slice's cycle budget was exceeded, the cycle counter resets and
    /// the remaining slice time (never more than the slice length) is
    /// returned for the host to sleep.
    pub fn execute_timed(&mut self) -> (sleep_time: Option<u32>)
        requires
            old(self)@.bus.wf(),
        ensures
            ({
                let s0 = old(self)@;
                let sr = if s0.slice_current_cycles > s0.slice_max_cycles {
                    CpuView { slice_current_cycles: 0, ..s0 }
                } else {
                    s0
                };
                final(self)@ == (CpuView {
                    slice_current_cycles: step(sr).slice_current_cycles.wrapping_add(
                        step_cycles(sr),
                    ),
                    ..step(sr)
                }) && final(self)@.bus.wf() && (s0.slice_current_cycles <= s0.slice_max_cycles
                    ==> sleep_time is None) && (sleep_time matches Some(t) ==> t
                    <= s0.slice_duration)
            }),
    {
        let mut sleep_time: Option<u32> = None;
        if self.slice_current_cycles > self.slice_max_cycles {
            self.slice_current_cycles = 0;
            // How long the consumed budget took in wall time; sleep off the
            // rest of the slice.
            if let Some(d) = elapsed_ms(&self.slice_start_time) {
                sleep_time = Some(self.slice_duration.saturating_sub(d));
                self.slice_start_time = time_now();
            }
        }
        let cycles = self.execute();
        self.slice_current_cycles = self.slice_current_cycles.wrapping_add(cycles);
        sleep_time
    }
}

} // verus!
