//! Arithmetic and logic semantics: for each instruction family, the result
//! byte and the condition flags it produces.

use vstd::prelude::*;
use crate::bits::parity_even;
use crate::flags::Flags;

verus! {

/// Sign, zero and parity of a result byte, with the given auxiliary carry and
/// carry.
pub open spec fn flags_for(r: u8, aux: bool, carry: bool) -> Flags {
    Flags { s: r >= 0x80, z: r == 0, a: aux, p: parity_even(r), c: carry }
}

/// ADD: result and flags of adding a byte to the accumulator.
pub open spec fn spec_add(a: u8, n: u8) -> (u8, Flags) {
    let r = a.wrapping_add(n);
    (r, flags_for(r, a % 16 + n % 16 > 15, a + n > 255))
}

/// ADC: as ADD, but the incoming carry joins the sum.
pub open spec fn spec_adc(a: u8, n: u8, cin: bool) -> (u8, Flags) {
    let c: u8 = if cin {
        1
    } else {
        0
    };
    let r = a.wrapping_add(n).wrapping_add(c);
    (r, flags_for(r, a % 16 + n % 16 + c > 15, a + n + c > 255))
}

/// SUB: result and flags of subtracting a byte from the accumulator; carry is
/// the borrow, auxiliary carry is set when no borrow leaves bit 3.
pub open spec fn spec_sub(a: u8, n: u8) -> (u8, Flags) {
    let r = a.wrapping_sub(n);
    (r, flags_for(r, a % 16 >= n % 16, a < n))
}

/// SBB: as SUB, with the incoming borrow subtracted as well.
pub open spec fn spec_sbb(a: u8, n: u8, cin: bool) -> (u8, Flags) {
    let c: u8 = if cin {
        1
    } else {
        0
    };
    let r = a.wrapping_sub(n.wrapping_add(c));
    (r, flags_for(r, a % 16 >= n % 16 + c, a < n + c))
}

/// ANA: bitwise AND; carry clears, auxiliary carry takes the documented
/// "OR of bit 3" rule.
pub open spec fn spec_ana(a: u8, n: u8) -> (u8, Flags) {
    let r = a & n;
    (r, flags_for(r, (n | a) & 0x08 != 0, false))
}

/// XRA: bitwise exclusive OR; carry and auxiliary carry clear.
pub open spec fn spec_xra(a: u8, n: u8) -> (u8, Flags) {
    let r = a ^ n;
    (r, flags_for(r, false, false))
}

/// ORA: bitwise OR; carry and auxiliary carry clear.
pub open spec fn spec_ora(a: u8, n: u8) -> (u8, Flags) {
    let r = a | n;
    (r, flags_for(r, false, false))
}

/// INR: increment by one; every flag but carry follows the result.
pub open spec fn spec_inr(n: u8, f: Flags) -> (u8, Flags) {
    let r = n.wrapping_add(1);
    (r, flags_for(r, n % 16 + 1 > 15, f.c))
}

/// DCR: decrement by one; every flag but carry follows the result, auxiliary
/// carry is set when no borrow crossed the nibble boundary.
pub open spec fn spec_dcr(n: u8, f: Flags) -> (u8, Flags) {
    let r = n.wrapping_sub(1);
    (r, flags_for(r, r % 16 != 15, f.c))
}

/// RLC: rotate left; carry takes the old bit 7.
pub open spec fn spec_rlc(a: u8) -> (u8, bool) {
    let c = a >= 0x80;
    ((a % 128 * 2 + if c {
        1u8
    } else {
        0u8
    }) as u8, c)
}

/// RRC: rotate right; carry takes the old bit 0.
pub open spec fn spec_rrc(a: u8) -> (u8, bool) {
    let c = a % 2 == 1;
    ((a / 2 + if c {
        128u8
    } else {
        0u8
    }) as u8, c)
}

/// RAL: nine-bit rotate left through the carry.
pub open spec fn spec_ral(a: u8, cin: bool) -> (u8, bool) {
    ((a % 128 * 2 + if cin {
        1u8
    } else {
        0u8
    }) as u8, a >= 0x80)
}

/// RAR: nine-bit rotate right through the carry.
pub open spec fn spec_rar(a: u8, cin: bool) -> (u8, bool) {
    ((a / 2 + if cin {
        128u8
    } else {
        0u8
    }) as u8, a % 2 == 1)
}

/// DAD: 16-bit add into HL; only the carry flag is touched, from the 17-bit
/// overflow.
pub open spec fn spec_dad(hl: u16, n: u16) -> (u16, bool) {
    (hl.wrapping_add(n), hl + n > 0xffff)
}

/// DAA: the decimal-adjust correction added to the accumulator, and the carry
/// it forces.
pub open spec fn spec_daa_inc(a: u8, f: Flags) -> (u8, bool) {
    let lsb = a % 16;
    let msb = a / 16;
    let inc: u8 = if lsb > 9 || f.a {
        0x06
    } else {
        0
    };
    if msb > 9 || f.c || (msb >= 9 && lsb > 9) {
        ((inc + 0x60) as u8, true)
    } else {
        (inc, f.c)
    }
}

/// DAA: result and flags; the sum's flags stand, except that carry follows
/// the correction rule.
pub open spec fn spec_daa(a: u8, f: Flags) -> (u8, Flags) {
    let (inc, c) = spec_daa_inc(a, f);
    let (r, f2) = spec_add(a, inc);
    (r, Flags { c, ..f2 })
}

} // verus!
