//! The five condition bits and their packed processor-status-word form.

use vstd::prelude::*;

verus! {

/// The CPU condition bits.
pub struct Flags {
    /// Sign: bit 7 of the most recent result.
    pub s: bool,
    /// Zero: the most recent result was 0.
    pub z: bool,
    /// Auxiliary carry: carry out of bit 3 during the most recent operation.
    pub a: bool,
    /// Parity: the most recent result has an even number of set bits.
    pub p: bool,
    /// Carry.
    pub c: bool,
}

/// The given value when the bit is set, zero otherwise.
pub open spec fn bit_if(b: bool, v: u8) -> u8 {
    if b {
        v
    } else {
        0
    }
}

/// The packed status word: bit 7 = S, bit 6 = Z, bit 4 = A, bit 2 = P,
/// bit 0 = C; bit 1 always reads as 1, bits 3 and 5 as 0.
pub open spec fn psw_byte(f: Flags) -> u8 {
    (bit_if(f.s, 0x80) + bit_if(f.z, 0x40) + bit_if(f.a, 0x10) + bit_if(f.p, 0x04) + bit_if(
        f.c,
        0x01,
    ) + 0x02) as u8
}

/// The condition bits carried in a packed status word; bits 1, 3 and 5 are
/// ignored.
pub open spec fn flags_of_byte(b: u8) -> Flags {
    Flags {
        s: b & 0x80 != 0,
        z: b & 0x40 != 0,
        a: b & 0x10 != 0,
        p: b & 0x04 != 0,
        c: b & 0x01 != 0,
    }
}

impl Flags {
    /// All condition bits start clear.
    pub fn new() -> (r: Flags)
        ensures
            r == (Flags { s: false, z: false, a: false, p: false, c: false }),
    {
        Flags { s: false, z: false, a: false, p: false, c: false }
    }

    /// Converts the condition bits to the packed status word.
    pub fn as_byte(&self) -> (r: u8)
        ensures
            r == psw_byte(*self),
    {
        let s: u8 = if self.s {
            0x80
        } else {
            0
        };
        let z: u8 = if self.z {
            0x40
        } else {
            0
        };
        let a: u8 = if self.a {
            0x10
        } else {
            0
        };
        let p: u8 = if self.p {
            0x04
        } else {
            0
        };
        let c: u8 = if self.c {
            0x01
        } else {
            0
        };
        s + z + a + p + c + 0x02
    }

    /// Restores the condition bits from a packed status word.
    pub fn from_byte(&mut self, bflags: u8)
        ensures
            *final(self) == flags_of_byte(bflags),
    {
        self.s = (bflags & 0x80) != 0;
        self.z = (bflags & 0x40) != 0;
        self.a = (bflags & 0x10) != 0;
        self.p = (bflags & 0x04) != 0;
        self.c = (bflags & 0x01) != 0;
    }
}

/// Unpacking a byte and packing the bits again yields the byte with bit 1
/// forced on and bits 3 and 5 forced off, and the five condition bits match
/// bits 7, 6, 4, 2 and 0 of the byte.
pub proof fn lemma_psw_repack(x: u8)
    ensures
        psw_byte(flags_of_byte(x)) == (x | 0x02) & 0xd7,
        flags_of_byte(x).s == (x & 0x80 != 0),
        flags_of_byte(x).z == (x & 0x40 != 0),
        flags_of_byte(x).a == (x & 0x10 != 0),
        flags_of_byte(x).p == (x & 0x04 != 0),
        flags_of_byte(x).c == (x & 0x01 != 0),
{
    let s = x & 0x80 != 0;
    let z = x & 0x40 != 0;
    let a = x & 0x10 != 0;
    let p = x & 0x04 != 0;
    let c = x & 0x01 != 0;
    assert(((if s {
        0x80u8
    } else {
        0u8
    }) + (if z {
        0x40u8
    } else {
        0u8
    }) + (if a {
        0x10u8
    } else {
        0u8
    }) + (if p {
        0x04u8
    } else {
        0u8
    }) + (if c {
        0x01u8
    } else {
        0u8
    }) + 0x02) as u8 == (x | 0x02) & 0xd7) by (bit_vector)
        requires
            s == (x & 0x80 != 0),
            z == (x & 0x40 != 0),
            a == (x & 0x10 != 0),
            p == (x & 0x04 != 0),
            c == (x & 0x01 != 0),
    ;
}

/// Packing the condition bits and unpacking the byte restores the bits
/// exactly.
pub proof fn lemma_psw_roundtrip(f: Flags)
    ensures
        flags_of_byte(psw_byte(f)) == f,
{
    let s = f.s;
    let z = f.z;
    let a = f.a;
    let p = f.p;
    let c = f.c;
    let b = psw_byte(f);
    assert((b & 0x80 != 0) == s && (b & 0x40 != 0) == z && (b & 0x10 != 0) == a && (b & 0x04 != 0)
        == p && (b & 0x01 != 0) == c) by (bit_vector)
        requires
            b == ((if s {
                0x80u8
            } else {
                0u8
            }) + (if z {
                0x40u8
            } else {
                0u8
            }) + (if a {
                0x10u8
            } else {
                0u8
            }) + (if p {
                0x04u8
            } else {
                0u8
            }) + (if c {
                0x01u8
            } else {
                0u8
            }) + 0x02) as u8,
    ;
}

} // verus!
