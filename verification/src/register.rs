//! The seven 8-bit working registers and their paired 16-bit views.

use vstd::prelude::*;
use crate::bits::{word, hi8, lo8, lemma_word_split};

verus! {

/// The register file: accumulator A plus the six general registers.
pub struct Registers {
    pub a: u8,
    pub b: u8,
    pub c: u8,
    pub d: u8,
    pub e: u8,
    pub h: u8,
    pub l: u8,
}

impl Registers {
    /// The BC pair, B holding the high byte.
    pub open spec fn bc(self) -> u16 {
        word(self.b, self.c)
    }

    /// The DE pair, D holding the high byte.
    pub open spec fn de(self) -> u16 {
        word(self.d, self.e)
    }

    /// The HL pair, H holding the high byte.
    pub open spec fn hl(self) -> u16 {
        word(self.h, self.l)
    }

    /// All registers start at zero.
    pub fn new() -> (r: Registers)
        ensures
            r == (Registers { a: 0, b: 0, c: 0, d: 0, e: 0, h: 0, l: 0 }),
    {
        Registers { a: 0, b: 0, c: 0, d: 0, e: 0, h: 0, l: 0 }
    }

    pub fn get_bc(&self) -> (r: u16)
        ensures
            r == self.bc(),
    {
        (self.b as u16) * 256 + (self.c as u16)
    }

    pub fn get_de(&self) -> (r: u16)
        ensures
            r == self.de(),
    {
        (self.d as u16) * 256 + (self.e as u16)
    }

    pub fn get_hl(&self) -> (r: u16)
        ensures
            r == self.hl(),
    {
        (self.h as u16) * 256 + (self.l as u16)
    }

    pub fn set_bc(&mut self, v: u16)
        ensures
            *final(self) == (Registers { b: hi8(v), c: lo8(v), ..*old(self) }),
    {
        self.b = (v / 256) as u8;
        self.c = (v % 256) as u8;
    }

    pub fn set_de(&mut self, v: u16)
        ensures
            *final(self) == (Registers { d: hi8(v), e: lo8(v), ..*old(self) }),
    {
        self.d = (v / 256) as u8;
        self.e = (v % 256) as u8;
    }

    pub fn set_hl(&mut self, v: u16)
        ensures
            *final(self) == (Registers { h: hi8(v), l: lo8(v), ..*old(self) }),
    {
        self.h = (v / 256) as u8;
        self.l = (v % 256) as u8;
    }
}

/// A paired write stores the two halves of the written word: reading the pair
/// back gives the word, and the single registers hold its two bytes.
pub proof fn lemma_pair_roundtrip(r: Registers, v: u16)
    ensures
        (Registers { b: hi8(v), c: lo8(v), ..r }).bc() == v,
        (Registers { d: hi8(v), e: lo8(v), ..r }).de() == v,
        (Registers { h: hi8(v), l: lo8(v), ..r }).hl() == v,
{
    lemma_word_split(v);
}

} // verus!
