//! The register file: eight 8-bit general-purpose slots plus the two halves
//! of the stack pointer, with named selectors in place of field pointers.

use vstd::prelude::*;
use crate::alu::{word_high, word_low, word_of};

verus! {

/// The eight general-purpose registers plus the stack pointer halves
/// (`s` the high byte, `p` the low byte).
pub struct Registers {
    pub a: u8,
    pub b: u8,
    pub c: u8,
    pub d: u8,
    pub e: u8,
    pub f: u8,
    pub h: u8,
    pub l: u8,
    pub s: u8,
    pub p: u8,
}

/// Names one 8-bit register, replacing first-class field selectors.
#[derive(Clone, Copy, PartialEq, Eq, Structural, Debug)]
pub enum Reg8 {
    A,
    B,
    C,
    D,
    E,
    F,
    H,
    L,
}

/// Names one register pair, high half first.
#[derive(Clone, Copy, PartialEq, Eq, Structural, Debug)]
pub enum RegPair {
    AF,
    BC,
    DE,
    HL,
    SP,
}

/// The value of one named 8-bit register.
pub open spec fn reg8_read(r: Registers, sel: Reg8) -> u8 {
    match sel {
        Reg8::A => r.a,
        Reg8::B => r.b,
        Reg8::C => r.c,
        Reg8::D => r.d,
        Reg8::E => r.e,
        Reg8::F => r.f,
        Reg8::H => r.h,
        Reg8::L => r.l,
    }
}

/// The register file with one named 8-bit register replaced.
pub open spec fn reg8_write(r: Registers, sel: Reg8, v: u8) -> Registers {
    match sel {
        Reg8::A => Registers { a: v, ..r },
        Reg8::B => Registers { b: v, ..r },
        Reg8::C => Registers { c: v, ..r },
        Reg8::D => Registers { d: v, ..r },
        Reg8::E => Registers { e: v, ..r },
        Reg8::F => Registers { f: v, ..r },
        Reg8::H => Registers { h: v, ..r },
        Reg8::L => Registers { l: v, ..r },
    }
}

/// The (high, low) bytes of one named register pair.
pub open spec fn pair_read(r: Registers, sel: RegPair) -> (u8, u8) {
    match sel {
        RegPair::AF => (r.a, r.f),
        RegPair::BC => (r.b, r.c),
        RegPair::DE => (r.d, r.e),
        RegPair::HL => (r.h, r.l),
        RegPair::SP => (r.s, r.p),
    }
}

/// The register file with one named pair replaced by (high, low) bytes.
pub open spec fn pair_write(r: Registers, sel: RegPair, high: u8, low: u8) -> Registers {
    match sel {
        RegPair::AF => Registers { a: high, f: low, ..r },
        RegPair::BC => Registers { b: high, c: low, ..r },
        RegPair::DE => Registers { d: high, e: low, ..r },
        RegPair::HL => Registers { h: high, l: low, ..r },
        RegPair::SP => Registers { s: high, p: low, ..r },
    }
}

/// The 16-bit value of one named register pair, composed big-endian.
pub open spec fn pair_word(r: Registers, sel: RegPair) -> u16 {
    word_of(pair_read(r, sel).0, pair_read(r, sel).1)
}

/// A fresh register file: every slot zero, the stack pointer at `0xFFFF`.
pub open spec fn fresh_registers() -> Registers {
    Registers { a: 0, b: 0, c: 0, d: 0, e: 0, f: 0, h: 0, l: 0, s: 0xFF, p: 0xFF }
}

impl Registers {
    /// A fresh register file: every slot zero, the stack pointer at `0xFFFF`.
    pub fn new() -> (r: Registers)
        ensures
            r == fresh_registers(),
    {
        Registers { a: 0, b: 0, c: 0, d: 0, e: 0, f: 0, h: 0, l: 0, s: 0xFF, p: 0xFF }
    }

    /// Reads one named 8-bit register.
    pub fn read8(&self, sel: Reg8) -> (v: u8)
        ensures
            v == reg8_read(*self, sel),
    {
        match sel {
            Reg8::A => self.a,
            Reg8::B => self.b,
            Reg8::C => self.c,
            Reg8::D => self.d,
            Reg8::E => self.e,
            Reg8::F => self.f,
            Reg8::H => self.h,
            Reg8::L => self.l,
        }
    }

    /// Writes one named 8-bit register.
    pub fn write8(&mut self, sel: Reg8, v: u8)
        ensures
            *final(self) == reg8_write(*old(self), sel, v),
    {
        match sel {
            Reg8::A => self.a = v,
            Reg8::B => self.b = v,
            Reg8::C => self.c = v,
            Reg8::D => self.d = v,
            Reg8::E => self.e = v,
            Reg8::F => self.f = v,
            Reg8::H => self.h = v,
            Reg8::L => self.l = v,
        }
    }

    /// Reads one named pair as (high, low) bytes.
    pub fn read_pair(&self, sel: RegPair) -> (v: (u8, u8))
        ensures
            v == pair_read(*self, sel),
    {
        match sel {
            RegPair::AF => (self.a, self.f),
            RegPair::BC => (self.b, self.c),
            RegPair::DE => (self.d, self.e),
            RegPair::HL => (self.h, self.l),
            RegPair::SP => (self.s, self.p),
        }
    }

    /// Writes one named pair from (high, low) bytes.
    pub fn write_pair(&mut self, sel: RegPair, high: u8, low: u8)
        ensures
            *final(self) == pair_write(*old(self), sel, high, low),
    {
        match sel {
            RegPair::AF => {
                self.a = high;
                self.f = low;
            },
            RegPair::BC => {
                self.b = high;
                self.c = low;
            },
            RegPair::DE => {
                self.d = high;
                self.e = low;
            },
            RegPair::HL => {
                self.h = high;
                self.l = low;
            },
            RegPair::SP => {
                self.s = high;
                self.p = low;
            },
        }
    }

    /// Composes a 16-bit value big-endian from a (high, low) byte pair.
    pub fn u8s_to_u16(first: u8, second: u8) -> (r: u16)
        ensures
            r == word_of(first, second),
    {
        crate::alu::get_word(first, second)
    }

    /// Splits a 16-bit value into its (high, low) byte pair.
    pub fn u16_to_u8s(value: u16) -> (r: (u8, u8))
        ensures
            r.0 == word_high(value),
            r.1 == word_low(value),
    {
        crate::alu::get_bytes(value)
    }
}

/// Composing and decomposing a 16-bit pair round-trips for all values.
pub proof fn lemma_pair_roundtrip(value: u16, high: u8, low: u8)
    ensures
        word_of(word_high(value), word_low(value)) == value,
        word_high(word_of(high, low)) == high,
        word_low(word_of(high, low)) == low,
{
}

} // verus!
