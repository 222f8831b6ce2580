//! The memory subsystem: a flat byte-addressable store covering the whole
//! 16-bit address space, with little-endian word access.

use vstd::prelude::*;
use vstd::pervasive::VecAdditionalExecFns;
use crate::alu::word_of;

verus! {

/// The number of addressable bytes: every `u16` address is valid.
pub open spec fn address_space() -> int {
    0x10000
}

/// A byte-addressable store over the full 16-bit address space.
pub struct Memory {
    data: Vec<u8>,
}

impl View for Memory {
    type V = Seq<u8>;

    closed spec fn view(&self) -> Seq<u8> {
        self.data@
    }
}

/// The address one past `addr`, wrapping at the top of the address space.
pub open spec fn next_address(addr: u16) -> u16 {
    ((addr + 1) % 0x10000) as u16
}

impl Memory {
    /// The store covers the whole address space.
    pub open spec fn wf(&self) -> bool {
        self@.len() == address_space()
    }

    /// A fresh memory with every byte zero.
    pub fn new() -> (r: Memory)
        ensures
            r.wf(),
            forall|i: int| 0 <= i < address_space() ==> r@[i] == 0,
    {
        let mut data: Vec<u8> = Vec::new();
        let mut i: usize = 0;
        while i < 0x10000
            invariant
                i <= 0x10000,
                data@.len() == i,
                forall|j: int| 0 <= j < i ==> data@[j] == 0,
            decreases 0x10000 - i,
        {
            data.push(0);
            i = i + 1;
        }
        Memory { data }
    }

    /// Reads the byte at an address.
    pub fn read_u8(&self, address: u16) -> (v: u8)
        requires
            self.wf(),
        ensures
            v == self@[address as int],
    {
        self.data[address as usize]
    }

    /// Writes the byte at an address.
    pub fn write_u8(&mut self, address: u16, value: u8)
        requires
            old(self).wf(),
        ensures
            final(self).wf(),
            final(self)@ == old(self)@.update(address as int, value),
    {
        self.data.set(address as usize, value);
    }

    /// Reads a little-endian word: the low byte at `address`, the high byte
    /// at the next address (wrapping at the top of the address space).
    pub fn read_u16(&self, address: u16) -> (v: u16)
        requires
            self.wf(),
        ensures
            v == word_of(self@[next_address(address) as int], self@[address as int]),
    {
        let low = self.read_u8(address);
        let high = self.read_u8(address.wrapping_add(1));
        crate::alu::get_word(high, low)
    }

    /// Writes a little-endian word: the low byte at `address`, the high byte
    /// at the next address (wrapping at the top of the address space).
    pub fn write_u16(&mut self, address: u16, value: u16)
        requires
            old(self).wf(),
        ensures
            final(self).wf(),
            final(self)@ == old(self)@.update(address as int, crate::alu::word_low(value)).update(
                next_address(address) as int,
                crate::alu::word_high(value),
            ),
    {
        let (high, low) = crate::alu::get_bytes(value);
        self.write_u8(address, low);
        self.write_u8(address.wrapping_add(1), high);
    }
}

} // verus!
