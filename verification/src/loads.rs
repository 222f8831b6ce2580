//! Load instructions: a register pair filled from a little-endian word in
//! memory at an immediate address, and a register stored to memory at an
//! address held in a register pair.

use vstd::prelude::*;
use crate::machine::{spec_next_word, with_cycles, with_mem, with_registers, Machine, MachineView};
use crate::memory::next_address;
use crate::registers::{pair_word, pair_write, reg8_read, Reg8, RegPair};

verus! {

/// LD rr,(nn): consumes the two-byte address, then fills the pair from the
/// little-endian word at that address (low byte first, wrapping at the top
/// of the address space).
#[verifier::opaque]
pub open spec fn spec_load_into_register_pair(m: MachineView, target: RegPair) -> MachineView {
    let (address, m1) = spec_next_word(m);
    let low = m1.mem[address as int];
    let high = m1.mem[next_address(address) as int];
    with_cycles(
        with_registers(m1, pair_write(m1.cpu.state.registers, target, high, low)),
        10,
    )
}

/// LD (rr),r: stores the source register at the address held in the pair.
#[verifier::opaque]
pub open spec fn spec_load_into_memory(m: MachineView, source: Reg8, pointer: RegPair) -> MachineView {
    let regs = m.cpu.state.registers;
    let address = pair_word(regs, pointer);
    with_mem(m, m.mem.update(address as int, reg8_read(regs, source)))
}

impl Machine {
    /// LD rr,(nn): fills the pair from the word at the immediate address.
    pub fn load_into_register_pair(&mut self, target: RegPair)
        requires
            old(self).wf(),
        ensures
            final(self).wf(),
            final(self)@ == spec_load_into_register_pair(old(self)@, target),
    {
        proof {
            reveal(spec_load_into_register_pair);
        }
        let address = self.next_word();
        let low = self.ram.read_u8(address);
        let high = self.ram.read_u8(address.wrapping_add(1));
        self.cpu.state.registers.write_pair(target, high, low);
        self.clock(10);
    }

    /// LD (rr),r: stores the register at the address held in the pair.
    pub fn load_into_memory(&mut self, source: Reg8, pointer: RegPair)
        requires
            old(self).wf(),
        ensures
            final(self).wf(),
            final(self)@ == spec_load_into_memory(old(self)@, source, pointer),
    {
        proof {
            reveal(spec_load_into_memory);
        }
        let value = self.cpu.state.registers.read8(source);
        let (high, low) = self.cpu.state.registers.read_pair(pointer);
        let address = crate::registers::Registers::u8s_to_u16(high, low);
        self.ram.write_u8(address, value);
    }
}

} // verus!
