//! Stack instructions over a downward-growing stack: the pair's high byte
//! lands at the higher of the two addresses written, so the pair sits
//! little-endian in memory, and push and pop are exact inverses.

use vstd::prelude::*;
use vstd::wrapping::u16_specs;
use crate::alu::{word_high, word_low, word_of};
use crate::machine::{with_cycles, with_mem, with_registers, Machine, MachineView};
use crate::memory::next_address;
use crate::registers::{pair_read, pair_write, RegPair, Registers};

verus! {

/// PUSH rr: `mem[SP-1] = high`, `mem[SP-2] = low`, then `SP -= 2`, the
/// address arithmetic wrapping at the bottom of the address space.
#[verifier::opaque]
pub open spec fn spec_push_to_stack(m: MachineView, source: RegPair) -> MachineView {
    let regs = m.cpu.state.registers;
    let (high, low) = pair_read(regs, source);
    let sp = word_of(regs.s, regs.p);
    let new_sp = u16_specs::wrapping_sub(sp, 2);
    let mem = m.mem.update(u16_specs::wrapping_sub(sp, 1) as int, high).update(
        new_sp as int,
        low,
    );
    with_cycles(
        with_mem(
            with_registers(
                m,
                Registers { s: word_high(new_sp), p: word_low(new_sp), ..regs },
            ),
            mem,
        ),
        11,
    )
}

/// POP rr: the pair's low byte is read at SP and its high byte at SP+1,
/// then `SP += 2`, wrapping at the top of the address space.
#[verifier::opaque]
pub open spec fn spec_pop_from_stack(m: MachineView, target: RegPair) -> MachineView {
    let regs = m.cpu.state.registers;
    let sp = word_of(regs.s, regs.p);
    let low = m.mem[sp as int];
    let high = m.mem[next_address(sp) as int];
    let new_sp = u16_specs::wrapping_add(sp, 2);
    let loaded = pair_write(regs, target, high, low);
    with_cycles(
        with_registers(m, Registers { s: word_high(new_sp), p: word_low(new_sp), ..loaded }),
        10,
    )
}

impl Machine {
    /// PUSH rr: stores the pair below the stack pointer and lowers it by two.
    pub fn push_to_stack(&mut self, source: RegPair)
        requires
            old(self).wf(),
        ensures
            final(self).wf(),
            final(self)@ == spec_push_to_stack(old(self)@, source),
    {
        proof {
            reveal(spec_push_to_stack);
        }
        let (high, low) = self.cpu.state.registers.read_pair(source);
        let sp = Registers::u8s_to_u16(self.cpu.state.registers.s, self.cpu.state.registers.p);
        self.ram.write_u8(sp.wrapping_sub(1), high);
        self.ram.write_u8(sp.wrapping_sub(2), low);
        let (new_s, new_p) = Registers::u16_to_u8s(sp.wrapping_sub(2));
        self.cpu.state.registers.s = new_s;
        self.cpu.state.registers.p = new_p;
        self.clock(11);
    }

    /// POP rr: loads the pair from the stack pointer and raises it by two.
    pub fn pop_from_stack(&mut self, target: RegPair)
        requires
            old(self).wf(),
        ensures
            final(self).wf(),
            final(self)@ == spec_pop_from_stack(old(self)@, target),
    {
        proof {
            reveal(spec_pop_from_stack);
        }
        let sp = Registers::u8s_to_u16(self.cpu.state.registers.s, self.cpu.state.registers.p);
        let low = self.ram.read_u8(sp);
        let high = self.ram.read_u8(sp.wrapping_add(1));
        self.cpu.state.registers.write_pair(target, high, low);
        let (new_s, new_p) = Registers::u16_to_u8s(sp.wrapping_add(2));
        self.cpu.state.registers.s = new_s;
        self.cpu.state.registers.p = new_p;
        self.clock(10);
    }
}

} // verus!
