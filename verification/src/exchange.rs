//! Register exchange instructions: the shadow-set swap, the accumulator/flag
//! swap, DE with HL, and the memory-at-SP swap with HL. Every exchange is a
//! true simultaneous pairwise swap: all old values are read before any is
//! overwritten.

use vstd::prelude::*;
use crate::alu::word_of;
use crate::machine::{
    with_cycles, with_mem, with_register_files, with_registers, Machine, MachineView,
};
use crate::memory::next_address;
use crate::registers::Registers;

verus! {

/// EXX: `b,c,d,e,h,l` swapped with their shadow counterparts; the
/// accumulator, the flag slot and the stack pointer halves stay.
#[verifier::opaque]
pub open spec fn spec_exchange_all_registers_with_shadow(m: MachineView) -> MachineView {
    let regs = m.cpu.state.registers;
    let alt = m.cpu.state.alt_registers;
    with_cycles(
        with_register_files(
            m,
            Registers { b: alt.b, c: alt.c, d: alt.d, e: alt.e, h: alt.h, l: alt.l, ..regs },
            Registers { b: regs.b, c: regs.c, d: regs.d, e: regs.e, h: regs.h, l: regs.l, ..alt },
        ),
        4,
    )
}

/// EX AF,AF': only `a` and `f` swap with their shadow counterparts.
#[verifier::opaque]
pub open spec fn spec_exchange_accumulator_and_flags_with_shadow(m: MachineView) -> MachineView {
    let regs = m.cpu.state.registers;
    let alt = m.cpu.state.alt_registers;
    with_cycles(
        with_register_files(
            m,
            Registers { a: alt.a, f: alt.f, ..regs },
            Registers { a: regs.a, f: regs.f, ..alt },
        ),
        4,
    )
}

/// EX DE,HL: `d` with `h` and `e` with `l`, inside the active set.
#[verifier::opaque]
pub open spec fn spec_exchange_de_with_hl(m: MachineView) -> MachineView {
    let regs = m.cpu.state.registers;
    with_cycles(
        with_registers(m, Registers { d: regs.h, e: regs.l, h: regs.d, l: regs.e, ..regs }),
        4,
    )
}

/// EX (SP),HL: the bytes at addresses SP and SP+1 swap with `l` and `h`
/// respectively — a genuine load and store.
#[verifier::opaque]
pub open spec fn spec_exchange_memory_from_sp_with_hl(m: MachineView) -> MachineView {
    let regs = m.cpu.state.registers;
    let low_address = word_of(regs.s, regs.p);
    let high_address = next_address(low_address);
    let mem = m.mem.update(low_address as int, regs.l).update(high_address as int, regs.h);
    with_cycles(
        with_mem(
            with_registers(
                m,
                Registers {
                    l: m.mem[low_address as int],
                    h: m.mem[high_address as int],
                    ..regs
                },
            ),
            mem,
        ),
        19,
    )
}

impl Machine {
    /// EXX: swaps `b,c,d,e,h,l` with the shadow set.
    pub fn exchange_all_registers_with_shadow(&mut self)
        requires
            old(self).wf(),
        ensures
            final(self).wf(),
            final(self)@ == spec_exchange_all_registers_with_shadow(old(self)@),
    {
        proof {
            reveal(spec_exchange_all_registers_with_shadow);
        }
        let old_b = self.cpu.state.registers.b;
        let old_c = self.cpu.state.registers.c;
        let old_d = self.cpu.state.registers.d;
        let old_e = self.cpu.state.registers.e;
        let old_h = self.cpu.state.registers.h;
        let old_l = self.cpu.state.registers.l;
        self.cpu.state.registers.b = self.cpu.state.alt_registers.b;
        self.cpu.state.registers.c = self.cpu.state.alt_registers.c;
        self.cpu.state.registers.d = self.cpu.state.alt_registers.d;
        self.cpu.state.registers.e = self.cpu.state.alt_registers.e;
        self.cpu.state.registers.h = self.cpu.state.alt_registers.h;
        self.cpu.state.registers.l = self.cpu.state.alt_registers.l;
        self.cpu.state.alt_registers.b = old_b;
        self.cpu.state.alt_registers.c = old_c;
        self.cpu.state.alt_registers.d = old_d;
        self.cpu.state.alt_registers.e = old_e;
        self.cpu.state.alt_registers.h = old_h;
        self.cpu.state.alt_registers.l = old_l;
        self.clock(4);
    }

    /// EX AF,AF': swaps only `a` and `f` with the shadow set.
    pub fn exchange_accumulator_and_flags_with_shadow(&mut self)
        requires
            old(self).wf(),
        ensures
            final(self).wf(),
            final(self)@ == spec_exchange_accumulator_and_flags_with_shadow(old(self)@),
    {
        proof {
            reveal(spec_exchange_accumulator_and_flags_with_shadow);
        }
        let old_a = self.cpu.state.registers.a;
        let old_f = self.cpu.state.registers.f;
        self.cpu.state.registers.a = self.cpu.state.alt_registers.a;
        self.cpu.state.registers.f = self.cpu.state.alt_registers.f;
        self.cpu.state.alt_registers.a = old_a;
        self.cpu.state.alt_registers.f = old_f;
        self.clock(4);
    }

    /// EX DE,HL: in-place swap of `d` with `h` and `e` with `l`.
    pub fn exchange_de_with_hl(&mut self)
        requires
            old(self).wf(),
        ensures
            final(self).wf(),
            final(self)@ == spec_exchange_de_with_hl(old(self)@),
    {
        proof {
            reveal(spec_exchange_de_with_hl);
        }
        let old_d = self.cpu.state.registers.d;
        let old_e = self.cpu.state.registers.e;
        self.cpu.state.registers.d = self.cpu.state.registers.h;
        self.cpu.state.registers.e = self.cpu.state.registers.l;
        self.cpu.state.registers.h = old_d;
        self.cpu.state.registers.l = old_e;
        self.clock(4);
    }

    /// EX (SP),HL: swaps the two bytes at (SP, SP+1) with `l` and `h`.
    pub fn exchange_memory_from_sp_with_hl(&mut self)
        requires
            old(self).wf(),
        ensures
            final(self).wf(),
            final(self)@ == spec_exchange_memory_from_sp_with_hl(old(self)@),
    {
        proof {
            reveal(spec_exchange_memory_from_sp_with_hl);
        }
        let low_address = crate::registers::Registers::u8s_to_u16(
            self.cpu.state.registers.s,
            self.cpu.state.registers.p,
        );
        let high_address = low_address.wrapping_add(1);
        let old_low = self.ram.read_u8(low_address);
        let old_high = self.ram.read_u8(high_address);
        self.ram.write_u8(low_address, self.cpu.state.registers.l);
        self.ram.write_u8(high_address, self.cpu.state.registers.h);
        self.cpu.state.registers.l = old_low;
        self.cpu.state.registers.h = old_high;
        self.clock(19);
    }
}

} // verus!
