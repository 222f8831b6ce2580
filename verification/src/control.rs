//! Control transfer: no-op, halt, and the conditional absolute jump.

use vstd::prelude::*;
use crate::flags::{flag_get, Flag};
use crate::machine::{
    spec_next_word, with_cycles, with_halted, with_pc, Machine, MachineView,
};

verus! {

/// A jump condition: a flag and a polarity, or the unconditional jump.
#[derive(Clone, Copy, PartialEq, Eq, Structural, Debug)]
pub enum Cond {
    Always,
    ZeroSet,
    ZeroClear,
    CarrySet,
    CarryClear,
    ParityOverflowSet,
    ParityOverflowClear,
    SignSet,
    SignClear,
}

/// Whether a jump condition holds of a status byte.
pub open spec fn cond_holds(c: Cond, status: u8) -> bool {
    match c {
        Cond::Always => true,
        Cond::ZeroSet => flag_get(status, Flag::Zero),
        Cond::ZeroClear => !flag_get(status, Flag::Zero),
        Cond::CarrySet => flag_get(status, Flag::Carry),
        Cond::CarryClear => !flag_get(status, Flag::Carry),
        Cond::ParityOverflowSet => flag_get(status, Flag::ParityOverflow),
        Cond::ParityOverflowClear => !flag_get(status, Flag::ParityOverflow),
        Cond::SignSet => flag_get(status, Flag::Sign),
        Cond::SignClear => !flag_get(status, Flag::Sign),
    }
}

/// A no-op consumes its clock budget and nothing else.
pub open spec fn spec_nop(m: MachineView) -> MachineView {
    with_cycles(m, 4)
}

/// Halt transitions the engine to the halted state; no register, flag or
/// memory effect.
pub open spec fn spec_halt(m: MachineView) -> MachineView {
    with_cycles(with_halted(m), 4)
}

/// A conditional jump always consumes the two-byte little-endian destination;
/// the program counter is set to it exactly when the condition holds of the
/// flag state before the jump. Flags are never mutated by a jump.
#[verifier::opaque]
pub open spec fn spec_jump(m: MachineView, c: Cond) -> MachineView {
    let (dest, m1) = spec_next_word(m);
    if cond_holds(c, m1.cpu.state.status) {
        with_cycles(with_pc(m1, dest), 10)
    } else {
        with_cycles(m1, 10)
    }
}

impl Cond {
    /// Evaluates this condition against a status byte.
    pub fn holds(self, status: &u8) -> (r: bool)
        ensures
            r == cond_holds(self, *status),
    {
        match self {
            Cond::Always => true,
            Cond::ZeroSet => Flag::Zero.get(status),
            Cond::ZeroClear => !Flag::Zero.get(status),
            Cond::CarrySet => Flag::Carry.get(status),
            Cond::CarryClear => !Flag::Carry.get(status),
            Cond::ParityOverflowSet => Flag::ParityOverflow.get(status),
            Cond::ParityOverflowClear => !Flag::ParityOverflow.get(status),
            Cond::SignSet => Flag::Sign.get(status),
            Cond::SignClear => !Flag::Sign.get(status),
        }
    }
}

impl Machine {
    /// No effect beyond the clock budget.
    pub fn nop(&mut self)
        requires
            old(self).wf(),
        ensures
            final(self).wf(),
            final(self)@ == spec_nop(old(self)@),
    {
        self.clock(4);
    }

    /// Transitions the engine to the halted state.
    pub fn halt(&mut self)
        requires
            old(self).wf(),
        ensures
            final(self).wf(),
            final(self)@ == spec_halt(old(self)@),
    {
        self.cpu.halt();
        self.clock(4);
    }

    /// Consumes the two-byte destination, then jumps exactly when the
    /// condition holds of the current flags.
    pub fn jump(&mut self, condition: Cond)
        requires
            old(self).wf(),
        ensures
            final(self).wf(),
            final(self)@ == spec_jump(old(self)@, condition),
    {
        proof {
            reveal(spec_jump);
        }
        let dest = self.next_word();
        if condition.holds(&self.cpu.state.status) {
            self.cpu.goto(dest);
        }
        self.clock(10);
    }
}

} // verus!
