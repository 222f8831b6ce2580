//! The processor: the state plus the halted/running engine flag.

use vstd::prelude::*;
use crate::registers::{reg8_read, Reg8};
use crate::state::{fresh_state, State};

verus! {

/// The CPU: its state and whether the execution engine is halted.
pub struct Processor {
    pub state: State,
    pub halted: bool,
}

impl Processor {
    /// A fresh processor: zeroed state, engine halted.
    pub fn new() -> (r: Processor)
        ensures
            r.state == fresh_state(),
            r.halted,
    {
        Processor { state: State::new(), halted: true }
    }

    /// Transitions the engine to the halted state.
    pub fn halt(&mut self)
        ensures
            *final(self) == (Processor { halted: true, ..*old(self) }),
    {
        self.halted = true;
    }

    /// Transitions the engine to the running state.
    pub fn unhalt(&mut self)
        ensures
            *final(self) == (Processor { halted: false, ..*old(self) }),
    {
        self.halted = false;
    }

    /// Whether the engine is halted.
    pub fn is_halted(&self) -> (r: bool)
        ensures
            r == self.halted,
    {
        self.halted
    }

    /// Repositions the program counter.
    pub fn goto(&mut self, address: u16)
        ensures
            *final(self) == (Processor {
                state: State { program_counter: address, ..old(self).state },
                ..*old(self)
            }),
    {
        self.state.program_counter = address;
    }

    /// Reads one named 8-bit register.
    pub fn get_register(&self, sel: Reg8) -> (v: u8)
        ensures
            v == reg8_read(self.state.registers, sel),
    {
        self.state.registers.read8(sel)
    }
}

} // verus!
