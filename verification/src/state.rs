//! The processor state: the register file, its shadow copy, the program
//! counter and the status byte.

use vstd::prelude::*;
use crate::registers::{fresh_registers, Registers};

verus! {

/// Everything an instruction may read or write apart from memory.
pub struct State {
    pub registers: Registers,
    pub alt_registers: Registers,
    pub program_counter: u16,
    pub status: u8,
}

/// A fresh processor state: registers and status zeroed, the stack pointer
/// halves at `0xFF`, the program counter at 0.
pub open spec fn fresh_state() -> State {
    State {
        registers: fresh_registers(),
        alt_registers: fresh_registers(),
        program_counter: 0,
        status: 0,
    }
}

impl State {
    pub fn new() -> (r: State)
        ensures
            r == fresh_state(),
    {
        State {
            registers: Registers::new(),
            alt_registers: Registers::new(),
            program_counter: 0,
            status: 0,
        }
    }
}

} // verus!
