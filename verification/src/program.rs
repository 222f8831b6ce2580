//! The program builder: an append-only byte stream of opcode bytes and
//! literal parameter bytes, in the exact order instructions are added.

use vstd::prelude::*;
use crate::alu::{word_high, word_low};
use crate::opcodes::{opcode_byte, Opcode};

verus! {

/// An assembled byte stream: one opcode byte, then its 0 to 2 parameter
/// bytes, per appended instruction.
pub struct Program {
    bin: Vec<u8>,
}

impl View for Program {
    type V = Seq<u8>;

    closed spec fn view(&self) -> Seq<u8> {
        self.bin@
    }
}

impl Program {
    /// An empty program.
    pub fn new() -> (r: Program)
        ensures
            r@ == Seq::<u8>::empty(),
    {
        Program { bin: Vec::new() }
    }

    /// The raw byte stream, for loading into memory.
    pub fn raw(&self) -> (r: &Vec<u8>)
        ensures
            r@ == self@,
    {
        &self.bin
    }

    /// Appends an instruction that takes no parameters.
    pub fn add(&mut self, opcode: Opcode)
        ensures
            final(self)@ == old(self)@.push(opcode_byte(opcode)),
    {
        self.bin.push(opcode.to_byte());
    }

    /// Appends an instruction followed by one parameter byte.
    pub fn add_param(&mut self, opcode: Opcode, parameter: u8)
        ensures
            final(self)@ == old(self)@.push(opcode_byte(opcode)).push(parameter),
    {
        self.bin.push(opcode.to_byte());
        self.bin.push(parameter);
    }

    /// Appends an instruction followed by two parameter bytes.
    pub fn add_params(&mut self, opcode: Opcode, parameter_1: u8, parameter_2: u8)
        ensures
            final(self)@ == old(self)@.push(opcode_byte(opcode)).push(parameter_1).push(
                parameter_2,
            ),
    {
        self.bin.push(opcode.to_byte());
        self.bin.push(parameter_1);
        self.bin.push(parameter_2);
    }

    /// Appends an instruction followed by a little-endian word parameter.
    pub fn add_param_word(&mut self, opcode: Opcode, parameter: u16)
        ensures
            final(self)@ == old(self)@.push(opcode_byte(opcode)).push(word_low(parameter)).push(
                word_high(parameter),
            ),
    {
        let (high, low) = crate::alu::get_bytes(parameter);
        self.bin.push(opcode.to_byte());
        self.bin.push(low);
        self.bin.push(high);
    }

    /// Appends raw bytes verbatim.
    pub fn add_vector(&mut self, parameters: Vec<u8>)
        ensures
            final(self)@ == old(self)@ + parameters@,
    {
        let mut parameters = parameters;
        self.bin.append(&mut parameters);
    }
}

} // verus!
