//! An emulator for an 8-bit CPU of the Z80 architectural family: a register
//! file with a shadow set, an arithmetic-logic unit with exact flag
//! semantics, an opcode decoder, and a fetch-decode-execute engine over a
//! flat 64 KiB byte-addressable memory.

pub mod alu;
pub mod arithmetic_16bit;
pub mod arithmetic_8bit;
pub mod bitwise;
pub mod control;
pub mod exchange;
pub mod flags;
pub mod laws;
pub mod loads;
pub mod machine;
pub mod opcodes;
pub mod memory;
pub mod processor;
pub mod program;
pub mod registers;
pub mod stack;
pub mod state;

use vstd::prelude::*;

verus! {

} // verus!
