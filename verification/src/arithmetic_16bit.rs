//! 16-bit arithmetic instructions: wide increment and decrement (no flags),
//! and the wide register-pair addition (Carry, HalfCarry and AddSubtract
//! only — a deliberate asymmetry with 8-bit addition).

use vstd::prelude::*;
use crate::alu;
use crate::alu::{
    negate_word, word_add_carry, word_add_half_carry, word_add_value, word_high, word_low,
};
use crate::flags::{flag_set, Flag};
use crate::machine::{with_cycles, with_registers, with_status, Machine, MachineView};
use crate::registers::{pair_word, pair_write, RegPair};

verus! {

/// The status byte after a wide addition: only Carry (bit-15 carry),
/// HalfCarry (bit-11 carry) and AddSubtract are rewritten; Zero, Sign and
/// ParityOverflow keep their prior values.
#[verifier::opaque]
pub open spec fn arith16_status(status: u8, op1: u16, op2: u16, subtraction: bool) -> u8 {
    let s1 = flag_set(status, Flag::Carry, word_add_carry(op1, op2));
    let s2 = flag_set(s1, Flag::HalfCarry, word_add_half_carry(op1, op2));
    flag_set(s2, Flag::AddSubtract, subtraction)
}

/// A word arithmetic operation on one register pair: the pair, read
/// big-endian, receives the truncated word sum; the flags are rewritten only
/// when the instruction class affects them.
#[verifier::opaque]
pub open spec fn spec_operate16(
    m: MachineView,
    target: RegPair,
    operand: u16,
    subtraction: bool,
    update_flags: bool,
) -> MachineView {
    let op1 = pair_word(m.cpu.state.registers, target);
    let op2 = if subtraction {
        negate_word(operand)
    } else {
        operand
    };
    let value = word_add_value(op1, op2);
    let with_value = with_registers(
        m,
        pair_write(m.cpu.state.registers, target, word_high(value), word_low(value)),
    );
    if update_flags {
        with_status(with_value, arith16_status(m.cpu.state.status, op1, op2, subtraction))
    } else {
        with_value
    }
}

/// INC rr: the pair treated as one big-endian word, plus 1 modulo 65536;
/// no flag is affected.
pub open spec fn spec_increment_register_wide(m: MachineView, target: RegPair) -> MachineView {
    with_cycles(spec_operate16(m, target, 1, false, false), 6)
}

/// DEC rr: minus 1 modulo 65536; no flag is affected.
pub open spec fn spec_decrement_register_wide(m: MachineView, target: RegPair) -> MachineView {
    with_cycles(spec_operate16(m, target, 1, true, false), 6)
}

/// ADD rr,rr': wide addition through the word adder; Carry, HalfCarry and
/// AddSubtract only.
pub open spec fn spec_add_register_pair(m: MachineView, target: RegPair, source: RegPair) -> MachineView {
    with_cycles(
        spec_operate16(m, target, pair_word(m.cpu.state.registers, source), false, true),
        11,
    )
}

impl Machine {
    /// One word arithmetic operation on one register pair.
    pub fn operate_on_register_pair(
        &mut self,
        operation: crate::arithmetic_8bit::Operation,
        target: RegPair,
        operand: u16,
        update_flags: bool,
    )
        requires
            old(self).wf(),
        ensures
            final(self).wf(),
            final(self)@ == spec_operate16(
                old(self)@,
                target,
                operand,
                operation == crate::arithmetic_8bit::Operation::Subtract,
                update_flags,
            ),
    {
        proof {
            reveal(spec_operate16);
            reveal(arith16_status);
        }
        let subtraction = operation == crate::arithmetic_8bit::Operation::Subtract;
        let (high, low) = self.cpu.state.registers.read_pair(target);
        let op1 = crate::registers::Registers::u8s_to_u16(high, low);
        let op2 = if subtraction {
            negate_wide(operand)
        } else {
            operand
        };
        let result = alu::add_words(op1, op2);
        let (result_high, result_low) = crate::registers::Registers::u16_to_u8s(result.value);
        self.cpu.state.registers.write_pair(target, result_high, result_low);
        if update_flags {
            Flag::Carry.set(&mut self.cpu.state.status, result.carry);
            Flag::HalfCarry.set(&mut self.cpu.state.status, result.half_carry);
            Flag::AddSubtract.set(&mut self.cpu.state.status, subtraction);
        }
    }

    /// INC rr: wraps at 65536; affects no flags.
    pub fn increment_register_wide(&mut self, target: RegPair)
        requires
            old(self).wf(),
        ensures
            final(self).wf(),
            final(self)@ == spec_increment_register_wide(old(self)@, target),
    {
        self.operate_on_register_pair(crate::arithmetic_8bit::Operation::Add, target, 1, false);
        self.clock(6);
    }

    /// DEC rr: wraps at 0; affects no flags.
    pub fn decrement_register_wide(&mut self, target: RegPair)
        requires
            old(self).wf(),
        ensures
            final(self).wf(),
            final(self)@ == spec_decrement_register_wide(old(self)@, target),
    {
        self.operate_on_register_pair(crate::arithmetic_8bit::Operation::Subtract, target, 1, false);
        self.clock(6);
    }

    /// ADD rr,rr': Carry, HalfCarry and AddSubtract only.
    pub fn add_register_pair(&mut self, target: RegPair, source: RegPair)
        requires
            old(self).wf(),
        ensures
            final(self).wf(),
            final(self)@ == spec_add_register_pair(old(self)@, target, source),
    {
        let (high, low) = self.cpu.state.registers.read_pair(source);
        let operand = crate::registers::Registers::u8s_to_u16(high, low);
        self.operate_on_register_pair(crate::arithmetic_8bit::Operation::Add, target, operand, true);
        self.clock(11);
    }
}

/// The two's complement `!v + 1` of a word, the adder's route to subtraction.
fn negate_wide(value: u16) -> (r: u16)
    ensures
        r == negate_word(value),
{
    proof {
        assert(!value == 0xFFFF - value) by (bit_vector);
    }
    (!value).wrapping_add(1)
}

} // verus!
