//! 8-bit arithmetic instructions: add, add-with-carry, subtract,
//! subtract-with-carry, increment and decrement, all routed through one
//! generic register operation with exact flag derivation.

use vstd::prelude::*;
use crate::alu;
use crate::alu::{byte_add_carry, byte_add_half_carry, byte_add_value, negate_byte};
use crate::flags::{flag_get_bit, flag_set, Flag};
use crate::machine::{with_cycles, with_registers, with_status, Machine, MachineView};
use crate::registers::{reg8_read, reg8_write, Reg8};

verus! {

/// Whether the adder is used to add or to subtract (by negating the operand).
#[derive(Clone, Copy, PartialEq, Eq, Structural, Debug)]
pub enum Operation {
    Add,
    Subtract,
}

/// Signed two's-complement overflow of a byte addition, from the operand
/// signs and the 9-bit-wide intermediate sum: both operands non-negative and
/// the sum above `0x7F`, or both negative and the wide sum below `0x80`.
pub open spec fn add8_overflow(op1: u8, op2: u8) -> bool {
    if op1 < 0x80 && op2 < 0x80 {
        op1 + op2 > 0x7F
    } else if op1 > 0x7F && op2 > 0x7F {
        op1 + op2 < 0x80
    } else {
        false
    }
}

/// The status byte after a byte arithmetic operation: AddSubtract records
/// the direction, Carry (only when the instruction affects it), HalfCarry,
/// ParityOverflow (signed overflow), Sign and Zero follow the result.
#[verifier::opaque]
pub open spec fn arith8_status(
    status: u8,
    op1: u8,
    op2: u8,
    subtraction: bool,
    update_carry: bool,
) -> u8 {
    let value = byte_add_value(op1, op2, false);
    let s1 = flag_set(status, Flag::AddSubtract, subtraction);
    let s2 = if update_carry {
        flag_set(s1, Flag::Carry, byte_add_carry(op1, op2, false))
    } else {
        s1
    };
    let s3 = flag_set(s2, Flag::HalfCarry, byte_add_half_carry(op1, op2, false));
    let s4 = flag_set(s3, Flag::ParityOverflow, add8_overflow(op1, op2));
    let s5 = flag_set(s4, Flag::Sign, value > 0x7F);
    flag_set(s5, Flag::Zero, value == 0)
}

/// A byte arithmetic operation on one register: the operand is negated for a
/// subtraction, the register receives the truncated sum, and the affected
/// flags are recomputed from the operands and the result.
#[verifier::opaque]
pub open spec fn spec_operate8(
    m: MachineView,
    target: Reg8,
    operand: u8,
    subtraction: bool,
    update_carry: bool,
) -> MachineView {
    let op1 = reg8_read(m.cpu.state.registers, target);
    let op2 = if subtraction {
        negate_byte(operand)
    } else {
        operand
    };
    let value = byte_add_value(op1, op2, false);
    with_status(
        with_registers(m, reg8_write(m.cpu.state.registers, target, value)),
        arith8_status(m.cpu.state.status, op1, op2, subtraction, update_carry),
    )
}

/// ADD r: accumulator plus the selected register; all six flags affected.
pub open spec fn spec_add_register(m: MachineView, selector: Reg8) -> MachineView {
    with_cycles(spec_operate8(m, Reg8::A, reg8_read(m.cpu.state.registers, selector), false, true), 4)
}

/// ADC r: the Carry bit is folded into the operand before the adder, so the
/// flags reflect the single combined addition.
pub open spec fn spec_add_carry_register(m: MachineView, selector: Reg8) -> MachineView {
    let operand = byte_add_value(
        reg8_read(m.cpu.state.registers, selector),
        flag_get_bit(m.cpu.state.status, Flag::Carry),
        false,
    );
    with_cycles(spec_operate8(m, Reg8::A, operand, false, true), 4)
}

/// SUB r: accumulator minus the selected register, via the negated operand.
pub open spec fn spec_subtract_register(m: MachineView, selector: Reg8) -> MachineView {
    with_cycles(spec_operate8(m, Reg8::A, reg8_read(m.cpu.state.registers, selector), true, true), 4)
}

/// SBC r: the Carry bit is folded into the operand before negation.
pub open spec fn spec_subtract_carry_register(m: MachineView, selector: Reg8) -> MachineView {
    let operand = byte_add_value(
        reg8_read(m.cpu.state.registers, selector),
        flag_get_bit(m.cpu.state.status, Flag::Carry),
        false,
    );
    with_cycles(spec_operate8(m, Reg8::A, operand, true, true), 4)
}

/// INC r: add the literal 1; Carry is deliberately not affected.
pub open spec fn spec_increment_register(m: MachineView, target: Reg8) -> MachineView {
    with_cycles(spec_operate8(m, target, 1, false, false), 4)
}

/// DEC r: subtract the literal 1; Carry is deliberately not affected.
pub open spec fn spec_decrement_register(m: MachineView, target: Reg8) -> MachineView {
    with_cycles(spec_operate8(m, target, 1, true, false), 4)
}

/// SCF/CCF-style direct flag write plus the clock budget.
pub open spec fn spec_set_flag(m: MachineView, flag: Flag, value: bool) -> MachineView {
    with_cycles(with_status(m, flag_set(m.cpu.state.status, flag, value)), 4)
}

impl Machine {
    /// One byte arithmetic operation on one register: negates the operand
    /// for a subtraction, routes through the nibble-chained adder, writes
    /// the result back and recomputes the affected flags.
    pub fn operate_on_register(
        &mut self,
        operation: Operation,
        target: Reg8,
        operand: u8,
        update_carry: bool,
    )
        requires
            old(self).wf(),
        ensures
            final(self).wf(),
            final(self)@ == spec_operate8(
                old(self)@,
                target,
                operand,
                operation == Operation::Subtract,
                update_carry,
            ),
    {
        proof {
            reveal(spec_operate8);
            reveal(arith8_status);
        }
        let subtraction = operation == Operation::Subtract;
        let op1 = self.cpu.state.registers.read8(target);
        let op2 = if subtraction {
            alu::negate(operand)
        } else {
            operand
        };
        let result = alu::add_bytes(op1, op2);
        let wide_sum = op1 as u16 + op2 as u16;
        let overflow = if op1 < 0x80 && op2 < 0x80 {
            wide_sum > 0x7F
        } else if op1 > 0x7F && op2 > 0x7F {
            wide_sum < 0x80
        } else {
            false
        };
        self.cpu.state.registers.write8(target, result.value);
        Flag::AddSubtract.set(&mut self.cpu.state.status, subtraction);
        if update_carry {
            Flag::Carry.set(&mut self.cpu.state.status, result.carry);
        }
        Flag::HalfCarry.set(&mut self.cpu.state.status, result.half_carry);
        Flag::ParityOverflow.set(&mut self.cpu.state.status, overflow);
        Flag::Sign.set(&mut self.cpu.state.status, result.value > 0x7F);
        Flag::Zero.set(&mut self.cpu.state.status, result.value == 0);
    }

    /// ADD r: accumulator plus the selected register.
    pub fn add_register(&mut self, selector: Reg8)
        requires
            old(self).wf(),
        ensures
            final(self).wf(),
            final(self)@ == spec_add_register(old(self)@, selector),
    {
        let operand = self.cpu.state.registers.read8(selector);
        self.operate_on_register(Operation::Add, Reg8::A, operand, true);
        self.clock(4);
    }

    /// ADC r: the selected register plus the Carry bit, folded into the
    /// operand before the adder so the flags see one combined addition.
    pub fn add_carry_register(&mut self, selector: Reg8)
        requires
            old(self).wf(),
        ensures
            final(self).wf(),
            final(self)@ == spec_add_carry_register(old(self)@, selector),
    {
        let carry = Flag::Carry.get_bit(&self.cpu.state.status);
        let operand = self.cpu.state.registers.read8(selector).wrapping_add(carry);
        self.operate_on_register(Operation::Add, Reg8::A, operand, true);
        self.clock(4);
    }

    /// SUB r: accumulator minus the selected register.
    pub fn subtract_register(&mut self, selector: Reg8)
        requires
            old(self).wf(),
        ensures
            final(self).wf(),
            final(self)@ == spec_subtract_register(old(self)@, selector),
    {
        let operand = self.cpu.state.registers.read8(selector);
        self.operate_on_register(Operation::Subtract, Reg8::A, operand, true);
        self.clock(4);
    }

    /// SBC r: the selected register plus the Carry bit, folded into the
    /// operand before negation.
    pub fn subtract_carry_register(&mut self, selector: Reg8)
        requires
            old(self).wf(),
        ensures
            final(self).wf(),
            final(self)@ == spec_subtract_carry_register(old(self)@, selector),
    {
        let carry = Flag::Carry.get_bit(&self.cpu.state.status);
        let operand = self.cpu.state.registers.read8(selector).wrapping_add(carry);
        self.operate_on_register(Operation::Subtract, Reg8::A, operand, true);
        self.clock(4);
    }

    /// INC r: Carry keeps its prior value.
    pub fn increment_register(&mut self, target: Reg8)
        requires
            old(self).wf(),
        ensures
            final(self).wf(),
            final(self)@ == spec_increment_register(old(self)@, target),
    {
        self.operate_on_register(Operation::Add, target, 1, false);
        self.clock(4);
    }

    /// DEC r: Carry keeps its prior value.
    pub fn decrement_register(&mut self, target: Reg8)
        requires
            old(self).wf(),
        ensures
            final(self).wf(),
            final(self)@ == spec_decrement_register(old(self)@, target),
    {
        self.operate_on_register(Operation::Subtract, target, 1, false);
        self.clock(4);
    }

    /// Writes one flag directly, leaving all other status bits untouched.
    pub fn set_flag(&mut self, flag: Flag, value: bool)
        requires
            old(self).wf(),
        ensures
            final(self).wf(),
            final(self)@ == spec_set_flag(old(self)@, flag, value),
    {
        flag.set(&mut self.cpu.state.status, value);
        self.clock(4);
    }
}

} // verus!
