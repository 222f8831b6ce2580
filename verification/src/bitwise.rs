//! Bitwise instructions: AND, OR, XOR against the accumulator, and the
//! accumulator left rotation. ParityOverflow doubles as an even-parity
//! indicator here; Carry and AddSubtract are cleared; HalfCarry takes a
//! fixed per-operation value, mirroring the hardware quirk.

use vstd::prelude::*;
use crate::flags::{flag_set, Flag};
use crate::machine::{with_cycles, with_registers, with_status, Machine, MachineView};
use crate::registers::{reg8_read, reg8_write, Reg8};

verus! {

/// One of the three accumulator bitwise operations.
#[derive(Clone, Copy, PartialEq, Eq, Structural, Debug)]
pub enum BitOp {
    And,
    Or,
    Xor,
}

/// The result of one bitwise operation.
pub open spec fn bit_op_apply(op: BitOp, a: u8, b: u8) -> u8 {
    match op {
        BitOp::And => a & b,
        BitOp::Or => a | b,
        BitOp::Xor => a ^ b,
    }
}

/// Whether the number of set bits among the 8 result bits is even.
#[verifier::opaque]
pub open spec fn parity_even(v: u8) -> bool {
    (((v >> 0) & 1) + ((v >> 1) & 1) + ((v >> 2) & 1) + ((v >> 3) & 1) + ((v >> 4) & 1) + ((v >> 5)
        & 1) + ((v >> 6) & 1) + ((v >> 7) & 1)) % 2 == 0
}

/// The status byte after a bitwise operation: ParityOverflow becomes the
/// even-parity indicator, Carry and AddSubtract are cleared, HalfCarry takes
/// the operation's fixed value, Zero and Sign follow the result.
#[verifier::opaque]
pub open spec fn bitwise_status(status: u8, result: u8, half_carry_value: bool) -> u8 {
    let s1 = flag_set(status, Flag::ParityOverflow, parity_even(result));
    let s2 = flag_set(s1, Flag::Carry, false);
    let s3 = flag_set(s2, Flag::HalfCarry, half_carry_value);
    let s4 = flag_set(s3, Flag::AddSubtract, false);
    let s5 = flag_set(s4, Flag::Zero, result == 0);
    flag_set(s5, Flag::Sign, result > 0x7F)
}

/// A bitwise operation: accumulator = accumulator OP selected register.
#[verifier::opaque]
pub open spec fn spec_bitwise_operation(
    m: MachineView,
    operand: Reg8,
    op: BitOp,
    half_carry_value: bool,
) -> MachineView {
    let result = bit_op_apply(
        op,
        m.cpu.state.registers.a,
        reg8_read(m.cpu.state.registers, operand),
    );
    with_status(
        with_registers(m, reg8_write(m.cpu.state.registers, Reg8::A, result)),
        bitwise_status(m.cpu.state.status, result, half_carry_value),
    )
}

/// AND r: HalfCarry is fixed true.
pub open spec fn spec_and_register(m: MachineView, operand: Reg8) -> MachineView {
    with_cycles(spec_bitwise_operation(m, operand, BitOp::And, true), 4)
}

/// OR r: HalfCarry is fixed false.
pub open spec fn spec_or_register(m: MachineView, operand: Reg8) -> MachineView {
    with_cycles(spec_bitwise_operation(m, operand, BitOp::Or, false), 4)
}

/// XOR r: HalfCarry is fixed false.
pub open spec fn spec_xor_register(m: MachineView, operand: Reg8) -> MachineView {
    with_cycles(spec_bitwise_operation(m, operand, BitOp::Xor, false), 4)
}

/// RLCA: the accumulator rotated left one bit; the bit rotated out becomes
/// the new Carry and reappears at bit 0. HalfCarry and AddSubtract are
/// cleared; Zero, Sign and ParityOverflow are not touched.
#[verifier::opaque]
pub open spec fn spec_rotate_accumulator_left(m: MachineView) -> MachineView {
    let a = m.cpu.state.registers.a;
    let value = (a << 1) | (a >> 7);
    let s1 = flag_set(m.cpu.state.status, Flag::Carry, a >= 0x80);
    let s2 = flag_set(s1, Flag::HalfCarry, false);
    let s3 = flag_set(s2, Flag::AddSubtract, false);
    with_cycles(
        with_status(with_registers(m, reg8_write(m.cpu.state.registers, Reg8::A, value)), s3),
        4,
    )
}

/// Each masked bit is at most 1, so the eight of them sum without overflow.
proof fn lemma_bit_le_one(v: u8)
    ensures
        forall|k: u8| #[trigger] ((v >> k) & 1) <= 1,
{
    assert forall|k: u8| #[trigger] ((v >> k) & 1) <= 1 by {
        let x = v >> k;
        assert(x & 1 <= 1) by (bit_vector);
    }
}

/// Whether the number of set bits in a byte is even.
fn compute_parity_even(v: u8) -> (r: bool)
    ensures
        r == parity_even(v),
{
    proof {
        reveal(parity_even);
        lemma_bit_le_one(v);
    }
    let count = ((v >> 0) & 1) + ((v >> 1) & 1) + ((v >> 2) & 1) + ((v >> 3) & 1) + ((v >> 4) & 1)
        + ((v >> 5) & 1) + ((v >> 6) & 1) + ((v >> 7) & 1);
    count % 2 == 0
}

impl Machine {
    /// accumulator = accumulator OP selected register, with the bitwise flag
    /// derivation; the caller attributes the clock cost.
    pub fn bitwise_operation(&mut self, operand: Reg8, operation: BitOp, half_carry_value: bool)
        requires
            old(self).wf(),
        ensures
            final(self).wf(),
            final(self)@ == spec_bitwise_operation(old(self)@, operand, operation, half_carry_value),
    {
        proof {
            reveal(spec_bitwise_operation);
            reveal(bitwise_status);
        }
        let op1 = self.cpu.state.registers.a;
        let op2 = self.cpu.state.registers.read8(operand);
        let result = match operation {
            BitOp::And => op1 & op2,
            BitOp::Or => op1 | op2,
            BitOp::Xor => op1 ^ op2,
        };
        let parity = compute_parity_even(result);
        self.cpu.state.registers.write8(Reg8::A, result);
        Flag::ParityOverflow.set(&mut self.cpu.state.status, parity);
        Flag::Carry.set(&mut self.cpu.state.status, false);
        Flag::HalfCarry.set(&mut self.cpu.state.status, half_carry_value);
        Flag::AddSubtract.set(&mut self.cpu.state.status, false);
        Flag::Zero.set(&mut self.cpu.state.status, result == 0);
        Flag::Sign.set(&mut self.cpu.state.status, result > 0x7F);
    }

    /// AND r.
    pub fn and_register(&mut self, operand: Reg8)
        requires
            old(self).wf(),
        ensures
            final(self).wf(),
            final(self)@ == spec_and_register(old(self)@, operand),
    {
        self.bitwise_operation(operand, BitOp::And, true);
        self.clock(4);
    }

    /// OR r.
    pub fn or_register(&mut self, operand: Reg8)
        requires
            old(self).wf(),
        ensures
            final(self).wf(),
            final(self)@ == spec_or_register(old(self)@, operand),
    {
        self.bitwise_operation(operand, BitOp::Or, false);
        self.clock(4);
    }

    /// XOR r.
    pub fn xor_register(&mut self, operand: Reg8)
        requires
            old(self).wf(),
        ensures
            final(self).wf(),
            final(self)@ == spec_xor_register(old(self)@, operand),
    {
        self.bitwise_operation(operand, BitOp::Xor, false);
        self.clock(4);
    }

    /// RLCA: rotate the accumulator left one bit through nothing; the bit
    /// rotated out lands in Carry and at bit 0.
    pub fn rotate_accumulator_left(&mut self)
        requires
            old(self).wf(),
        ensures
            final(self).wf(),
            final(self)@ == spec_rotate_accumulator_left(old(self)@),
    {
        proof {
            reveal(spec_rotate_accumulator_left);
        }
        let a = self.cpu.state.registers.a;
        let value = (a << 1u8) | (a >> 7u8);
        self.cpu.state.registers.write8(Reg8::A, value);
        Flag::Carry.set(&mut self.cpu.state.status, a >= 0x80);
        Flag::HalfCarry.set(&mut self.cpu.state.status, false);
        Flag::AddSubtract.set(&mut self.cpu.state.status, false);
        self.clock(4);
    }
}

} // verus!
