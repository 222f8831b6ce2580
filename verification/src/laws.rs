//! Laws of the instruction set, stated over the step semantics: the
//! increment/decrement round trip, the push/pop round trip, and flag
//! isolation (an instruction rewrites no status bit outside its declared
//! affected set).

use vstd::prelude::*;
use vstd::wrapping::u16_specs;
use crate::alu::{word_high, word_low, word_of};
use crate::arithmetic_8bit::{
    arith8_status, spec_decrement_register, spec_increment_register, spec_operate8,
};
use crate::arithmetic_16bit::arith16_status;
use crate::bitwise::{bitwise_status, spec_bitwise_operation, spec_rotate_accumulator_left};
use crate::control::spec_jump;
use crate::flags::{flag_set, lemma_flag_set_outside, Flag};
use crate::loads::{spec_load_into_memory, spec_load_into_register_pair};
use crate::machine::{spec_step, MachineView};
use crate::opcodes::Instr;
use crate::registers::{pair_read, reg8_read, RegPair, Reg8};
use crate::stack::{spec_pop_from_stack, spec_push_to_stack};

verus! {

/// Incrementing and then decrementing a register (or the reverse) restores
/// its value exactly, whatever the flag side effects of each step.
pub proof fn lemma_increment_decrement_roundtrip(m: MachineView, r: Reg8)
    ensures
        reg8_read(
            spec_decrement_register(spec_increment_register(m, r), r).cpu.state.registers,
            r,
        ) == reg8_read(m.cpu.state.registers, r),
        reg8_read(
            spec_increment_register(spec_decrement_register(m, r), r).cpu.state.registers,
            r,
        ) == reg8_read(m.cpu.state.registers, r),
{
    reveal(spec_operate8);
    let v = reg8_read(m.cpu.state.registers, r);
    assert((v + 1) % 256 + 255 < 512);
    assert(((v + 1) % 256 + 255) % 256 == v) by {
        if v == 255 {
            assert((v + 1) % 256 == 0);
        } else {
            assert((v + 1) % 256 == v + 1);
            assert((v + 256) % 256 == v) by {
                vstd::arithmetic::div_mod::lemma_mod_add_multiples_vanish(v as int, 256);
            }
        }
    }
    assert(((v + 255) % 256 + 1) % 256 == v) by {
        if v == 0 {
            assert((v + 255) % 256 == 255);
        } else {
            assert((v + 255) % 256 == v - 1) by {
                vstd::arithmetic::div_mod::lemma_mod_add_multiples_vanish(v - 1, 256);
            }
        }
    }
}

/// Pushing a register pair and popping into it restores the pair's value
/// and the stack pointer exactly, for every pair and every pair value.
pub proof fn lemma_push_pop_roundtrip(m: MachineView, rp: RegPair)
    requires
        m.mem.len() == crate::memory::address_space(),
    ensures
        pair_read(
            spec_pop_from_stack(spec_push_to_stack(m, rp), rp).cpu.state.registers,
            rp,
        ) == pair_read(m.cpu.state.registers, rp),
        spec_pop_from_stack(spec_push_to_stack(m, rp), rp).cpu.state.registers.s
            == m.cpu.state.registers.s,
        spec_pop_from_stack(spec_push_to_stack(m, rp), rp).cpu.state.registers.p
            == m.cpu.state.registers.p,
{
    reveal(spec_push_to_stack);
    reveal(spec_pop_from_stack);
    let regs = m.cpu.state.registers;
    let sp = word_of(regs.s, regs.p);
    let new_sp = u16_specs::wrapping_sub(sp, 2);
    let high_slot = u16_specs::wrapping_sub(sp, 1);
    // The two stack cells are distinct, and sit at new_sp and new_sp + 1.
    assert(high_slot != new_sp);
    assert(crate::memory::next_address(new_sp) == high_slot);
    assert(u16_specs::wrapping_add(new_sp, 2) == sp);
    // The pushed halves are what pop reads back.
    let pushed = spec_push_to_stack(m, rp);
    assert(pushed.mem[new_sp as int] == pair_read(regs, rp).1);
    assert(pushed.mem[high_slot as int] == pair_read(regs, rp).0);
    assert(word_of(word_high(new_sp), word_low(new_sp)) == new_sp);
}

/// The set of status bits an instruction class may rewrite, as a mask.
/// Every other bit of the status byte is left bit-for-bit unchanged.
pub open spec fn affected_flags_mask(i: Instr) -> u8 {
    match i {
        Instr::Add(_) | Instr::Adc(_) | Instr::Sub(_) | Instr::Sbc(_) => 0xD7,
        Instr::And(_) | Instr::Or(_) | Instr::Xor(_) => 0xD7,
        Instr::Inc(_) | Instr::Dec(_) => 0xD6,
        Instr::AddPair(_, _) => 0x13,
        Instr::RotateLeft => 0x13,
        _ => 0x00,
    }
}

/// A byte is disjoint from its own complement.
proof fn lemma_self_disjoint(x: u8)
    ensures
        x & !x == 0,
        !x & x == 0,
{
    assert(x & !x == 0 && !x & x == 0) by (bit_vector);
}

/// Bits outside the full arithmetic flag set are outside each written flag.
proof fn lemma_arith8_status_outside(
    status: u8,
    op1: u8,
    op2: u8,
    subtraction: bool,
    update_carry: bool,
    outside: u8,
)
    requires
        update_carry ==> outside & 0xD7 == 0,
        !update_carry ==> outside & 0xD6 == 0,
    ensures
        arith8_status(status, op1, op2, subtraction, update_carry) & outside == status & outside,
{
    reveal(arith8_status);
    assert((outside & 0xD6 == 0 || outside & 0xD7 == 0) ==> (0x02u8 & outside == 0 && 0x04u8
        & outside == 0 && 0x10u8 & outside == 0 && 0x40u8 & outside == 0 && 0x80u8 & outside
        == 0)) by (bit_vector);
    assert(outside & 0xD7 == 0 ==> 0x01u8 & outside == 0) by (bit_vector);
    let s1 = flag_set(status, Flag::AddSubtract, subtraction);
    lemma_flag_set_outside(status, Flag::AddSubtract, subtraction, outside);
    let carry = crate::alu::byte_add_carry(op1, op2, false);
    let s2 = if update_carry {
        flag_set(s1, Flag::Carry, carry)
    } else {
        s1
    };
    if update_carry {
        lemma_flag_set_outside(s1, Flag::Carry, carry, outside);
    }
    lemma_flag_set_outside(s2, Flag::HalfCarry, crate::alu::byte_add_half_carry(op1, op2, false), outside);
    let s3 = flag_set(s2, Flag::HalfCarry, crate::alu::byte_add_half_carry(op1, op2, false));
    lemma_flag_set_outside(s3, Flag::ParityOverflow, crate::arithmetic_8bit::add8_overflow(op1, op2), outside);
    let s4 = flag_set(s3, Flag::ParityOverflow, crate::arithmetic_8bit::add8_overflow(op1, op2));
    let value = crate::alu::byte_add_value(op1, op2, false);
    lemma_flag_set_outside(s4, Flag::Sign, value > 0x7F, outside);
    let s5 = flag_set(s4, Flag::Sign, value > 0x7F);
    lemma_flag_set_outside(s5, Flag::Zero, value == 0, outside);
}

/// Bits outside {Carry, HalfCarry, AddSubtract} survive a wide addition.
proof fn lemma_arith16_status_outside(status: u8, op1: u16, op2: u16, subtraction: bool, outside: u8)
    requires
        outside & 0x13 == 0,
    ensures
        arith16_status(status, op1, op2, subtraction) & outside == status & outside,
{
    reveal(arith16_status);
    assert(outside & 0x13 == 0 ==> (0x01u8 & outside == 0 && 0x02u8 & outside == 0 && 0x10u8
        & outside == 0)) by (bit_vector);
    let s1 = flag_set(status, Flag::Carry, crate::alu::word_add_carry(op1, op2));
    lemma_flag_set_outside(status, Flag::Carry, crate::alu::word_add_carry(op1, op2), outside);
    let s2 = flag_set(s1, Flag::HalfCarry, crate::alu::word_add_half_carry(op1, op2));
    lemma_flag_set_outside(s1, Flag::HalfCarry, crate::alu::word_add_half_carry(op1, op2), outside);
    lemma_flag_set_outside(s2, Flag::AddSubtract, subtraction, outside);
}

/// Bits outside the bitwise flag set survive a bitwise operation.
proof fn lemma_bitwise_status_outside(status: u8, result: u8, half_carry_value: bool, outside: u8)
    requires
        outside & 0xD7 == 0,
    ensures
        bitwise_status(status, result, half_carry_value) & outside == status & outside,
{
    reveal(bitwise_status);
    assert(outside & 0xD7 == 0 ==> (0x01u8 & outside == 0 && 0x02u8 & outside == 0 && 0x04u8
        & outside == 0 && 0x10u8 & outside == 0 && 0x40u8 & outside == 0 && 0x80u8 & outside
        == 0)) by (bit_vector);
    let p = crate::bitwise::parity_even(result);
    let s1 = flag_set(status, Flag::ParityOverflow, p);
    lemma_flag_set_outside(status, Flag::ParityOverflow, p, outside);
    let s2 = flag_set(s1, Flag::Carry, false);
    lemma_flag_set_outside(s1, Flag::Carry, false, outside);
    let s3 = flag_set(s2, Flag::HalfCarry, half_carry_value);
    lemma_flag_set_outside(s2, Flag::HalfCarry, half_carry_value, outside);
    let s4 = flag_set(s3, Flag::AddSubtract, false);
    lemma_flag_set_outside(s3, Flag::AddSubtract, false, outside);
    let s5 = flag_set(s4, Flag::Zero, result == 0);
    lemma_flag_set_outside(s4, Flag::Zero, result == 0, outside);
    lemma_flag_set_outside(s5, Flag::Sign, result > 0x7F, outside);
}

/// Flag isolation: an instruction leaves every status bit outside its
/// affected set bit-for-bit unchanged.
pub proof fn lemma_flag_isolation(m: MachineView, i: Instr)
    ensures
        spec_step(m, i).cpu.state.status & !affected_flags_mask(i) == m.cpu.state.status
            & !affected_flags_mask(i),
{
    let outside = !affected_flags_mask(i);
    let status = m.cpu.state.status;
    let regs = m.cpu.state.registers;
    reveal(spec_operate8);
    reveal(crate::arithmetic_16bit::spec_operate16);
    reveal(spec_bitwise_operation);
    reveal(spec_rotate_accumulator_left);
    reveal(spec_jump);
    reveal(spec_push_to_stack);
    reveal(spec_pop_from_stack);
    reveal(spec_load_into_register_pair);
    reveal(spec_load_into_memory);
    reveal(crate::exchange::spec_exchange_all_registers_with_shadow);
    reveal(crate::exchange::spec_exchange_accumulator_and_flags_with_shadow);
    reveal(crate::exchange::spec_exchange_de_with_hl);
    reveal(crate::exchange::spec_exchange_memory_from_sp_with_hl);
    match i {
        Instr::Add(_) | Instr::Adc(_) | Instr::Sub(_) | Instr::Sbc(_) => {
            lemma_self_disjoint(0xD7);
            let m2 = spec_step(m, i);
            assert(m2.cpu.state.status == arith8_status(
                status,
                spec_step_op1(m, i),
                spec_step_op2(m, i),
                i is Sub || i is Sbc,
                true,
            ));
            lemma_arith8_status_outside(
                status,
                spec_step_op1(m, i),
                spec_step_op2(m, i),
                i is Sub || i is Sbc,
                true,
                outside,
            );
        },
        Instr::Inc(_) | Instr::Dec(_) => {
            lemma_self_disjoint(0xD6);
            lemma_arith8_status_outside(
                status,
                spec_step_op1(m, i),
                spec_step_op2(m, i),
                i is Dec,
                false,
                outside,
            );
        },
        Instr::And(r) | Instr::Or(r) | Instr::Xor(r) => {
            lemma_self_disjoint(0xD7);
            let op = match i {
                Instr::And(_) => crate::bitwise::BitOp::And,
                Instr::Or(_) => crate::bitwise::BitOp::Or,
                _ => crate::bitwise::BitOp::Xor,
            };
            let result = crate::bitwise::bit_op_apply(op, regs.a, reg8_read(regs, r));
            lemma_bitwise_status_outside(status, result, i is And, outside);
        },
        Instr::AddPair(t, s) => {
            lemma_self_disjoint(0x13);
            lemma_arith16_status_outside(
                status,
                crate::registers::pair_word(regs, t),
                crate::registers::pair_word(regs, s),
                false,
                outside,
            );
        },
        Instr::RotateLeft => {
            lemma_self_disjoint(0x13);
            assert(outside & 0x13 == 0 ==> (0x01u8 & outside == 0 && 0x02u8 & outside == 0
                && 0x10u8 & outside == 0)) by (bit_vector);
            let a = regs.a;
            let s1 = flag_set(status, Flag::Carry, a >= 0x80);
            lemma_flag_set_outside(status, Flag::Carry, a >= 0x80, outside);
            let s2 = flag_set(s1, Flag::HalfCarry, false);
            lemma_flag_set_outside(s1, Flag::HalfCarry, false, outside);
            lemma_flag_set_outside(s2, Flag::AddSubtract, false, outside);
        },
        _ => {},
    }
}

/// The first adder operand an arithmetic instruction feeds in.
spec fn spec_step_op1(m: MachineView, i: Instr) -> u8 {
    let regs = m.cpu.state.registers;
    match i {
        Instr::Add(_) | Instr::Adc(_) | Instr::Sub(_) | Instr::Sbc(_) => regs.a,
        Instr::Inc(r) | Instr::Dec(r) => reg8_read(regs, r),
        _ => 0,
    }
}

/// The second adder operand, after the carry fold and the negation.
spec fn spec_step_op2(m: MachineView, i: Instr) -> u8 {
    let regs = m.cpu.state.registers;
    let status = m.cpu.state.status;
    match i {
        Instr::Add(r) => reg8_read(regs, r),
        Instr::Adc(r) => crate::alu::byte_add_value(
            reg8_read(regs, r),
            crate::flags::flag_get_bit(status, Flag::Carry),
            false,
        ),
        Instr::Sub(r) => crate::alu::negate_byte(reg8_read(regs, r)),
        Instr::Sbc(r) => crate::alu::negate_byte(
            crate::alu::byte_add_value(
                reg8_read(regs, r),
                crate::flags::flag_get_bit(status, Flag::Carry),
                false,
            ),
        ),
        Instr::Inc(_) => 1,
        Instr::Dec(_) => crate::alu::negate_byte(1),
        _ => 0,
    }
}

} // verus!

