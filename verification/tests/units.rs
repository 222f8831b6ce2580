use z80vm::alu;
use z80vm::flags::Flag;
use z80vm::machine::Machine;
use z80vm::opcodes::Opcode;
use z80vm::program::Program;
use z80vm::registers::{Reg8, RegPair, Registers};

#[test]
fn add_bytes_matches_wide_addition() {
    let r = alu::add_bytes(0x7E, 0x02);
    assert_eq!(r.value, 0x80);
    assert!(r.half_carry);
    assert!(!r.carry);

    let r = alu::add_bytes(0xFF, 0x01);
    assert_eq!(r.value, 0x00);
    assert!(r.half_carry);
    assert!(r.carry);

    let r = alu::add_bytes(0x08, 0x07);
    assert_eq!(r.value, 0x0F);
    assert!(!r.half_carry);
    assert!(!r.carry);
}

#[test]
fn add_bytes_agrees_with_reference_formulas() {
    // The nibble-chained adder must agree with the direct characterization
    // on every pair of bytes.
    for a in 0..=255u8 {
        for b in 0..=255u8 {
            let r = alu::add_bytes(a, b);
            let wide = a as u16 + b as u16;
            assert_eq!(r.value, wide as u8);
            assert_eq!(r.half_carry, (a & 0xF) + (b & 0xF) > 0xF);
            assert_eq!(r.carry, wide > 0xFF);
        }
    }
}

#[test]
fn add_words_reports_bit11_and_bit15_carries() {
    let r = alu::add_words(0x0FFF, 0x0001);
    assert_eq!(r.value, 0x1000);
    assert!(r.half_carry);
    assert!(!r.carry);

    let r = alu::add_words(0xFFFF, 0x0001);
    assert_eq!(r.value, 0x0000);
    assert!(r.half_carry);
    assert!(r.carry);

    let r = alu::add_words(0x1234, 0x0111);
    assert_eq!(r.value, 0x1345);
    assert!(!r.half_carry);
    assert!(!r.carry);
}

#[test]
fn negate_is_twos_complement() {
    assert_eq!(alu::negate(0x00), 0x00);
    assert_eq!(alu::negate(0x01), 0xFF);
    assert_eq!(alu::negate(0x80), 0x80);
    assert_eq!(alu::negate(0x03), 0xFD);
}

#[test]
fn word_packing_round_trips() {
    assert_eq!(alu::get_word(0x12, 0x34), 0x1234);
    assert_eq!(alu::get_bytes(0x1234), (0x12, 0x34));
    assert_eq!(Registers::u8s_to_u16(0xAB, 0xCD), 0xABCD);
    assert_eq!(Registers::u16_to_u8s(0xABCD), (0xAB, 0xCD));
}

#[test]
fn flag_bits_are_independent() {
    let mut status: u8 = 0;
    Flag::Carry.set(&mut status, true);
    Flag::Zero.set(&mut status, true);
    assert_eq!(status, 0x41);
    assert!(Flag::Carry.get(&status));
    assert!(Flag::Zero.get(&status));
    assert!(!Flag::Sign.get(&status));
    Flag::Carry.set(&mut status, false);
    assert_eq!(status, 0x40);
    assert_eq!(Flag::Zero.get_bit(&status), 0x40);
    assert_eq!(Flag::Carry.get_bit(&status), 0x00);
}

#[test]
fn fresh_machine_is_halted_with_stack_at_top() {
    let vm = Machine::new();
    assert!(vm.cpu.is_halted());
    assert_eq!(vm.cpu.state.program_counter, 0);
    assert_eq!(vm.cpu.state.status, 0);
    assert_eq!(vm.cpu.state.registers.a, 0);
    assert_eq!(vm.cpu.state.registers.s, 0xFF);
    assert_eq!(vm.cpu.state.registers.p, 0xFF);
    assert_eq!(vm.cycles, 0);
    assert_eq!(vm.ram.read_u8(0x1234), 0);
}

#[test]
fn memory_words_are_little_endian() {
    let mut vm = Machine::new();
    vm.ram.write_u16(0x0100, 0xBEEF);
    assert_eq!(vm.ram.read_u8(0x0100), 0xEF);
    assert_eq!(vm.ram.read_u8(0x0101), 0xBE);
    assert_eq!(vm.ram.read_u16(0x0100), 0xBEEF);
}

#[test]
fn opcode_bytes_round_trip() {
    assert_eq!(Opcode::IncA.to_byte(), 0x3C);
    assert_eq!(Opcode::Halt.to_byte(), 0x76);
    assert_eq!(Opcode::from_byte(0x3C), Some(Opcode::IncA));
    assert_eq!(Opcode::from_byte(0xFE), None);
    for b in 0..=255u8 {
        if let Some(op) = Opcode::from_byte(b) {
            assert_eq!(op.to_byte(), b);
        }
    }
}

#[test]
fn program_builder_appends_in_order() {
    let mut p = Program::new();
    p.add(Opcode::Nop);
    p.add_param(Opcode::IncA, 0x11);
    p.add_params(Opcode::IncB, 0x22, 0x33);
    p.add_param_word(Opcode::JpXX, 0x1234);
    p.add_vector(vec![0x55]);
    assert_eq!(
        p.raw().as_slice(),
        &[0x00, 0x3C, 0x11, 0x04, 0x22, 0x33, 0xC3, 0x34, 0x12, 0x55],
    );
}

#[test]
fn push_pop_round_trips_pair_and_stack_pointer() {
    let mut vm = Machine::new();
    vm.cpu.state.registers.b = 0x12;
    vm.cpu.state.registers.c = 0x34;
    vm.push_to_stack(RegPair::BC);
    assert_eq!(Registers::u8s_to_u16(vm.cpu.state.registers.s, vm.cpu.state.registers.p), 0xFFFD);
    assert_eq!(vm.ram.read_u8(0xFFFE), 0x12);
    assert_eq!(vm.ram.read_u8(0xFFFD), 0x34);
    vm.pop_from_stack(RegPair::DE);
    assert_eq!(vm.cpu.state.registers.d, 0x12);
    assert_eq!(vm.cpu.state.registers.e, 0x34);
    assert_eq!(Registers::u8s_to_u16(vm.cpu.state.registers.s, vm.cpu.state.registers.p), 0xFFFF);
}

#[test]
fn bitwise_operations_drive_parity_and_fixed_flags() {
    let mut vm = Machine::new();
    vm.cpu.state.registers.a = 0xF0;
    vm.cpu.state.registers.b = 0x0F;
    vm.and_register(Reg8::B);
    assert_eq!(vm.cpu.state.registers.a, 0x00);
    assert!(Flag::Zero.get(&vm.cpu.state.status));
    assert!(Flag::HalfCarry.get(&vm.cpu.state.status));
    assert!(Flag::ParityOverflow.get(&vm.cpu.state.status));
    assert!(!Flag::Carry.get(&vm.cpu.state.status));
    assert!(!Flag::AddSubtract.get(&vm.cpu.state.status));

    vm.cpu.state.registers.a = 0xF0;
    vm.or_register(Reg8::B);
    assert_eq!(vm.cpu.state.registers.a, 0xFF);
    assert!(!Flag::HalfCarry.get(&vm.cpu.state.status));
    assert!(Flag::ParityOverflow.get(&vm.cpu.state.status));
    assert!(Flag::Sign.get(&vm.cpu.state.status));

    vm.cpu.state.registers.a = 0xF1;
    vm.xor_register(Reg8::B);
    assert_eq!(vm.cpu.state.registers.a, 0xFE);
    // Seven set bits: odd parity.
    assert!(!Flag::ParityOverflow.get(&vm.cpu.state.status));
}

#[test]
fn rotate_left_carries_the_top_bit_around() {
    let mut vm = Machine::new();
    vm.cpu.state.registers.a = 0x81;
    vm.rotate_accumulator_left();
    assert_eq!(vm.cpu.state.registers.a, 0x03);
    assert!(Flag::Carry.get(&vm.cpu.state.status));
    assert!(!Flag::HalfCarry.get(&vm.cpu.state.status));
    assert!(!Flag::AddSubtract.get(&vm.cpu.state.status));

    vm.cpu.state.registers.a = 0x40;
    vm.rotate_accumulator_left();
    assert_eq!(vm.cpu.state.registers.a, 0x80);
    assert!(!Flag::Carry.get(&vm.cpu.state.status));
}

#[test]
fn exchanges_swap_simultaneously() {
    let mut vm = Machine::new();
    vm.cpu.state.registers.b = 0x01;
    vm.cpu.state.registers.c = 0x02;
    vm.cpu.state.alt_registers.b = 0x11;
    vm.cpu.state.alt_registers.c = 0x12;
    vm.exchange_all_registers_with_shadow();
    assert_eq!(vm.cpu.state.registers.b, 0x11);
    assert_eq!(vm.cpu.state.registers.c, 0x12);
    assert_eq!(vm.cpu.state.alt_registers.b, 0x01);
    assert_eq!(vm.cpu.state.alt_registers.c, 0x02);

    vm.cpu.state.registers.a = 0xAA;
    vm.cpu.state.alt_registers.a = 0xBB;
    vm.exchange_accumulator_and_flags_with_shadow();
    assert_eq!(vm.cpu.state.registers.a, 0xBB);
    assert_eq!(vm.cpu.state.alt_registers.a, 0xAA);

    vm.cpu.state.registers.d = 0x0D;
    vm.cpu.state.registers.e = 0x0E;
    vm.cpu.state.registers.h = 0x04;
    vm.cpu.state.registers.l = 0x05;
    vm.exchange_de_with_hl();
    assert_eq!(vm.cpu.state.registers.d, 0x04);
    assert_eq!(vm.cpu.state.registers.e, 0x05);
    assert_eq!(vm.cpu.state.registers.h, 0x0D);
    assert_eq!(vm.cpu.state.registers.l, 0x0E);
}

#[test]
fn exchange_memory_at_sp_is_a_genuine_swap() {
    let mut vm = Machine::new();
    vm.cpu.state.registers.s = 0x80;
    vm.cpu.state.registers.p = 0x00;
    vm.ram.write_u8(0x8000, 0x21);
    vm.ram.write_u8(0x8001, 0x43);
    vm.cpu.state.registers.h = 0xAB;
    vm.cpu.state.registers.l = 0xCD;
    vm.exchange_memory_from_sp_with_hl();
    assert_eq!(vm.cpu.state.registers.l, 0x21);
    assert_eq!(vm.cpu.state.registers.h, 0x43);
    assert_eq!(vm.ram.read_u8(0x8000), 0xCD);
    assert_eq!(vm.ram.read_u8(0x8001), 0xAB);
}

#[test]
fn set_flag_writes_one_bit_only() {
    let mut vm = Machine::new();
    vm.cpu.state.status = 0x40;
    vm.set_flag(Flag::Carry, true);
    assert_eq!(vm.cpu.state.status, 0x41);
    vm.set_flag(Flag::Zero, false);
    assert_eq!(vm.cpu.state.status, 0x01);
}

#[test]
fn load_at_places_program_at_chosen_base() {
    let mut vm = Machine::new();
    let mut p = Program::new();
    p.add(Opcode::IncA);
    p.add(Opcode::Halt);
    vm.load_at(&p, 0x0200);
    assert_eq!(vm.ram.read_u8(0x0200), 0x3C);
    assert_eq!(vm.ram.read_u8(0x0201), 0x76);
    vm.start_at(0x0200).unwrap();
    assert_eq!(vm.cpu.state.registers.a, 0x01);
}
