use z80vm::flags::Flag;
use z80vm::machine::Machine;
use z80vm::opcodes::Opcode;
use z80vm::program::Program;
use z80vm::registers::Registers;

fn run_program(regs: fn(&mut Registers), stream: Vec<Opcode>) -> Machine {
    let mut vm = Machine::new();
    let mut p = Program::new();
    p.add_vector(stream.iter().map(|i| i.to_byte()).collect());
    vm.load(&p);
    regs(&mut vm.cpu.state.registers);
    vm.start().unwrap();
    vm
}

#[test]
fn increment() {
    let mut vm = run_program(|regs| regs.a = 0x7E, vec![Opcode::IncA, Opcode::Halt]);
    assert_eq!(vm.cpu.get_register(z80vm::registers::Reg8::A), 0x7F);
    assert!(!Flag::ParityOverflow.get(&vm.cpu.state.status));
    assert!(!Flag::Sign.get(&vm.cpu.state.status));
    assert!(!Flag::Carry.get(&vm.cpu.state.status));

    vm.start_at(0).unwrap();
    assert_eq!(vm.cpu.get_register(z80vm::registers::Reg8::A), 0x80);
    assert!(Flag::ParityOverflow.get(&vm.cpu.state.status));
    assert!(Flag::Sign.get(&vm.cpu.state.status));
    assert!(!Flag::Carry.get(&vm.cpu.state.status));

    vm.start_at(0).unwrap();
    assert_eq!(vm.cpu.get_register(z80vm::registers::Reg8::A), 0x81);
    assert!(!Flag::ParityOverflow.get(&vm.cpu.state.status));
    assert!(Flag::Sign.get(&vm.cpu.state.status));
    assert!(!Flag::Carry.get(&vm.cpu.state.status));

    vm.cpu.state.registers.a = 0xFF;
    vm.start_at(0).unwrap();
    assert_eq!(vm.cpu.get_register(z80vm::registers::Reg8::A), 0x00);
    assert!(!Flag::ParityOverflow.get(&vm.cpu.state.status));
    assert!(!Flag::Sign.get(&vm.cpu.state.status));
    assert!(!Flag::Carry.get(&vm.cpu.state.status));
}

#[test]
fn add() {
    let mut vm = run_program(
        |regs| {
            regs.a = 0x7E;
            regs.b = 0x01;
        },
        vec![Opcode::AddB, Opcode::Halt],
    );

    assert_eq!(vm.cpu.get_register(z80vm::registers::Reg8::A), 0x7F);
    assert!(!Flag::ParityOverflow.get(&vm.cpu.state.status));
    assert!(!Flag::Sign.get(&vm.cpu.state.status));
    assert!(!Flag::Carry.get(&vm.cpu.state.status));

    vm.start_at(0).unwrap();
    assert_eq!(vm.cpu.get_register(z80vm::registers::Reg8::A), 0x80);
    assert!(Flag::ParityOverflow.get(&vm.cpu.state.status));
    assert!(Flag::Sign.get(&vm.cpu.state.status));
    assert!(!Flag::Carry.get(&vm.cpu.state.status));

    vm.start_at(0).unwrap();
    assert_eq!(vm.cpu.get_register(z80vm::registers::Reg8::A), 0x81);
    assert!(!Flag::ParityOverflow.get(&vm.cpu.state.status));
    assert!(Flag::Sign.get(&vm.cpu.state.status));
    assert!(!Flag::Carry.get(&vm.cpu.state.status));

    vm.cpu.state.registers.a = 0xFF;
    vm.start_at(0).unwrap();
    assert_eq!(vm.cpu.get_register(z80vm::registers::Reg8::A), 0x00);
    assert!(!Flag::ParityOverflow.get(&vm.cpu.state.status));
    assert!(!Flag::Sign.get(&vm.cpu.state.status));
    assert!(Flag::Carry.get(&vm.cpu.state.status));
}

#[test]
fn increment_wide() {
    let mut vm = run_program(
        |regs| {
            regs.b = 0x00;
            regs.c = 0xFE;
        },
        vec![Opcode::IncBC, Opcode::Halt],
    );
    assert_eq!(vm.cpu.get_register(z80vm::registers::Reg8::B), 0x00);
    assert_eq!(vm.cpu.get_register(z80vm::registers::Reg8::C), 0xFF);

    vm.start_at(0).unwrap();
    assert_eq!(vm.cpu.get_register(z80vm::registers::Reg8::B), 0x01);
    assert_eq!(vm.cpu.get_register(z80vm::registers::Reg8::C), 0x00);
}

#[test]
fn decrement_wide() {
    let mut vm = run_program(
        |regs| {
            regs.b = 0x01;
            regs.c = 0x00;
        },
        vec![Opcode::DecBC, Opcode::Halt],
    );
    assert_eq!(vm.cpu.get_register(z80vm::registers::Reg8::B), 0x00);
    assert_eq!(vm.cpu.get_register(z80vm::registers::Reg8::C), 0xFF);

    vm.start_at(0).unwrap();
    assert_eq!(vm.cpu.get_register(z80vm::registers::Reg8::B), 0x00);
    assert_eq!(vm.cpu.get_register(z80vm::registers::Reg8::C), 0xFE);
}

fn jump_test_flag(opcode: Opcode, param: u16, flag: Flag, flag_value: bool, expected: u16) {
    let mut vm = Machine::new();
    let mut p = Program::new();
    p.add_param_word(opcode, param);
    p.add(Opcode::Halt);
    p.add(Opcode::Halt);
    vm.load(&p);
    flag.set(&mut vm.cpu.state.status, flag_value);
    vm.start().unwrap();
    assert_eq!(vm.cpu.state.program_counter, expected);
}

#[test]
fn jump() {
    jump_test_flag(Opcode::JpXX, 0x04, Flag::Unused1, true, 0x05);
    jump_test_flag(Opcode::JpNZXX, 0x04, Flag::Zero, false, 0x05);
    jump_test_flag(Opcode::JpNZXX, 0x04, Flag::Zero, true, 0x04);
    jump_test_flag(Opcode::JpZXX, 0x04, Flag::Zero, true, 0x05);
    jump_test_flag(Opcode::JpZXX, 0x04, Flag::Zero, false, 0x04);
    jump_test_flag(Opcode::JpNCXX, 0x04, Flag::Carry, false, 0x05);
    jump_test_flag(Opcode::JpNCXX, 0x04, Flag::Carry, true, 0x04);
    jump_test_flag(Opcode::JpCXX, 0x04, Flag::Carry, true, 0x05);
    jump_test_flag(Opcode::JpCXX, 0x04, Flag::Carry, false, 0x04);
    jump_test_flag(Opcode::JpPOXX, 0x04, Flag::ParityOverflow, true, 0x05);
    jump_test_flag(Opcode::JpPOXX, 0x04, Flag::ParityOverflow, false, 0x04);
    jump_test_flag(Opcode::JpPEXX, 0x04, Flag::ParityOverflow, false, 0x05);
    jump_test_flag(Opcode::JpPEXX, 0x04, Flag::ParityOverflow, true, 0x04);
    jump_test_flag(Opcode::JpPXX, 0x04, Flag::Sign, false, 0x05);
    jump_test_flag(Opcode::JpPXX, 0x04, Flag::Sign, true, 0x04);
    jump_test_flag(Opcode::JpMXX, 0x04, Flag::Sign, true, 0x05);
    jump_test_flag(Opcode::JpMXX, 0x04, Flag::Sign, false, 0x04);
}

#[test]
fn add_with_signed_overflow() {
    let vm = run_program(
        |regs| {
            regs.a = 0x7E;
            regs.b = 0x02;
        },
        vec![Opcode::AddB, Opcode::Halt],
    );
    assert_eq!(vm.cpu.state.registers.a, 0x80);
    assert!(Flag::ParityOverflow.get(&vm.cpu.state.status));
    assert!(!Flag::Carry.get(&vm.cpu.state.status));
    assert!(Flag::Sign.get(&vm.cpu.state.status));
    assert!(!Flag::Zero.get(&vm.cpu.state.status));
}

#[test]
fn add_carry_folds_operand_before_adder() {
    // With the Carry flag set and an operand of 0xFF, the carry folds into
    // the operand modulo 256, so the accumulator is left exactly as it was.
    let mut vm = Machine::new();
    let mut p = Program::new();
    p.add(Opcode::AdcB);
    p.add(Opcode::Halt);
    vm.load(&p);
    vm.cpu.state.registers.a = 0x00;
    vm.cpu.state.registers.b = 0xFF;
    Flag::Carry.set(&mut vm.cpu.state.status, true);
    vm.start().unwrap();
    assert_eq!(vm.cpu.state.registers.a, 0x00);
    assert!(Flag::Zero.get(&vm.cpu.state.status));
    assert!(!Flag::Carry.get(&vm.cpu.state.status));
    assert!(!Flag::HalfCarry.get(&vm.cpu.state.status));
    assert!(!Flag::ParityOverflow.get(&vm.cpu.state.status));
    assert!(!Flag::Sign.get(&vm.cpu.state.status));
}

#[test]
fn add_carry_to_full_accumulator() {
    // a = 0xFF with carry-in 1: the combined addition wraps to zero and
    // reports both carries.
    let mut vm = Machine::new();
    let mut p = Program::new();
    p.add(Opcode::AdcB);
    p.add(Opcode::Halt);
    vm.load(&p);
    vm.cpu.state.registers.a = 0xFF;
    vm.cpu.state.registers.b = 0x00;
    Flag::Carry.set(&mut vm.cpu.state.status, true);
    vm.start().unwrap();
    assert_eq!(vm.cpu.state.registers.a, 0x00);
    assert!(Flag::Zero.get(&vm.cpu.state.status));
    assert!(Flag::Carry.get(&vm.cpu.state.status));
    assert!(Flag::HalfCarry.get(&vm.cpu.state.status));
    assert!(!Flag::ParityOverflow.get(&vm.cpu.state.status));
}

#[test]
fn subtract_sets_add_subtract_flag() {
    let vm = run_program(
        |regs| {
            regs.a = 0x05;
            regs.b = 0x03;
        },
        vec![Opcode::SubB, Opcode::Halt],
    );
    assert_eq!(vm.cpu.state.registers.a, 0x02);
    assert!(Flag::AddSubtract.get(&vm.cpu.state.status));
    // Subtraction runs as addition of the negation, so a borrow-free
    // subtract reports the adder's carry-out.
    assert!(Flag::Carry.get(&vm.cpu.state.status));
    assert!(Flag::HalfCarry.get(&vm.cpu.state.status));
    assert!(!Flag::Zero.get(&vm.cpu.state.status));
    assert!(!Flag::Sign.get(&vm.cpu.state.status));
    assert!(!Flag::ParityOverflow.get(&vm.cpu.state.status));
}

#[test]
fn decrement_wraps_to_all_ones() {
    let vm = run_program(|regs| regs.b = 0x00, vec![Opcode::DecB, Opcode::Halt]);
    assert_eq!(vm.cpu.state.registers.b, 0xFF);
    assert!(Flag::Sign.get(&vm.cpu.state.status));
    assert!(Flag::AddSubtract.get(&vm.cpu.state.status));
    assert!(!Flag::HalfCarry.get(&vm.cpu.state.status));
    assert!(!Flag::Zero.get(&vm.cpu.state.status));
    assert!(!Flag::Carry.get(&vm.cpu.state.status));
}

#[test]
fn invalid_opcode_surfaces_typed_fault() {
    let mut vm = Machine::new();
    let mut p = Program::new();
    p.add_vector(vec![0x00, 0xFE]);
    vm.load(&p);
    let fault = vm.start().unwrap_err();
    assert_eq!(fault.opcode, 0xFE);
    assert_eq!(fault.address, 0x01);
}

#[test]
fn decoded_identifier_without_handler_is_fatal() {
    // LdVXXHL decodes to an identifier, but no handler backs it: the engine
    // reports the illegal-instruction fault instead of executing anything.
    let mut vm = Machine::new();
    let mut p = Program::new();
    p.add(Opcode::LdVXXHL);
    vm.load(&p);
    let fault = vm.start().unwrap_err();
    assert_eq!(fault.opcode, 0x22);
    assert_eq!(fault.address, 0x00);
}

#[test]
fn program_counter_overflow_halts_without_executing() {
    let mut vm = Machine::new();
    vm.ram.write_u8(0xFFFF, Opcode::IncA.to_byte());
    vm.start_at(0xFFFF).unwrap();
    assert!(vm.cpu.is_halted());
    // The increment that sat at the top of memory was never executed.
    assert_eq!(vm.cpu.state.registers.a, 0x00);
    assert_eq!(vm.cpu.state.program_counter, 0xFFFF);
}

#[test]
fn load_pair_reads_little_endian_word() {
    let mut vm = Machine::new();
    let mut p = Program::new();
    p.add_param_word(Opcode::LdBCXX, 0x0010);
    p.add(Opcode::Halt);
    vm.load(&p);
    vm.ram.write_u8(0x0010, 0x34);
    vm.ram.write_u8(0x0011, 0x12);
    vm.start().unwrap();
    assert_eq!(vm.cpu.state.registers.b, 0x12);
    assert_eq!(vm.cpu.state.registers.c, 0x34);
}

#[test]
fn store_accumulator_through_pair_pointer() {
    let mut vm = Machine::new();
    let mut p = Program::new();
    p.add(Opcode::LdVBCA);
    p.add(Opcode::Halt);
    vm.load(&p);
    vm.cpu.state.registers.a = 0x99;
    vm.cpu.state.registers.b = 0x00;
    vm.cpu.state.registers.c = 0x20;
    vm.start().unwrap();
    assert_eq!(vm.ram.read_u8(0x0020), 0x99);
}

#[test]
fn add_register_pair_reports_wide_carries() {
    let vm = run_program(
        |regs| {
            regs.h = 0x0F;
            regs.l = 0xFF;
            regs.b = 0x00;
            regs.c = 0x01;
        },
        vec![Opcode::AddHLBC, Opcode::Halt],
    );
    assert_eq!(vm.cpu.state.registers.h, 0x10);
    assert_eq!(vm.cpu.state.registers.l, 0x00);
    assert!(Flag::HalfCarry.get(&vm.cpu.state.status));
    assert!(!Flag::Carry.get(&vm.cpu.state.status));
    assert!(!Flag::AddSubtract.get(&vm.cpu.state.status));
    // The wide addition never rewrites Zero, Sign or ParityOverflow.
    assert!(!Flag::Zero.get(&vm.cpu.state.status));
}

#[test]
fn clock_accumulates_cycle_budget() {
    // One 4-cycle increment plus one 4-cycle halt.
    let vm = run_program(|_| {}, vec![Opcode::IncA, Opcode::Halt]);
    assert_eq!(vm.cycles, 8);
}
