//! The machine: processor plus memory, the fetch helpers, the clock hook,
//! and the fetch-decode-execute engine.

use vstd::prelude::*;
use crate::alu::word_of;
use crate::memory::{address_space, Memory};
use crate::processor::Processor;
use crate::program::Program;
use crate::opcodes::{instruction_of, opcode_decode, Instr, Opcode};
use crate::state::{fresh_state, State};

verus! {

/// A complete machine: CPU, RAM and the accumulated clock cycles.
pub struct Machine {
    pub cpu: Processor,
    pub ram: Memory,
    pub cycles: u64,
}

/// The mathematical model of a machine: the processor as plain data, the
/// memory as a byte sequence over the whole address space, and the cycle
/// count.
pub struct MachineView {
    pub cpu: Processor,
    pub mem: Seq<u8>,
    pub cycles: u64,
}

impl View for Machine {
    type V = MachineView;

    open spec fn view(&self) -> MachineView {
        MachineView { cpu: self.cpu, mem: self.ram@, cycles: self.cycles }
    }
}

/// A machine view with the register file replaced.
pub open spec fn with_registers(m: MachineView, regs: crate::registers::Registers) -> MachineView {
    MachineView {
        cpu: Processor {
            state: State { registers: regs, ..m.cpu.state },
            ..m.cpu
        },
        ..m
    }
}

/// A machine view with both register files replaced, for the exchanges.
pub open spec fn with_register_files(
    m: MachineView,
    regs: crate::registers::Registers,
    alt: crate::registers::Registers,
) -> MachineView {
    MachineView {
        cpu: Processor {
            state: State { registers: regs, alt_registers: alt, ..m.cpu.state },
            ..m.cpu
        },
        ..m
    }
}

/// A machine view with the status byte replaced.
pub open spec fn with_status(m: MachineView, status: u8) -> MachineView {
    MachineView {
        cpu: Processor {
            state: State { status: status, ..m.cpu.state },
            ..m.cpu
        },
        ..m
    }
}

/// A machine view with the program counter replaced.
pub open spec fn with_pc(m: MachineView, pc: u16) -> MachineView {
    MachineView {
        cpu: Processor {
            state: State { program_counter: pc, ..m.cpu.state },
            ..m.cpu
        },
        ..m
    }
}

/// A machine view with the engine halted.
pub open spec fn with_halted(m: MachineView) -> MachineView {
    MachineView { cpu: Processor { halted: true, ..m.cpu }, ..m }
}

/// A machine view with the memory replaced.
pub open spec fn with_mem(m: MachineView, mem: Seq<u8>) -> MachineView {
    MachineView { mem: mem, ..m }
}

/// A machine view after attributing clock cycles (saturating at the top).
pub open spec fn with_cycles(m: MachineView, tstates: u8) -> MachineView {
    MachineView {
        cycles: if m.cycles + tstates > u64::MAX {
            u64::MAX
        } else {
            (m.cycles + tstates) as u64
        },
        ..m
    }
}

/// One byte fetched at the program counter. Incrementing the counter past
/// the top of the address space halts the engine instead of wrapping.
pub open spec fn spec_next_byte(m: MachineView) -> (u8, MachineView) {
    let pc = m.cpu.state.program_counter;
    let value = m.mem[pc as int];
    if pc == 0xFFFF {
        (value, with_halted(m))
    } else {
        (value, with_pc(m, (pc + 1) as u16))
    }
}

/// A little-endian word fetched at the program counter: low byte first.
pub open spec fn spec_next_word(m: MachineView) -> (u16, MachineView) {
    let (low, m1) = spec_next_byte(m);
    let (high, m2) = spec_next_byte(m1);
    (word_of(high, low), m2)
}

impl Machine {
    /// The memory invariant: the store covers the whole address space.
    pub open spec fn wf(&self) -> bool {
        self.ram.wf()
    }

    /// A fresh machine: zeroed state, engine halted, memory all zero.
    pub fn new() -> (r: Machine)
        ensures
            r.wf(),
            r@.cpu.state == fresh_state(),
            r@.cpu.halted,
            r@.cycles == 0,
            forall|i: int| 0 <= i < address_space() ==> r@.mem[i] == 0,
    {
        Machine { cpu: Processor::new(), ram: Memory::new(), cycles: 0 }
    }

    /// Copies a program's bytes into memory, starting at the given address.
    pub fn load_at(&mut self, program: &Program, start_address: u16)
        requires
            old(self).wf(),
            start_address + program@.len() <= address_space(),
        ensures
            final(self).wf(),
            final(self)@.cpu == old(self)@.cpu,
            final(self)@.cycles == old(self)@.cycles,
            final(self)@.mem.len() == old(self)@.mem.len(),
            forall|i: int|
                0 <= i < address_space() ==> final(self)@.mem[i] == (if start_address <= i
                    < start_address + program@.len() {
                    program@[i - start_address]
                } else {
                    old(self)@.mem[i]
                }),
    {
        let bytes = program.raw();
        let mut i: usize = 0;
        while i < bytes.len()
            invariant
                self.wf(),
                bytes@ == program@,
                start_address + bytes@.len() <= address_space(),
                i <= bytes@.len(),
                self@.cpu == old(self)@.cpu,
                self@.cycles == old(self)@.cycles,
                self@.mem.len() == old(self)@.mem.len(),
                forall|j: int|
                    0 <= j < address_space() ==> self@.mem[j] == (if start_address <= j
                        < start_address + i {
                        program@[j - start_address]
                    } else {
                        old(self)@.mem[j]
                    }),
            decreases bytes@.len() - i,
        {
            let value = bytes[i];
            self.ram.write_u8(start_address + (i as u16), value);
            i = i + 1;
        }
    }

    /// Copies a program's bytes into memory, starting at address 0.
    pub fn load(&mut self, program: &Program)
        requires
            old(self).wf(),
            program@.len() <= address_space(),
        ensures
            final(self).wf(),
            final(self)@.cpu == old(self)@.cpu,
            final(self)@.cycles == old(self)@.cycles,
            final(self)@.mem.len() == old(self)@.mem.len(),
            forall|i: int|
                0 <= i < address_space() ==> final(self)@.mem[i] == (if i < program@.len() {
                    program@[i]
                } else {
                    old(self)@.mem[i]
                }),
    {
        self.load_at(program, 0)
    }

    /// The clock-advance hook: attributes a fixed cycle cost to the current
    /// instruction. Pure accounting; no other effect.
    pub fn clock(&mut self, tstates: u8)
        ensures
            *final(self) == (Machine {
                cycles: with_cycles(old(self)@, tstates).cycles,
                ..*old(self)
            }),
    {
        self.cycles = self.cycles.saturating_add(tstates as u64);
    }

    /// Fetches one byte at the program counter, advancing it; incrementing
    /// past the top of the address space halts the engine instead.
    pub(crate) fn next_byte(&mut self) -> (r: u8)
        requires
            old(self).wf(),
        ensures
            final(self).wf(),
            (r, final(self)@) == spec_next_byte(old(self)@),
    {
        let pc = self.cpu.state.program_counter;
        let value = self.ram.read_u8(pc);
        if pc == 0xFFFF {
            self.cpu.halt();
        } else {
            self.cpu.state.program_counter = pc + 1;
        }
        value
    }

    /// Fetches two bytes, returning them as (high, low) of the little-endian
    /// pair: the low byte stands first in the instruction stream.
    pub(crate) fn next_byte_pair(&mut self) -> (r: (u8, u8))
        requires
            old(self).wf(),
        ensures
            final(self).wf(),
            ({
                let (low, m1) = spec_next_byte(old(self)@);
                let (high, m2) = spec_next_byte(m1);
                r == (high, low) && final(self)@ == m2
            }),
    {
        let low = self.next_byte();
        let high = self.next_byte();
        (high, low)
    }

    /// Fetches a little-endian word at the program counter.
    pub(crate) fn next_word(&mut self) -> (r: u16)
        requires
            old(self).wf(),
        ensures
            final(self).wf(),
            (r, final(self)@) == spec_next_word(old(self)@),
    {
        let (high, low) = self.next_byte_pair();
        crate::alu::get_word(high, low)
    }
}


/// A typed illegal-instruction fault: the offending byte and the address it
/// was fetched from.
#[derive(Clone, Copy, PartialEq, Eq, Structural, Debug)]
pub struct IllegalInstruction {
    pub opcode: u8,
    pub address: u16,
}

/// The fault an execution result carries, if any.
pub open spec fn fault_of(r: Result<(), IllegalInstruction>) -> Option<IllegalInstruction> {
    match r {
        Ok(_) => None,
        Err(f) => Some(f),
    }
}

/// The machine after one dispatched instruction. The view handed in is the
/// state right after the opcode byte was fetched.
pub open spec fn spec_step(m: MachineView, i: Instr) -> MachineView {
    match i {
        Instr::Nop => crate::control::spec_nop(m),
        Instr::Halt => crate::control::spec_halt(m),
        Instr::Add(r) => crate::arithmetic_8bit::spec_add_register(m, r),
        Instr::Adc(r) => crate::arithmetic_8bit::spec_add_carry_register(m, r),
        Instr::Sub(r) => crate::arithmetic_8bit::spec_subtract_register(m, r),
        Instr::Sbc(r) => crate::arithmetic_8bit::spec_subtract_carry_register(m, r),
        Instr::Inc(r) => crate::arithmetic_8bit::spec_increment_register(m, r),
        Instr::Dec(r) => crate::arithmetic_8bit::spec_decrement_register(m, r),
        Instr::IncWide(rp) => crate::arithmetic_16bit::spec_increment_register_wide(m, rp),
        Instr::DecWide(rp) => crate::arithmetic_16bit::spec_decrement_register_wide(m, rp),
        Instr::AddPair(t, s) => crate::arithmetic_16bit::spec_add_register_pair(m, t, s),
        Instr::And(r) => crate::bitwise::spec_and_register(m, r),
        Instr::Or(r) => crate::bitwise::spec_or_register(m, r),
        Instr::Xor(r) => crate::bitwise::spec_xor_register(m, r),
        Instr::RotateLeft => crate::bitwise::spec_rotate_accumulator_left(m),
        Instr::Jump(c) => crate::control::spec_jump(m, c),
        Instr::Push(rp) => crate::stack::spec_push_to_stack(m, rp),
        Instr::Pop(rp) => crate::stack::spec_pop_from_stack(m, rp),
        Instr::Exx => crate::exchange::spec_exchange_all_registers_with_shadow(m),
        Instr::ExAfAf => crate::exchange::spec_exchange_accumulator_and_flags_with_shadow(m),
        Instr::ExDeHl => crate::exchange::spec_exchange_de_with_hl(m),
        Instr::ExSpHl => crate::exchange::spec_exchange_memory_from_sp_with_hl(m),
        Instr::LoadPair(rp) => crate::loads::spec_load_into_register_pair(m, rp),
        Instr::StoreReg(r, rp) => crate::loads::spec_load_into_memory(m, r, rp),
    }
}

/// One engine step from a running machine: fetch the opcode byte (halting on
/// program-counter overflow, without executing what was mid-fetch), decode
/// it, and dispatch. A byte with no defined encoding, or an identifier with
/// no handler, yields the typed fault and leaves the machine as fetched.
pub open spec fn spec_exec(m: MachineView) -> (MachineView, Option<IllegalInstruction>) {
    let pc = m.cpu.state.program_counter;
    let (value, m1) = spec_next_byte(m);
    if m1.cpu.halted {
        (m1, None)
    } else {
        match opcode_decode(value) {
            Option::None => (m1, Some(IllegalInstruction { opcode: value, address: pc })),
            Option::Some(op) => match instruction_of(op) {
                Option::None => (m1, Some(IllegalInstruction { opcode: value, address: pc })),
                Option::Some(i) => (spec_step(m1, i), None),
            },
        }
    }
}

/// The machine after at most `n` engine steps, stopping early at a halt or
/// at a fault.
pub open spec fn spec_run(m: MachineView, n: nat) -> (MachineView, Option<IllegalInstruction>)
    decreases n,
{
    if n == 0 {
        (m, None)
    } else {
        let (m1, fault) = spec_run(m, (n - 1) as nat);
        if fault is Some || m1.cpu.halted {
            (m1, fault)
        } else {
            spec_exec(m1)
        }
    }
}

/// The machine re-initialized for a run: program counter repositioned,
/// engine running.
pub open spec fn spec_started(m: MachineView, address: u16) -> MachineView {
    MachineView {
        cpu: Processor {
            state: State { program_counter: address, ..m.cpu.state },
            halted: false,
        },
        ..m
    }
}

impl Machine {
    /// One fetch-decode-execute step. When incrementing the program counter
    /// past the top of the address space, the engine halts and the byte that
    /// was mid-fetch is not executed. A byte that decodes to no identifier,
    /// or to an identifier with no handler, returns the typed fault instead
    /// of aborting, so the caller can inspect the machine afterwards.
    pub fn execute(&mut self) -> (r: Result<(), IllegalInstruction>)
        requires
            old(self).wf(),
            !old(self)@.cpu.halted,
        ensures
            final(self).wf(),
            final(self)@ == spec_exec(old(self)@).0,
            fault_of(r) == spec_exec(old(self)@).1,
    {
        let pc = self.cpu.state.program_counter;
        let value = self.next_byte();
        if self.cpu.is_halted() {
            return Ok(());
        }
        match Opcode::from_byte(value) {
            Some(op) => {
                if self.dispatch_instruction(op) {
                    Ok(())
                } else {
                    Err(IllegalInstruction { opcode: value, address: pc })
                }
            },
            None => Err(IllegalInstruction { opcode: value, address: pc }),
        }
    }

    /// Dispatches one decoded identifier to its handler. Returns false for
    /// an identifier with no handler, leaving the machine untouched.
    fn dispatch_instruction(&mut self, op: Opcode) -> (handled: bool)
        requires
            old(self).wf(),
        ensures
            final(self).wf(),
            match instruction_of(op) {
                Option::Some(i) => handled && final(self)@ == spec_step(old(self)@, i),
                Option::None => !handled && final(self)@ == old(self)@,
            },
    {
        match op.instruction() {
            Some(instruction) => {
                self.dispatch(instruction);
                true
            },
            None => false,
        }
    }

    /// Runs one instruction class against the machine.
    fn dispatch(&mut self, instruction: Instr)
        requires
            old(self).wf(),
        ensures
            final(self).wf(),
            final(self)@ == spec_step(old(self)@, instruction),
    {
        match instruction {
            Instr::Add(_) | Instr::Adc(_) | Instr::Sub(_) | Instr::Sbc(_) | Instr::Inc(_)
                | Instr::Dec(_) | Instr::And(_) | Instr::Or(_) | Instr::Xor(_) => {
                self.dispatch_byte_op(instruction)
            },
            Instr::IncWide(_) | Instr::DecWide(_) | Instr::AddPair(_, _) | Instr::Push(_)
                | Instr::Pop(_) | Instr::LoadPair(_) => self.dispatch_pair_op(instruction),
            _ => self.dispatch_control_op(instruction),
        }
    }

    /// Runs one instruction class whose operand is a single 8-bit register.
    fn dispatch_byte_op(&mut self, instruction: Instr)
        requires
            old(self).wf(),
            instruction is Add || instruction is Adc || instruction is Sub || instruction is Sbc
                || instruction is Inc || instruction is Dec || instruction is And || instruction
                is Or || instruction is Xor,
        ensures
            final(self).wf(),
            final(self)@ == spec_step(old(self)@, instruction),
    {
        match instruction {
            Instr::Add(r) => self.add_register(r),
            Instr::Adc(r) => self.add_carry_register(r),
            Instr::Sub(r) => self.subtract_register(r),
            Instr::Sbc(r) => self.subtract_carry_register(r),
            Instr::Inc(r) => self.increment_register(r),
            Instr::Dec(r) => self.decrement_register(r),
            Instr::And(r) => self.and_register(r),
            Instr::Or(r) => self.or_register(r),
            Instr::Xor(r) => self.xor_register(r),
            _ => {
                proof {
                    assert(false);
                }
            },
        }
    }

    /// Runs one instruction class whose operand is a register pair.
    fn dispatch_pair_op(&mut self, instruction: Instr)
        requires
            old(self).wf(),
            instruction is IncWide || instruction is DecWide || instruction is AddPair
                || instruction is Push || instruction is Pop || instruction is LoadPair,
        ensures
            final(self).wf(),
            final(self)@ == spec_step(old(self)@, instruction),
    {
        match instruction {
            Instr::IncWide(rp) => self.increment_register_wide(rp),
            Instr::DecWide(rp) => self.decrement_register_wide(rp),
            Instr::AddPair(t, s) => self.add_register_pair(t, s),
            Instr::Push(rp) => self.push_to_stack(rp),
            Instr::Pop(rp) => self.pop_from_stack(rp),
            Instr::LoadPair(rp) => self.load_into_register_pair(rp),
            _ => {
                proof {
                    assert(false);
                }
            },
        }
    }

    /// Runs one control, rotate, exchange or store instruction.
    fn dispatch_control_op(&mut self, instruction: Instr)
        requires
            old(self).wf(),
            instruction is Nop || instruction is Halt || instruction is RotateLeft || instruction
                is Jump || instruction is Exx || instruction is ExAfAf || instruction is ExDeHl
                || instruction is ExSpHl || instruction is StoreReg,
        ensures
            final(self).wf(),
            final(self)@ == spec_step(old(self)@, instruction),
    {
        match instruction {
            Instr::Nop => self.nop(),
            Instr::Halt => self.halt(),
            Instr::RotateLeft => self.rotate_accumulator_left(),
            Instr::Jump(c) => self.jump(c),
            Instr::Exx => self.exchange_all_registers_with_shadow(),
            Instr::ExAfAf => self.exchange_accumulator_and_flags_with_shadow(),
            Instr::ExDeHl => self.exchange_de_with_hl(),
            Instr::ExSpHl => self.exchange_memory_from_sp_with_hl(),
            Instr::StoreReg(r, rp) => self.load_into_memory(r, rp),
            _ => {
                proof {
                    assert(false);
                }
            },
        }
    }

    /// Re-initializes the engine (halt, reposition, unhalt) and runs the
    /// fetch-decode-execute loop until the machine halts, a fault surfaces,
    /// or the step budget of `u64::MAX` instructions is spent. The final
    /// machine is what the step semantics reaches from the repositioned one.
    pub fn start_at(&mut self, address: u16) -> (r: Result<(), IllegalInstruction>)
        requires
            old(self).wf(),
        ensures
            final(self).wf(),
            exists|n: nat|
                spec_run(spec_started(old(self)@, address), n) == (final(self)@, fault_of(r)),
            (fault_of(r) is None && !final(self)@.cpu.halted) ==> spec_run(
                spec_started(old(self)@, address),
                u64::MAX as nat,
            ) == (final(self)@, Option::<IllegalInstruction>::None),
    {
        self.cpu.halt();
        self.cpu.goto(address);
        self.cpu.unhalt();
        let ghost init = self@;
        assert(init == spec_started(old(self)@, address));
        let mut steps: u64 = 0;
        while !self.cpu.is_halted() && steps < u64::MAX
            invariant
                self.wf(),
                init == spec_started(old(self)@, address),
                spec_run(init, steps as nat) == (self@, Option::<IllegalInstruction>::None),
            decreases u64::MAX - steps,
        {
            let result = self.execute();
            steps = steps + 1;
            proof {
                assert(spec_run(init, steps as nat) == (self@, fault_of(result)));
            }
            if let Err(fault) = result {
                return Err(fault);
            }
        }
        Ok(())
    }

    /// Runs from address 0.
    pub fn start(&mut self) -> (r: Result<(), IllegalInstruction>)
        requires
            old(self).wf(),
        ensures
            final(self).wf(),
            exists|n: nat| spec_run(spec_started(old(self)@, 0), n) == (final(self)@, fault_of(r)),
            (fault_of(r) is None && !final(self)@.cpu.halted) ==> spec_run(
                spec_started(old(self)@, 0),
                u64::MAX as nat,
            ) == (final(self)@, Option::<IllegalInstruction>::None),
    {
        self.start_at(0)
    }
}

} // verus!
