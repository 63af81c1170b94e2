//! Instruction execution: what each instruction does to the processor and
//! to memory, and the step that decodes and executes one instruction.

use vstd::prelude::*;

use self::logic::Bitwise;
use self::shifts::Shift;
use super::addressable;
use super::decode;
use super::instruction::effective_address;
use super::instruction::operand_value;
use super::instruction::opcode_at;
use super::instruction::operand1_at;
use super::instruction::reads;
use super::length;
use super::supported;
use super::wrap16;
use super::CpuError;
use super::Machine;
use super::MemoryMode;
use super::Opcodes;
use super::CPU;
use crate::memory::combinatorics::combine_operands;
use crate::memory::MemoryModel;
use crate::memory::MEM;

pub mod arithmetic;
pub mod branches;
pub mod decrement;
pub mod increment;
pub mod jumps;
pub mod load;
pub mod logic;
pub mod shifts;
pub mod stack;
pub mod store;
pub mod transfers;

verus! {

/// One of the three registers that instructions load, store and compare.
#[derive(Debug, Clone, Copy, PartialEq, Eq, Structural)]
pub enum Register {
    A,
    X,
    Y,
}

/// One of the flags that an instruction sets or clears by name.
#[derive(Debug, Clone, Copy, PartialEq, Eq, Structural)]
pub enum Flag {
    C,
    I,
    D,
    V,
}

/// The processor `cpu` working on `memory`.
pub open spec fn machine(cpu: CPU, memory: MemoryModel) -> Machine {
    Machine { cpu, memory }
}

/// The value of a register.
pub open spec fn register(cpu: CPU, which: Register) -> u8 {
    match which {
        Register::A => cpu.A,
        Register::X => cpu.X,
        Register::Y => cpu.Y,
    }
}

/// The processor with a register set to `value`.
pub open spec fn with_register(cpu: CPU, which: Register, value: u8) -> CPU {
    match which {
        Register::A => CPU { A: value, ..cpu },
        Register::X => CPU { X: value, ..cpu },
        Register::Y => CPU { Y: value, ..cpu },
    }
}

/// The processor with a flag set to `value`.
pub open spec fn with_flag(cpu: CPU, which: Flag, value: bool) -> CPU {
    match which {
        Flag::C => CPU { C: value, ..cpu },
        Flag::I => CPU { I: value, ..cpu },
        Flag::D => CPU { D: value, ..cpu },
        Flag::V => CPU { V: value, ..cpu },
    }
}

/// The processor after an instruction that only sets or clears a flag.
pub open spec fn flagged(cpu: CPU, which: Flag, value: bool) -> CPU {
    let after = with_flag(cpu, which, value);
    CPU { PC: wrap16(cpu.PC + 1) as u16, ..after }
}

impl Machine {
    /// The operand value of the instruction at the program counter.
    pub open spec fn operand(self, mode: MemoryMode) -> u8 {
        operand_value(self.cpu, self.memory, mode).unwrap()
    }

    /// The effective address of the instruction at the program counter.
    pub open spec fn target(self, mode: MemoryMode) -> int {
        effective_address(self.cpu, self.memory, mode).unwrap()
    }

    /// After the operand of the instruction at the program counter was
    /// fetched: every read hook concerned has reported.
    pub open spec fn fetch(self, mode: MemoryMode) -> Machine {
        Machine {
            memory: self.memory.after_reads(reads(self.cpu, self.memory, mode)),
            ..self
        }
    }

    /// After `value` was written at `address`.
    pub open spec fn write(self, address: int, value: u8) -> Machine {
        Machine { memory: self.memory.after_write(address, value), ..self }
    }

    /// With the processor replaced by `cpu`.
    pub open spec fn with_cpu(self, cpu: CPU) -> Machine {
        Machine { cpu, ..self }
    }

    /// After an instruction that only sets or clears a flag.
    pub open spec fn flag(self, which: Flag, value: bool) -> Machine {
        self.with_cpu(flagged(self.cpu, which, value))
    }

    /// After `BRK`: the address two past the opcode is pushed, high byte
    /// first, then the status byte with `B` set; interrupts are disabled
    /// and the program counter is loaded from the vector at 0xFFFE.
    pub open spec fn brk(self) -> Machine {
        let return_address = wrap16(self.cpu.PC + 2);
        let pushed = self.push((return_address / 256) as u8).push(
            (return_address % 256) as u8,
        ).push(super::status_byte(CPU { B: true, ..self.cpu }) as u8);
        pushed.with_cpu(CPU { I: true, ..pushed.cpu }).jump_through(super::IRQ_VECTOR as int)
    }

    /// After `RTI`: the flags are pulled, `B` keeping its value, then the
    /// low and the high byte of the program counter. Nothing is added to
    /// the program counter.
    pub open spec fn rti(self) -> Machine {
        let status = self.top();
        let flags = self.pull();
        let flags = flags.with_cpu(super::with_status(flags.cpu, status));
        let low = flags.top();
        let high = flags.pull().top();
        let pulled = flags.pull().pull();
        pulled.with_cpu(CPU { PC: (low + 256 * high) as u16, ..pulled.cpu })
    }
}

/// The families of instructions.
#[derive(Debug, Clone, Copy, PartialEq, Eq, Structural)]
pub enum Family {
    /// Loads and stores.
    Data,
    /// Transfers between registers and stack instructions.
    Moves,
    /// Logic, arithmetic and comparisons.
    Alu,
    /// Increments, decrements and shifts.
    Steps,
    /// Jumps, subroutines and branches.
    Flow,
    /// Flag instructions, BRK, NOP and RTI.
    System,
}

/// The family of an opcode.
pub open spec fn family(opcode: Opcodes) -> Family {
    match opcode {
        Opcodes::LDA(_)
        | Opcodes::LDX(_)
        | Opcodes::LDY(_)
        | Opcodes::STA(_)
        | Opcodes::STX(_)
        | Opcodes::STY(_) => Family::Data,
        Opcodes::TAX(_)
        | Opcodes::TAY(_)
        | Opcodes::TXA(_)
        | Opcodes::TYA(_)
        | Opcodes::TSX(_)
        | Opcodes::TXS(_)
        | Opcodes::PHA(_)
        | Opcodes::PHP(_)
        | Opcodes::PLA(_)
        | Opcodes::PLP(_) => Family::Moves,
        Opcodes::AND(_)
        | Opcodes::EOR(_)
        | Opcodes::ORA(_)
        | Opcodes::BIT(_)
        | Opcodes::ADC(_)
        | Opcodes::SBC(_)
        | Opcodes::CMP(_)
        | Opcodes::CPX(_)
        | Opcodes::CPY(_) => Family::Alu,
        Opcodes::INC(_)
        | Opcodes::INX(_)
        | Opcodes::INY(_)
        | Opcodes::DEC(_)
        | Opcodes::DEX(_)
        | Opcodes::DEY(_)
        | Opcodes::ASL(_)
        | Opcodes::LSR(_)
        | Opcodes::ROL(_)
        | Opcodes::ROR(_) => Family::Steps,
        Opcodes::JMP(_)
        | Opcodes::JSR(_)
        | Opcodes::RTS(_)
        | Opcodes::BCS(_)
        | Opcodes::BCC(_)
        | Opcodes::BEQ(_)
        | Opcodes::BNE(_)
        | Opcodes::BMI(_)
        | Opcodes::BPL(_)
        | Opcodes::BVS(_)
        | Opcodes::BVC(_) => Family::Flow,
        Opcodes::SEC(_)
        | Opcodes::CLC(_)
        | Opcodes::SEI(_)
        | Opcodes::CLI(_)
        | Opcodes::SED(_)
        | Opcodes::CLD(_)
        | Opcodes::CLV(_)
        | Opcodes::BRK(_)
        | Opcodes::NOP(_)
        | Opcodes::RTI(_) => Family::System,
    }
}

/// What executing `opcode` does to the machine, the opcode byte itself
/// having been read already.
pub open spec fn execute_spec(opcode: Opcodes, before: Machine) -> Machine {
    match opcode {
        Opcodes::LDA(mode) => load::load(before, mode, Register::A),
        Opcodes::LDX(mode) => load::load(before, mode, Register::X),
        Opcodes::LDY(mode) => load::load(before, mode, Register::Y),
        Opcodes::STA(mode) => store::store(before, mode, Register::A),
        Opcodes::STX(mode) => store::store(before, mode, Register::X),
        Opcodes::STY(mode) => store::store(before, mode, Register::Y),
        Opcodes::TAX(_) => before.with_cpu(
            transfers::transfer(before.cpu, before.cpu.A, Register::X),
        ),
        Opcodes::TAY(_) => before.with_cpu(
            transfers::transfer(before.cpu, before.cpu.A, Register::Y),
        ),
        Opcodes::TXA(_) => before.with_cpu(
            transfers::transfer(before.cpu, before.cpu.X, Register::A),
        ),
        Opcodes::TYA(_) => before.with_cpu(
            transfers::transfer(before.cpu, before.cpu.Y, Register::A),
        ),
        Opcodes::TSX(_) => before.with_cpu(
            transfers::transfer(before.cpu, before.cpu.S, Register::X),
        ),
        Opcodes::TXS(_) => before.with_cpu(transfers::transfer_to_stack_pointer(before.cpu)),
        Opcodes::PHA(_) => stack::push_accumulator(before),
        Opcodes::PHP(_) => stack::push_flags(before),
        Opcodes::PLA(_) => stack::pull_accumulator(before),
        Opcodes::PLP(_) => stack::pull_flags(before),
        Opcodes::AND(mode) => logic::logic(before, mode, Bitwise::And),
        Opcodes::EOR(mode) => logic::logic(before, mode, Bitwise::Eor),
        Opcodes::ORA(mode) => logic::logic(before, mode, Bitwise::Ora),
        Opcodes::BIT(mode) => logic::bit_test(before, mode),
        Opcodes::ADC(mode) => arithmetic::add_operand(before, mode),
        Opcodes::SBC(mode) => arithmetic::subtract_operand(before, mode),
        Opcodes::CMP(mode) => arithmetic::compare(before, mode, Register::A),
        Opcodes::CPX(mode) => arithmetic::compare(before, mode, Register::X),
        Opcodes::CPY(mode) => arithmetic::compare(before, mode, Register::Y),
        Opcodes::INC(mode) => increment::incremented(before, mode),
        Opcodes::INX(_) => before.with_cpu(
            increment::incremented_register(before.cpu, Register::X),
        ),
        Opcodes::INY(_) => before.with_cpu(
            increment::incremented_register(before.cpu, Register::Y),
        ),
        Opcodes::DEC(mode) => decrement::decremented(before, mode),
        Opcodes::DEX(_) => before.with_cpu(
            decrement::decremented_register(before.cpu, Register::X),
        ),
        Opcodes::DEY(_) => before.with_cpu(
            decrement::decremented_register(before.cpu, Register::Y),
        ),
        Opcodes::ASL(mode) => shifts::shift(before, mode, Shift::Asl),
        Opcodes::LSR(mode) => shifts::shift(before, mode, Shift::Lsr),
        Opcodes::ROL(mode) => shifts::shift(before, mode, Shift::Rol),
        Opcodes::ROR(mode) => shifts::shift(before, mode, Shift::Ror),
        Opcodes::JMP(mode) => jumps::jump(before, mode),
        Opcodes::JSR(mode) => jumps::jump_to_subroutine(before, mode),
        Opcodes::RTS(_) => jumps::return_from_subroutine(before),
        Opcodes::BCS(_) => branches::branch(before, before.cpu.C),
        Opcodes::BCC(_) => branches::branch(before, !before.cpu.C),
        Opcodes::BEQ(_) => branches::branch(before, before.cpu.Z),
        Opcodes::BNE(_) => branches::branch(before, !before.cpu.Z),
        Opcodes::BMI(_) => branches::branch(before, before.cpu.N),
        Opcodes::BPL(_) => branches::branch(before, !before.cpu.N),
        Opcodes::BVS(_) => branches::branch(before, before.cpu.V),
        Opcodes::BVC(_) => branches::branch(before, !before.cpu.V),
        Opcodes::SEC(_) => before.flag(Flag::C, true),
        Opcodes::CLC(_) => before.flag(Flag::C, false),
        Opcodes::SEI(_) => before.flag(Flag::I, true),
        Opcodes::CLI(_) => before.flag(Flag::I, false),
        Opcodes::SED(_) => before.flag(Flag::D, true),
        Opcodes::CLD(_) => before.flag(Flag::D, false),
        Opcodes::CLV(_) => before.flag(Flag::V, false),
        Opcodes::BRK(_) => before.brk(),
        Opcodes::NOP(_) => before.advance(1),
        Opcodes::RTI(_) => before.rti(),
    }
}

/// The number of instructions executed so far, after one more; the count
/// wraps at 2^32.
pub open spec fn counted(executed: u32) -> u32 {
    if executed == u32::MAX {
        0
    } else {
        (executed + 1) as u32
    }
}

/// What one step does to the machine: the opcode at the program counter
/// is read and decoded, and the instruction is executed. `None` where the
/// byte is no documented opcode.
pub open spec fn step(before: Machine) -> Option<Machine> {
    match decode(opcode_at(before.cpu, before.memory)) {
        None => None,
        Some(opcode) => Some(
            execute_spec(
                opcode,
                Machine {
                    cpu: CPU {
                        executed_opcodes: counted(before.cpu.executed_opcodes),
                        ..before.cpu
                    },
                    memory: before.memory.after_read(before.cpu.PC as int, 1),
                },
            ),
        ),
    }
}

/// Whether an opcode chooses the next program counter itself: jumps,
/// subroutine calls and returns, branches, `BRK` and `RTI`.
pub open spec fn transfers_control(opcode: Opcodes) -> bool {
    match opcode {
        Opcodes::JMP(_)
        | Opcodes::JSR(_)
        | Opcodes::RTS(_)
        | Opcodes::RTI(_)
        | Opcodes::BRK(_)
        | Opcodes::BCC(_)
        | Opcodes::BCS(_)
        | Opcodes::BEQ(_)
        | Opcodes::BNE(_)
        | Opcodes::BMI(_)
        | Opcodes::BPL(_)
        | Opcodes::BVC(_)
        | Opcodes::BVS(_) => true,
        _ => false,
    }
}

/// Whether an opcode is a branch.
pub open spec fn is_branch(opcode: Opcodes) -> bool {
    match opcode {
        Opcodes::BCC(_)
        | Opcodes::BCS(_)
        | Opcodes::BEQ(_)
        | Opcodes::BNE(_)
        | Opcodes::BMI(_)
        | Opcodes::BPL(_)
        | Opcodes::BVC(_)
        | Opcodes::BVS(_) => true,
        _ => false,
    }
}

/// Every instruction that does not choose the next program counter itself
/// moves it on by exactly the length of the instruction, modulo 2^16: one
/// byte for the opcode and one for each operand byte of its addressing
/// mode. A branch moves it on by two, or to its target.
pub proof fn lemma_program_counter_advances(opcode: Opcodes, before: Machine)
    requires
        supported(opcode),
    ensures
        !transfers_control(opcode) ==> execute_spec(opcode, before).cpu.PC == wrap16(
            before.cpu.PC + length(super::mode_of(opcode)),
        ),
        is_branch(opcode) ==> execute_spec(opcode, before).cpu.PC == wrap16(before.cpu.PC + 2)
            || execute_spec(opcode, before).cpu.PC == wrap16(
            before.cpu.PC + 2 + super::signed(operand1_at(before.cpu, before.memory)),
        ),
        1 <= length(super::mode_of(opcode)) <= 3,
{
    // By cases on the mnemonic.
    match opcode {
        Opcodes::ADC(_) => {},
        Opcodes::AND(_) => {},
        Opcodes::ASL(_) => {},
        Opcodes::BCC(_) => {},
        Opcodes::BCS(_) => {},
        Opcodes::BEQ(_) => {},
        Opcodes::BIT(_) => {},
        Opcodes::BMI(_) => {},
        Opcodes::BNE(_) => {},
        Opcodes::BPL(_) => {},
        Opcodes::BRK(_) => {},
        Opcodes::BVC(_) => {},
        Opcodes::BVS(_) => {},
        Opcodes::CLC(_) => {},
        Opcodes::CLD(_) => {},
        Opcodes::CLI(_) => {},
        Opcodes::CLV(_) => {},
        Opcodes::CMP(_) => {},
        Opcodes::CPX(_) => {},
        Opcodes::CPY(_) => {},
        Opcodes::DEC(_) => {},
        Opcodes::DEX(_) => {},
        Opcodes::DEY(_) => {},
        Opcodes::EOR(_) => {},
        Opcodes::INC(_) => {},
        Opcodes::INX(_) => {},
        Opcodes::INY(_) => {},
        Opcodes::JMP(_) => {},
        Opcodes::JSR(_) => {},
        Opcodes::LDA(_) => {},
        Opcodes::LDX(_) => {},
        Opcodes::LDY(_) => {},
        Opcodes::LSR(_) => {},
        Opcodes::NOP(_) => {},
        Opcodes::ORA(_) => {},
        Opcodes::PHA(_) => {},
        Opcodes::PHP(_) => {},
        Opcodes::PLA(_) => {},
        Opcodes::PLP(_) => {},
        Opcodes::ROL(_) => {},
        Opcodes::ROR(_) => {},
        Opcodes::RTI(_) => {},
        Opcodes::RTS(_) => {},
        Opcodes::SBC(_) => {},
        Opcodes::SEC(_) => {},
        Opcodes::SED(_) => {},
        Opcodes::SEI(_) => {},
        Opcodes::STA(_) => {},
        Opcodes::STX(_) => {},
        Opcodes::STY(_) => {},
        Opcodes::TAX(_) => {},
        Opcodes::TAY(_) => {},
        Opcodes::TSX(_) => {},
        Opcodes::TXA(_) => {},
        Opcodes::TXS(_) => {},
        Opcodes::TYA(_) => {},
    }
}

/// A step on any byte that the decoder accepts, other than a byte of an
/// instruction that chooses the next program counter itself, moves the
/// program counter on by the length of the instruction: one, two or three
/// bytes, modulo 2^16.
pub proof fn lemma_step_advances(before: Machine)
    requires
        decode(opcode_at(before.cpu, before.memory)) matches Some(opcode) && !transfers_control(
            opcode,
        ),
    ensures
        step(before).is_some(),
        step(before).unwrap().cpu.PC == wrap16(
            before.cpu.PC + length(
                super::mode_of(decode(opcode_at(before.cpu, before.memory)).unwrap()),
            ),
        ),
{
    let opcode = decode(opcode_at(before.cpu, before.memory)).unwrap();
    super::lemma_decode_then_encode(opcode_at(before.cpu, before.memory));
    lemma_program_counter_advances(
        opcode,
        Machine {
            cpu: CPU { executed_opcodes: counted(before.cpu.executed_opcodes), ..before.cpu },
            memory: before.memory.after_read(before.cpu.PC as int, 1),
        },
    );
}

/// The number of bytes that an instruction in addressing mode `mode` takes.
pub fn instruction_length(mode: MemoryMode) -> (r: u16)
    ensures
        r == length(mode),
{
    match mode {
        MemoryMode::Implicit | MemoryMode::Acc => 1,
        MemoryMode::Immediate
        | MemoryMode::ZeroPage
        | MemoryMode::ZeroPageX
        | MemoryMode::ZeroPageY
        | MemoryMode::Relative
        | MemoryMode::IndirectX
        | MemoryMode::IndirectY => 2,
        MemoryMode::Absolute
        | MemoryMode::AbsoluteX
        | MemoryMode::AbsoluteY
        | MemoryMode::Indirect => 3,
    }
}

impl CPU {
    /// The 16-bit number at `address`, low byte first, as the cells of
    /// memory hold it: no rule applies and no hook reports.
    pub fn fetch_mem_address(&mut self, address: u16, memory: &mut MEM) -> (r: u16)
        requires
            address + 1 < old(memory)@.data.len(),
        ensures
            *final(self) == *old(self),
            final(memory)@ == old(memory)@,
            r == old(memory)@.data[address as int] + 256 * old(memory)@.data[address + 1],
    {
        let least_significant_byte = memory.data[address as usize];
        let most_significant_byte = memory.data[address as usize + 1];
        combine_operands(least_significant_byte, most_significant_byte)
    }

    /// The program counter as an index into memory.
    fn program_counter(&self) -> (r: usize)
        ensures
            r == self.PC,
    {
        self.PC as usize
    }

    /// Counts one more executed instruction.
    fn count_instruction(&mut self)
        ensures
            *final(self) == (CPU {
                executed_opcodes: counted(old(self).executed_opcodes),
                ..*old(self)
            }),
    {
        self.executed_opcodes = if self.executed_opcodes == u32::MAX {
            0
        } else {
            self.executed_opcodes + 1
        };
    }

    /// Sets or clears a flag by name.
    fn execute_flag(&mut self, which: Flag, value: bool)
        ensures
            *final(self) == flagged(*old(self), which, value),
    {
        match which {
            Flag::C => {
                self.C = value;
            },
            Flag::I => {
                self.I = value;
            },
            Flag::D => {
                self.D = value;
            },
            Flag::V => {
                self.V = value;
            },
        }
        self.increment_pc(1);
    }

    /// BRK: pushes the address two past the opcode and the status byte
    /// with `B` set, disables interrupts and continues at the address in
    /// the vector at 0xFFFE.
    pub fn execute_brk(&mut self, memory: &mut MEM)
        requires
            addressable(old(memory)@),
        ensures
            addressable(final(memory)@),
            machine(*final(self), final(memory)@) == machine(*old(self), old(memory)@).brk(),
    {
        let return_address = (crate::types::Wrapped::from(self.get_pc()) + 2).to_u16();
        let status = (CPU { B: true, ..*self }).store_status();
        self.push_stack((return_address / 256) as u8, memory);
        self.push_stack((return_address % 256) as u8, memory);
        self.push_stack(status, memory);
        self.I = true;
        self.irq_brk(memory);
    }

    /// RTI: pulls the flags, then the program counter, low byte first.
    pub fn execute_rti(&mut self, memory: &mut MEM)
        requires
            addressable(old(memory)@),
        ensures
            addressable(final(memory)@),
            machine(*final(self), final(memory)@) == machine(*old(self), old(memory)@).rti(),
    {
        let status = self.pull_stack(memory);
        self.load_status(status);
        let pcl = self.pull_stack(memory);
        let pch = self.pull_stack(memory);
        self.store_pc(combine_operands(pcl, pch));
    }

    /// The family of an opcode.
    fn family_of(operation: Opcodes) -> (r: Family)
        ensures
            r == family(operation),
    {
        match operation {
            Opcodes::LDA(_)
        | Opcodes::LDX(_)
        | Opcodes::LDY(_)
        | Opcodes::STA(_)
        | Opcodes::STX(_)
        | Opcodes::STY(_) => Family::Data,
            Opcodes::TAX(_)
        | Opcodes::TAY(_)
        | Opcodes::TXA(_)
        | Opcodes::TYA(_)
        | Opcodes::TSX(_)
        | Opcodes::TXS(_)
        | Opcodes::PHA(_)
        | Opcodes::PHP(_)
        | Opcodes::PLA(_)
        | Opcodes::PLP(_) => Family::Moves,
            Opcodes::AND(_)
        | Opcodes::EOR(_)
        | Opcodes::ORA(_)
        | Opcodes::BIT(_)
        | Opcodes::ADC(_)
        | Opcodes::SBC(_)
        | Opcodes::CMP(_)
        | Opcodes::CPX(_)
        | Opcodes::CPY(_) => Family::Alu,
            Opcodes::INC(_)
        | Opcodes::INX(_)
        | Opcodes::INY(_)
        | Opcodes::DEC(_)
        | Opcodes::DEX(_)
        | Opcodes::DEY(_)
        | Opcodes::ASL(_)
        | Opcodes::LSR(_)
        | Opcodes::ROL(_)
        | Opcodes::ROR(_) => Family::Steps,
            Opcodes::JMP(_)
        | Opcodes::JSR(_)
        | Opcodes::RTS(_)
        | Opcodes::BCS(_)
        | Opcodes::BCC(_)
        | Opcodes::BEQ(_)
        | Opcodes::BNE(_)
        | Opcodes::BMI(_)
        | Opcodes::BPL(_)
        | Opcodes::BVS(_)
        | Opcodes::BVC(_) => Family::Flow,
            Opcodes::SEC(_)
        | Opcodes::CLC(_)
        | Opcodes::SEI(_)
        | Opcodes::CLI(_)
        | Opcodes::SED(_)
        | Opcodes::CLD(_)
        | Opcodes::CLV(_)
        | Opcodes::BRK(_)
        | Opcodes::NOP(_)
        | Opcodes::RTI(_) => Family::System,
        }
    }

    /// Carries out one of the loads and stores.
    fn dispatch_data(&mut self, operation: Opcodes, memory: &mut MEM)
        requires
            addressable(old(memory)@),
            supported(operation),
            family(operation) == Family::Data,
        ensures
            addressable(final(memory)@),
            machine(*final(self), final(memory)@) == execute_spec(
                operation,
                machine(*old(self), old(memory)@),
            ),
    {
        match operation {
            Opcodes::LDA(mode) => self.execute_lda(mode, memory),
            Opcodes::LDX(mode) => self.execute_ldx(mode, memory),
            Opcodes::LDY(mode) => self.execute_ldy(mode, memory),
            Opcodes::STA(mode) => self.execute_sta(mode, memory),
            Opcodes::STX(mode) => self.execute_stx(mode, memory),
            Opcodes::STY(mode) => self.execute_sty(mode, memory),
            _ => {},
        }
    }

    /// Carries out one of the transfers between registers and stack instructions.
    fn dispatch_moves(&mut self, operation: Opcodes, memory: &mut MEM)
        requires
            addressable(old(memory)@),
            supported(operation),
            family(operation) == Family::Moves,
        ensures
            addressable(final(memory)@),
            machine(*final(self), final(memory)@) == execute_spec(
                operation,
                machine(*old(self), old(memory)@),
            ),
    {
        match operation {
            Opcodes::TAX(_) => self.execute_tax(memory),
            Opcodes::TAY(_) => self.execute_tay(memory),
            Opcodes::TXA(_) => self.execute_txa(memory),
            Opcodes::TYA(_) => self.execute_tya(memory),
            Opcodes::TSX(_) => self.execute_tsx(memory),
            Opcodes::TXS(_) => self.execute_txs(memory),
            Opcodes::PHA(mode) => self.execute_pha(mode, memory),
            Opcodes::PHP(mode) => self.execute_php(mode, memory),
            Opcodes::PLA(mode) => self.execute_pla(mode, memory),
            Opcodes::PLP(mode) => self.execute_plp(mode, memory),
            _ => {},
        }
    }

    /// Carries out one of the logic, arithmetic and comparisons.
    fn dispatch_alu(&mut self, operation: Opcodes, memory: &mut MEM)
        requires
            addressable(old(memory)@),
            supported(operation),
            family(operation) == Family::Alu,
        ensures
            addressable(final(memory)@),
            machine(*final(self), final(memory)@) == execute_spec(
                operation,
                machine(*old(self), old(memory)@),
            ),
    {
        match operation {
            Opcodes::AND(mode) => self.execute_and(mode, memory),
            Opcodes::EOR(mode) => self.execute_eor(mode, memory),
            Opcodes::ORA(mode) => self.execute_ora(mode, memory),
            Opcodes::BIT(mode) => self.execute_bit(mode, memory),
            Opcodes::ADC(mode) => self.execute_adc(mode, memory),
            Opcodes::SBC(mode) => self.execute_sbc(mode, memory),
            Opcodes::CMP(mode) => self.execute_cmp(mode, memory),
            Opcodes::CPX(mode) => self.execute_cpx(mode, memory),
            Opcodes::CPY(mode) => self.execute_cpy(mode, memory),
            _ => {},
        }
    }

    /// Carries out one of the increments, decrements and shifts.
    fn dispatch_steps(&mut self, operation: Opcodes, memory: &mut MEM)
        requires
            addressable(old(memory)@),
            supported(operation),
            family(operation) == Family::Steps,
        ensures
            addressable(final(memory)@),
            machine(*final(self), final(memory)@) == execute_spec(
                operation,
                machine(*old(self), old(memory)@),
            ),
    {
        match operation {
            Opcodes::INC(mode) => self.execute_inc(mode, memory),
            Opcodes::INX(mode) => self.execute_inx(mode),
            Opcodes::INY(mode) => self.execute_iny(mode),
            Opcodes::DEC(mode) => self.execute_dec(mode, memory),
            Opcodes::DEX(mode) => self.execute_dex(mode),
            Opcodes::DEY(mode) => self.execute_dey(mode),
            Opcodes::ASL(mode) => self.execute_asl(mode, memory),
            Opcodes::LSR(mode) => self.execute_lsr(mode, memory),
            Opcodes::ROL(mode) => self.execute_rol(mode, memory),
            Opcodes::ROR(mode) => self.execute_ror(mode, memory),
            _ => {},
        }
    }

    /// Carries out one of the jumps, subroutines and branches.
    fn dispatch_flow(&mut self, operation: Opcodes, memory: &mut MEM)
        requires
            addressable(old(memory)@),
            supported(operation),
            family(operation) == Family::Flow,
        ensures
            addressable(final(memory)@),
            machine(*final(self), final(memory)@) == execute_spec(
                operation,
                machine(*old(self), old(memory)@),
            ),
    {
        match operation {
            Opcodes::JMP(mode) => self.execute_jmp(mode, memory),
            Opcodes::JSR(mode) => self.execute_jsr(mode, memory),
            Opcodes::RTS(mode) => self.execute_rts(mode, memory),
            Opcodes::BCS(_) => self.execute_bcs(memory),
            Opcodes::BCC(_) => self.execute_bcc(memory),
            Opcodes::BEQ(_) => self.execute_beq(memory),
            Opcodes::BNE(_) => self.execute_bne(memory),
            Opcodes::BMI(_) => self.execute_bmi(memory),
            Opcodes::BPL(_) => self.execute_bpl(memory),
            Opcodes::BVS(_) => self.execute_bvs(memory),
            Opcodes::BVC(_) => self.execute_bvc(memory),
            _ => {},
        }
    }

    /// Carries out one of the flag instructions, BRK, NOP and RTI.
    fn dispatch_system(&mut self, operation: Opcodes, memory: &mut MEM)
        requires
            addressable(old(memory)@),
            supported(operation),
            family(operation) == Family::System,
        ensures
            addressable(final(memory)@),
            machine(*final(self), final(memory)@) == execute_spec(
                operation,
                machine(*old(self), old(memory)@),
            ),
    {
        match operation {
            Opcodes::SEC(_) => self.execute_flag(Flag::C, true),
            Opcodes::CLC(_) => self.execute_flag(Flag::C, false),
            Opcodes::SEI(_) => self.execute_flag(Flag::I, true),
            Opcodes::CLI(_) => self.execute_flag(Flag::I, false),
            Opcodes::SED(_) => self.execute_flag(Flag::D, true),
            Opcodes::CLD(_) => self.execute_flag(Flag::D, false),
            Opcodes::CLV(_) => self.execute_flag(Flag::V, false),
            Opcodes::BRK(_) => self.execute_brk(memory),
            Opcodes::NOP(_) => self.increment_pc(1),
            Opcodes::RTI(_) => self.execute_rti(memory),
            _ => {},
        }
    }

    /// Carries out a decoded instruction.
    fn dispatch(&mut self, operation: Opcodes, memory: &mut MEM)
        requires
            addressable(old(memory)@),
            supported(operation),
        ensures
            addressable(final(memory)@),
            machine(*final(self), final(memory)@) == execute_spec(
                operation,
                machine(*old(self), old(memory)@),
            ),
    {
        match Self::family_of(operation) {
            Family::Data => self.dispatch_data(operation, memory),
            Family::Moves => self.dispatch_moves(operation, memory),
            Family::Alu => self.dispatch_alu(operation, memory),
            Family::Steps => self.dispatch_steps(operation, memory),
            Family::Flow => self.dispatch_flow(operation, memory),
            Family::System => self.dispatch_system(operation, memory),
        }
    }

    /// Executes one instruction: reads the opcode at the program counter,
    /// decodes it and carries it out. Fails, and changes nothing, where the
    /// byte is no documented opcode.
    pub fn execute(&mut self, memory: &mut MEM) -> (r: Result<(), CpuError>)
        requires
            addressable(old(memory)@),
        ensures
            addressable(final(memory)@),
            r.is_ok() <==> step(machine(*old(self), old(memory)@)).is_some(),
            r.is_ok() ==> Some(machine(*final(self), final(memory)@)) == step(
                machine(*old(self), old(memory)@),
            ),
            r.is_err() ==> *final(self) == *old(self) && final(memory)@ == old(memory)@,
            r.is_err() ==> r == Err::<(), CpuError>(
                CpuError::UnknownOpcode {
                    opcode: opcode_at(*old(self), old(memory)@),
                    pc: old(self).PC,
                },
            ),
    {
        let pc_data = memory.peek(self.program_counter());
        let operation = match self.from(pc_data) {
            Err(_) => {
                return Err(CpuError::UnknownOpcode { opcode: pc_data, pc: self.PC });
            },
            Ok(operation) => operation,
        };
        memory.read_byte(self.program_counter());
        self.count_instruction();
        self.dispatch(operation, memory);
        Ok(())
    }
}

} // verus!
