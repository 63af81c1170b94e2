//! The processor: a MOS 6502 without decimal mode.
//!
//! This file holds the processor's state, the table that decodes an opcode
//! byte into a mnemonic and an addressing mode, the stack, the status byte
//! and the interrupt vectors.

use vstd::prelude::*;

use crate::memory::MemoryModel;
use crate::memory::MEM;
use crate::types::Wrapped;

pub mod execution;
pub mod instruction;

verus! {

/// Address of the lowest byte of the stack page.
pub const STACK_BASE: u16 = 0x0100;

/// Address of the vector taken on a non-maskable interrupt.
pub const NMI_VECTOR: u16 = 0xFFFA;

/// Address of the vector taken on reset.
pub const RESET_VECTOR: u16 = 0xFFFC;

/// Address of the vector taken on an interrupt request and on `BRK`.
pub const IRQ_VECTOR: u16 = 0xFFFE;

/// The stack pointer after power-on.
pub const POWER_ON_STACK: u8 = 0xFD;

/// The state of the processor: program counter, accumulator, index
/// registers, stack pointer and the seven status flags.
#[allow(non_snake_case, clippy::upper_case_acronyms)]
#[derive(Debug, Clone, Copy, PartialEq, Eq, Structural)]
pub struct CPU {
    pub PC: u16,  // Program Count
    pub A: u8,  // Accumulator
    pub X: u8,  // Register X
    pub Y: u8,  // Register Y
    pub S: u8,  // Stack Pointer
    pub N: bool,
    pub V: bool,
    pub B: bool,
    pub D: bool,
    pub I: bool,
    pub Z: bool,
    pub C: bool,
    pub executed_opcodes: u32,
}

/// How an instruction finds its operand.
#[derive(Debug, Clone, Copy, PartialEq, Eq, Structural)]
pub enum MemoryMode {
    Implicit,
    Acc,
    Immediate,
    ZeroPage,
    ZeroPageX,
    ZeroPageY,
    Relative,
    Absolute,
    AbsoluteX,
    AbsoluteY,
    Indirect,
    IndirectX,
    IndirectY,
}

/// A mnemonic together with its addressing mode.
#[derive(Debug, Clone, Copy, PartialEq, Eq, Structural)]
pub enum Opcodes {
    ADC(MemoryMode),
    AND(MemoryMode),
    ASL(MemoryMode),
    BCC(MemoryMode),
    BCS(MemoryMode),
    BEQ(MemoryMode),
    BIT(MemoryMode),
    BMI(MemoryMode),
    BNE(MemoryMode),
    BPL(MemoryMode),
    BRK(MemoryMode),
    BVC(MemoryMode),
    BVS(MemoryMode),
    CLC(MemoryMode),
    CLD(MemoryMode),
    CLI(MemoryMode),
    CLV(MemoryMode),
    CMP(MemoryMode),
    CPX(MemoryMode),
    CPY(MemoryMode),
    DEC(MemoryMode),
    DEX(MemoryMode),
    DEY(MemoryMode),
    EOR(MemoryMode),
    INC(MemoryMode),
    INX(MemoryMode),
    INY(MemoryMode),
    JMP(MemoryMode),
    JSR(MemoryMode),
    LDA(MemoryMode),
    LDX(MemoryMode),
    LDY(MemoryMode),
    LSR(MemoryMode),
    NOP(MemoryMode),
    ORA(MemoryMode),
    PHA(MemoryMode),
    PHP(MemoryMode),
    PLA(MemoryMode),
    PLP(MemoryMode),
    ROL(MemoryMode),
    ROR(MemoryMode),
    RTI(MemoryMode),
    RTS(MemoryMode),
    SBC(MemoryMode),
    SEC(MemoryMode),
    SED(MemoryMode),
    SEI(MemoryMode),
    STA(MemoryMode),
    STX(MemoryMode),
    STY(MemoryMode),
    TAX(MemoryMode),
    TAY(MemoryMode),
    TSX(MemoryMode),
    TXA(MemoryMode),
    TXS(MemoryMode),
    TYA(MemoryMode),
}

/// Why the processor stopped.
#[derive(Debug, Clone, Copy, PartialEq, Eq, Structural)]
pub enum CpuError {
    /// The byte at the program counter is no documented opcode.
    UnknownOpcode { opcode: u8, pc: u16 },
}

/// The processor together with the address space it works on.
pub struct Machine {
    pub cpu: CPU,
    pub memory: MemoryModel,
}

/// Whether the processor can work on `memory`: the address space is well
/// formed and holds every 16-bit address.
pub open spec fn addressable(memory: MemoryModel) -> bool {
    memory.wf() && memory.data.len() >= 0x10000
}

/// The value of a flag as a digit.
pub open spec fn digit(flag: bool) -> int {
    if flag {
        1
    } else {
        0
    }
}

/// The status byte `N V 1 B D I Z C`, most significant bit first. Bit 5 is
/// always set.
pub open spec fn status_byte(cpu: CPU) -> int {
    128 * digit(cpu.N) + 64 * digit(cpu.V) + 32 + 16 * digit(cpu.B) + 8 * digit(cpu.D) + 4 * digit(
        cpu.I,
    ) + 2 * digit(cpu.Z) + digit(cpu.C)
}

/// The processor after its flags were loaded from `status`. Bits 4 and 5 of
/// the byte are ignored: `B` keeps the value it had.
pub open spec fn with_status(cpu: CPU, status: u8) -> CPU {
    CPU {
        C: status % 2 == 1,
        Z: (status / 2) % 2 == 1,
        I: (status / 4) % 2 == 1,
        D: (status / 8) % 2 == 1,
        V: (status / 64) % 2 == 1,
        N: (status / 128) % 2 == 1,
        ..cpu
    }
}

/// The processor with `Z` and `N` set from `result`: `Z` when it is zero,
/// `N` when its bit 7 is set.
pub open spec fn with_zn(cpu: CPU, result: u8) -> CPU {
    CPU { Z: result == 0, N: result >= 0x80, ..cpu }
}

impl Machine {
    /// After `data` was pushed: it is written at 0x0100 + S, and S wraps
    /// down by one.
    pub open spec fn push(self, data: u8) -> Machine {
        Machine {
            cpu: CPU { S: wrap8(self.cpu.S - 1) as u8, ..self.cpu },
            memory: self.memory.after_write(STACK_BASE + self.cpu.S, data),
        }
    }

    /// The byte that a pull returns: the one at 0x0100 + (S + 1 mod 256).
    pub open spec fn top(self) -> u8 {
        self.memory.read_byte(STACK_BASE + wrap8(self.cpu.S + 1))
    }

    /// After a byte was pulled: S wraps up by one, and the byte at
    /// 0x0100 + S was read.
    pub open spec fn pull(self) -> Machine {
        Machine {
            cpu: CPU { S: wrap8(self.cpu.S + 1) as u8, ..self.cpu },
            memory: self.memory.after_read(STACK_BASE + wrap8(self.cpu.S + 1), 1),
        }
    }

    /// After the program counter was loaded from the vector at `vector`.
    pub open spec fn jump_through(self, vector: int) -> Machine {
        Machine {
            cpu: CPU { PC: self.memory.read_value(vector, 2) as u16, ..self.cpu },
            memory: self.memory.after_read(vector, 2),
        }
    }

    /// After the program counter moved on by `n` bytes, modulo 2^16.
    pub open spec fn advance(self, n: int) -> Machine {
        Machine { cpu: CPU { PC: wrap16(self.cpu.PC + n) as u16, ..self.cpu }, ..self }
    }
}

/// `x` reduced to eight bits.
pub open spec fn wrap8(x: int) -> int {
    x % 0x100
}

/// `x` reduced to sixteen bits.
pub open spec fn wrap16(x: int) -> int {
    x % 0x10000
}

/// The number that a byte stands for when read as two's complement.
pub open spec fn signed(byte: u8) -> int {
    if byte >= 0x80 {
        byte - 0x100
    } else {
        byte as int
    }
}

/// The opcode that a byte decodes to, for each byte of the documented
/// instruction set.
pub open spec fn decode(value: u8) -> Option<Opcodes> {
    match value {
        // LOAD/STORE
        0xA9 => Some(Opcodes::LDA(MemoryMode::Immediate)),
        0xA5 => Some(Opcodes::LDA(MemoryMode::ZeroPage)),
        0xB5 => Some(Opcodes::LDA(MemoryMode::ZeroPageX)),
        0xAD => Some(Opcodes::LDA(MemoryMode::Absolute)),
        0xBD => Some(Opcodes::LDA(MemoryMode::AbsoluteX)),
        0xB9 => Some(Opcodes::LDA(MemoryMode::AbsoluteY)),
        0xA1 => Some(Opcodes::LDA(MemoryMode::IndirectX)),
        0xB1 => Some(Opcodes::LDA(MemoryMode::IndirectY)),
        0xA2 => Some(Opcodes::LDX(MemoryMode::Immediate)),
        0xA6 => Some(Opcodes::LDX(MemoryMode::ZeroPage)),
        0xB6 => Some(Opcodes::LDX(MemoryMode::ZeroPageY)),
        0xAE => Some(Opcodes::LDX(MemoryMode::Absolute)),
        0xBE => Some(Opcodes::LDX(MemoryMode::AbsoluteY)),
        0xA0 => Some(Opcodes::LDY(MemoryMode::Immediate)),
        0xA4 => Some(Opcodes::LDY(MemoryMode::ZeroPage)),
        0xB4 => Some(Opcodes::LDY(MemoryMode::ZeroPageX)),
        0xAC => Some(Opcodes::LDY(MemoryMode::Absolute)),
        0xBC => Some(Opcodes::LDY(MemoryMode::AbsoluteX)),
        0x85 => Some(Opcodes::STA(MemoryMode::ZeroPage)),
        0x95 => Some(Opcodes::STA(MemoryMode::ZeroPageX)),
        0x8D => Some(Opcodes::STA(MemoryMode::Absolute)),
        0x9D => Some(Opcodes::STA(MemoryMode::AbsoluteX)),
        0x99 => Some(Opcodes::STA(MemoryMode::AbsoluteY)),
        0x81 => Some(Opcodes::STA(MemoryMode::IndirectX)),
        0x91 => Some(Opcodes::STA(MemoryMode::IndirectY)),
        0x86 => Some(Opcodes::STX(MemoryMode::ZeroPage)),
        0x96 => Some(Opcodes::STX(MemoryMode::ZeroPageY)),
        0x8E => Some(Opcodes::STX(MemoryMode::Absolute)),
        0x84 => Some(Opcodes::STY(MemoryMode::ZeroPage)),
        0x94 => Some(Opcodes::STY(MemoryMode::ZeroPageX)),
        0x8C => Some(Opcodes::STY(MemoryMode::Absolute)),
        // TRANSFERS
        0xAA => Some(Opcodes::TAX(MemoryMode::Implicit)),
        0xA8 => Some(Opcodes::TAY(MemoryMode::Implicit)),
        0x8A => Some(Opcodes::TXA(MemoryMode::Implicit)),
        0x98 => Some(Opcodes::TYA(MemoryMode::Implicit)),
        0xBA => Some(Opcodes::TSX(MemoryMode::Implicit)),
        0x9A => Some(Opcodes::TXS(MemoryMode::Implicit)),
        // STACK
        0x48 => Some(Opcodes::PHA(MemoryMode::Implicit)),
        0x08 => Some(Opcodes::PHP(MemoryMode::Implicit)),
        0x68 => Some(Opcodes::PLA(MemoryMode::Implicit)),
        0x28 => Some(Opcodes::PLP(MemoryMode::Implicit)),
        // LOGIC
        0x29 => Some(Opcodes::AND(MemoryMode::Immediate)),
        0x25 => Some(Opcodes::AND(MemoryMode::ZeroPage)),
        0x35 => Some(Opcodes::AND(MemoryMode::ZeroPageX)),
        0x2D => Some(Opcodes::AND(MemoryMode::Absolute)),
        0x3D => Some(Opcodes::AND(MemoryMode::AbsoluteX)),
        0x39 => Some(Opcodes::AND(MemoryMode::AbsoluteY)),
        0x21 => Some(Opcodes::AND(MemoryMode::IndirectX)),
        0x31 => Some(Opcodes::AND(MemoryMode::IndirectY)),
        0x49 => Some(Opcodes::EOR(MemoryMode::Immediate)),
        0x45 => Some(Opcodes::EOR(MemoryMode::ZeroPage)),
        0x55 => Some(Opcodes::EOR(MemoryMode::ZeroPageX)),
        0x4D => Some(Opcodes::EOR(MemoryMode::Absolute)),
        0x5D => Some(Opcodes::EOR(MemoryMode::AbsoluteX)),
        0x59 => Some(Opcodes::EOR(MemoryMode::AbsoluteY)),
        0x41 => Some(Opcodes::EOR(MemoryMode::IndirectX)),
        0x51 => Some(Opcodes::EOR(MemoryMode::IndirectY)),
        0x09 => Some(Opcodes::ORA(MemoryMode::Immediate)),
        0x05 => Some(Opcodes::ORA(MemoryMode::ZeroPage)),
        0x15 => Some(Opcodes::ORA(MemoryMode::ZeroPageX)),
        0x0D => Some(Opcodes::ORA(MemoryMode::Absolute)),
        0x1D => Some(Opcodes::ORA(MemoryMode::AbsoluteX)),
        0x19 => Some(Opcodes::ORA(MemoryMode::AbsoluteY)),
        0x01 => Some(Opcodes::ORA(MemoryMode::IndirectX)),
        0x11 => Some(Opcodes::ORA(MemoryMode::IndirectY)),
        0x24 => Some(Opcodes::BIT(MemoryMode::ZeroPage)),
        0x2C => Some(Opcodes::BIT(MemoryMode::Absolute)),
        // ARITHMETIC
        0x69 => Some(Opcodes::ADC(MemoryMode::Immediate)),
        0x65 => Some(Opcodes::ADC(MemoryMode::ZeroPage)),
        0x75 => Some(Opcodes::ADC(MemoryMode::ZeroPageX)),
        0x6D => Some(Opcodes::ADC(MemoryMode::Absolute)),
        0x7D => Some(Opcodes::ADC(MemoryMode::AbsoluteX)),
        0x79 => Some(Opcodes::ADC(MemoryMode::AbsoluteY)),
        0x61 => Some(Opcodes::ADC(MemoryMode::IndirectX)),
        0x71 => Some(Opcodes::ADC(MemoryMode::IndirectY)),
        0xE9 => Some(Opcodes::SBC(MemoryMode::Immediate)),
        0xE5 => Some(Opcodes::SBC(MemoryMode::ZeroPage)),
        0xF5 => Some(Opcodes::SBC(MemoryMode::ZeroPageX)),
        0xED => Some(Opcodes::SBC(MemoryMode::Absolute)),
        0xFD => Some(Opcodes::SBC(MemoryMode::AbsoluteX)),
        0xF9 => Some(Opcodes::SBC(MemoryMode::AbsoluteY)),
        0xE1 => Some(Opcodes::SBC(MemoryMode::IndirectX)),
        0xF1 => Some(Opcodes::SBC(MemoryMode::IndirectY)),
        0xC9 => Some(Opcodes::CMP(MemoryMode::Immediate)),
        0xC5 => Some(Opcodes::CMP(MemoryMode::ZeroPage)),
        0xD5 => Some(Opcodes::CMP(MemoryMode::ZeroPageX)),
        0xCD => Some(Opcodes::CMP(MemoryMode::Absolute)),
        0xDD => Some(Opcodes::CMP(MemoryMode::AbsoluteX)),
        0xD9 => Some(Opcodes::CMP(MemoryMode::AbsoluteY)),
        0xC1 => Some(Opcodes::CMP(MemoryMode::IndirectX)),
        0xD1 => Some(Opcodes::CMP(MemoryMode::IndirectY)),
        0xE0 => Some(Opcodes::CPX(MemoryMode::Immediate)),
        0xE4 => Some(Opcodes::CPX(MemoryMode::ZeroPage)),
        0xEC => Some(Opcodes::CPX(MemoryMode::Absolute)),
        0xC0 => Some(Opcodes::CPY(MemoryMode::Immediate)),
        0xC4 => Some(Opcodes::CPY(MemoryMode::ZeroPage)),
        0xCC => Some(Opcodes::CPY(MemoryMode::Absolute)),
        // INC/DEC
        0xE6 => Some(Opcodes::INC(MemoryMode::ZeroPage)),
        0xF6 => Some(Opcodes::INC(MemoryMode::ZeroPageX)),
        0xEE => Some(Opcodes::INC(MemoryMode::Absolute)),
        0xFE => Some(Opcodes::INC(MemoryMode::AbsoluteX)),
        0xE8 => Some(Opcodes::INX(MemoryMode::Implicit)),
        0xC8 => Some(Opcodes::INY(MemoryMode::Implicit)),
        0xC6 => Some(Opcodes::DEC(MemoryMode::ZeroPage)),
        0xD6 => Some(Opcodes::DEC(MemoryMode::ZeroPageX)),
        0xCE => Some(Opcodes::DEC(MemoryMode::Absolute)),
        0xDE => Some(Opcodes::DEC(MemoryMode::AbsoluteX)),
        0xCA => Some(Opcodes::DEX(MemoryMode::Implicit)),
        0x88 => Some(Opcodes::DEY(MemoryMode::Implicit)),
        // SHIFTS
        0x0A => Some(Opcodes::ASL(MemoryMode::Acc)),
        0x06 => Some(Opcodes::ASL(MemoryMode::ZeroPage)),
        0x16 => Some(Opcodes::ASL(MemoryMode::ZeroPageX)),
        0x0E => Some(Opcodes::ASL(MemoryMode::Absolute)),
        0x1E => Some(Opcodes::ASL(MemoryMode::AbsoluteX)),
        0x4A => Some(Opcodes::LSR(MemoryMode::Acc)),
        0x46 => Some(Opcodes::LSR(MemoryMode::ZeroPage)),
        0x56 => Some(Opcodes::LSR(MemoryMode::ZeroPageX)),
        0x4E => Some(Opcodes::LSR(MemoryMode::Absolute)),
        0x5E => Some(Opcodes::LSR(MemoryMode::AbsoluteX)),
        0x2A => Some(Opcodes::ROL(MemoryMode::Acc)),
        0x26 => Some(Opcodes::ROL(MemoryMode::ZeroPage)),
        0x36 => Some(Opcodes::ROL(MemoryMode::ZeroPageX)),
        0x2E => Some(Opcodes::ROL(MemoryMode::Absolute)),
        0x3E => Some(Opcodes::ROL(MemoryMode::AbsoluteX)),
        0x6A => Some(Opcodes::ROR(MemoryMode::Acc)),
        0x66 => Some(Opcodes::ROR(MemoryMode::ZeroPage)),
        0x76 => Some(Opcodes::ROR(MemoryMode::ZeroPageX)),
        0x6E => Some(Opcodes::ROR(MemoryMode::Absolute)),
        0x7E => Some(Opcodes::ROR(MemoryMode::AbsoluteX)),
        // JUMPS
        0x4C => Some(Opcodes::JMP(MemoryMode::Absolute)),
        0x6C => Some(Opcodes::JMP(MemoryMode::Indirect)),
        0x20 => Some(Opcodes::JSR(MemoryMode::Absolute)),
        0x60 => Some(Opcodes::RTS(MemoryMode::Implicit)),
        // BRANCHES
        0xB0 => Some(Opcodes::BCS(MemoryMode::Relative)),
        0x90 => Some(Opcodes::BCC(MemoryMode::Relative)),
        0xF0 => Some(Opcodes::BEQ(MemoryMode::Relative)),
        0xD0 => Some(Opcodes::BNE(MemoryMode::Relative)),
        0x30 => Some(Opcodes::BMI(MemoryMode::Relative)),
        0x10 => Some(Opcodes::BPL(MemoryMode::Relative)),
        0x70 => Some(Opcodes::BVS(MemoryMode::Relative)),
        0x50 => Some(Opcodes::BVC(MemoryMode::Relative)),
        // STATUS
        0x38 => Some(Opcodes::SEC(MemoryMode::Implicit)),
        0x18 => Some(Opcodes::CLC(MemoryMode::Implicit)),
        0x78 => Some(Opcodes::SEI(MemoryMode::Implicit)),
        0x58 => Some(Opcodes::CLI(MemoryMode::Implicit)),
        0xF8 => Some(Opcodes::SED(MemoryMode::Implicit)),
        0xD8 => Some(Opcodes::CLD(MemoryMode::Implicit)),
        0xB8 => Some(Opcodes::CLV(MemoryMode::Implicit)),
        // SYSTEM
        0x00 => Some(Opcodes::BRK(MemoryMode::Implicit)),
        0xEA => Some(Opcodes::NOP(MemoryMode::Implicit)),
        0x40 => Some(Opcodes::RTI(MemoryMode::Implicit)),
        _ => None,
    }
}

/// The byte that encodes a mnemonic in an addressing mode, or -1 where the
/// processor has no such instruction.
pub open spec fn encode(opcode: Opcodes) -> int {
    match opcode {
        // LOAD/STORE
        Opcodes::LDA(MemoryMode::Immediate) => 0xA9,
        Opcodes::LDA(MemoryMode::ZeroPage) => 0xA5,
        Opcodes::LDA(MemoryMode::ZeroPageX) => 0xB5,
        Opcodes::LDA(MemoryMode::Absolute) => 0xAD,
        Opcodes::LDA(MemoryMode::AbsoluteX) => 0xBD,
        Opcodes::LDA(MemoryMode::AbsoluteY) => 0xB9,
        Opcodes::LDA(MemoryMode::IndirectX) => 0xA1,
        Opcodes::LDA(MemoryMode::IndirectY) => 0xB1,
        Opcodes::LDX(MemoryMode::Immediate) => 0xA2,
        Opcodes::LDX(MemoryMode::ZeroPage) => 0xA6,
        Opcodes::LDX(MemoryMode::ZeroPageY) => 0xB6,
        Opcodes::LDX(MemoryMode::Absolute) => 0xAE,
        Opcodes::LDX(MemoryMode::AbsoluteY) => 0xBE,
        Opcodes::LDY(MemoryMode::Immediate) => 0xA0,
        Opcodes::LDY(MemoryMode::ZeroPage) => 0xA4,
        Opcodes::LDY(MemoryMode::ZeroPageX) => 0xB4,
        Opcodes::LDY(MemoryMode::Absolute) => 0xAC,
        Opcodes::LDY(MemoryMode::AbsoluteX) => 0xBC,
        Opcodes::STA(MemoryMode::ZeroPage) => 0x85,
        Opcodes::STA(MemoryMode::ZeroPageX) => 0x95,
        Opcodes::STA(MemoryMode::Absolute) => 0x8D,
        Opcodes::STA(MemoryMode::AbsoluteX) => 0x9D,
        Opcodes::STA(MemoryMode::AbsoluteY) => 0x99,
        Opcodes::STA(MemoryMode::IndirectX) => 0x81,
        Opcodes::STA(MemoryMode::IndirectY) => 0x91,
        Opcodes::STX(MemoryMode::ZeroPage) => 0x86,
        Opcodes::STX(MemoryMode::ZeroPageY) => 0x96,
        Opcodes::STX(MemoryMode::Absolute) => 0x8E,
        Opcodes::STY(MemoryMode::ZeroPage) => 0x84,
        Opcodes::STY(MemoryMode::ZeroPageX) => 0x94,
        Opcodes::STY(MemoryMode::Absolute) => 0x8C,
        // TRANSFERS
        Opcodes::TAX(MemoryMode::Implicit) => 0xAA,
        Opcodes::TAY(MemoryMode::Implicit) => 0xA8,
        Opcodes::TXA(MemoryMode::Implicit) => 0x8A,
        Opcodes::TYA(MemoryMode::Implicit) => 0x98,
        Opcodes::TSX(MemoryMode::Implicit) => 0xBA,
        Opcodes::TXS(MemoryMode::Implicit) => 0x9A,
        // STACK
        Opcodes::PHA(MemoryMode::Implicit) => 0x48,
        Opcodes::PHP(MemoryMode::Implicit) => 0x08,
        Opcodes::PLA(MemoryMode::Implicit) => 0x68,
        Opcodes::PLP(MemoryMode::Implicit) => 0x28,
        // LOGIC
        Opcodes::AND(MemoryMode::Immediate) => 0x29,
        Opcodes::AND(MemoryMode::ZeroPage) => 0x25,
        Opcodes::AND(MemoryMode::ZeroPageX) => 0x35,
        Opcodes::AND(MemoryMode::Absolute) => 0x2D,
        Opcodes::AND(MemoryMode::AbsoluteX) => 0x3D,
        Opcodes::AND(MemoryMode::AbsoluteY) => 0x39,
        Opcodes::AND(MemoryMode::IndirectX) => 0x21,
        Opcodes::AND(MemoryMode::IndirectY) => 0x31,
        Opcodes::EOR(MemoryMode::Immediate) => 0x49,
        Opcodes::EOR(MemoryMode::ZeroPage) => 0x45,
        Opcodes::EOR(MemoryMode::ZeroPageX) => 0x55,
        Opcodes::EOR(MemoryMode::Absolute) => 0x4D,
        Opcodes::EOR(MemoryMode::AbsoluteX) => 0x5D,
        Opcodes::EOR(MemoryMode::AbsoluteY) => 0x59,
        Opcodes::EOR(MemoryMode::IndirectX) => 0x41,
        Opcodes::EOR(MemoryMode::IndirectY) => 0x51,
        Opcodes::ORA(MemoryMode::Immediate) => 0x09,
        Opcodes::ORA(MemoryMode::ZeroPage) => 0x05,
        Opcodes::ORA(MemoryMode::ZeroPageX) => 0x15,
        Opcodes::ORA(MemoryMode::Absolute) => 0x0D,
        Opcodes::ORA(MemoryMode::AbsoluteX) => 0x1D,
        Opcodes::ORA(MemoryMode::AbsoluteY) => 0x19,
        Opcodes::ORA(MemoryMode::IndirectX) => 0x01,
        Opcodes::ORA(MemoryMode::IndirectY) => 0x11,
        Opcodes::BIT(MemoryMode::ZeroPage) => 0x24,
        Opcodes::BIT(MemoryMode::Absolute) => 0x2C,
        // ARITHMETIC
        Opcodes::ADC(MemoryMode::Immediate) => 0x69,
        Opcodes::ADC(MemoryMode::ZeroPage) => 0x65,
        Opcodes::ADC(MemoryMode::ZeroPageX) => 0x75,
        Opcodes::ADC(MemoryMode::Absolute) => 0x6D,
        Opcodes::ADC(MemoryMode::AbsoluteX) => 0x7D,
        Opcodes::ADC(MemoryMode::AbsoluteY) => 0x79,
        Opcodes::ADC(MemoryMode::IndirectX) => 0x61,
        Opcodes::ADC(MemoryMode::IndirectY) => 0x71,
        Opcodes::SBC(MemoryMode::Immediate) => 0xE9,
        Opcodes::SBC(MemoryMode::ZeroPage) => 0xE5,
        Opcodes::SBC(MemoryMode::ZeroPageX) => 0xF5,
        Opcodes::SBC(MemoryMode::Absolute) => 0xED,
        Opcodes::SBC(MemoryMode::AbsoluteX) => 0xFD,
        Opcodes::SBC(MemoryMode::AbsoluteY) => 0xF9,
        Opcodes::SBC(MemoryMode::IndirectX) => 0xE1,
        Opcodes::SBC(MemoryMode::IndirectY) => 0xF1,
        Opcodes::CMP(MemoryMode::Immediate) => 0xC9,
        Opcodes::CMP(MemoryMode::ZeroPage) => 0xC5,
        Opcodes::CMP(MemoryMode::ZeroPageX) => 0xD5,
        Opcodes::CMP(MemoryMode::Absolute) => 0xCD,
        Opcodes::CMP(MemoryMode::AbsoluteX) => 0xDD,
        Opcodes::CMP(MemoryMode::AbsoluteY) => 0xD9,
        Opcodes::CMP(MemoryMode::IndirectX) => 0xC1,
        Opcodes::CMP(MemoryMode::IndirectY) => 0xD1,
        Opcodes::CPX(MemoryMode::Immediate) => 0xE0,
        Opcodes::CPX(MemoryMode::ZeroPage) => 0xE4,
        Opcodes::CPX(MemoryMode::Absolute) => 0xEC,
        Opcodes::CPY(MemoryMode::Immediate) => 0xC0,
        Opcodes::CPY(MemoryMode::ZeroPage) => 0xC4,
        Opcodes::CPY(MemoryMode::Absolute) => 0xCC,
        // INC/DEC
        Opcodes::INC(MemoryMode::ZeroPage) => 0xE6,
        Opcodes::INC(MemoryMode::ZeroPageX) => 0xF6,
        Opcodes::INC(MemoryMode::Absolute) => 0xEE,
        Opcodes::INC(MemoryMode::AbsoluteX) => 0xFE,
        Opcodes::INX(MemoryMode::Implicit) => 0xE8,
        Opcodes::INY(MemoryMode::Implicit) => 0xC8,
        Opcodes::DEC(MemoryMode::ZeroPage) => 0xC6,
        Opcodes::DEC(MemoryMode::ZeroPageX) => 0xD6,
        Opcodes::DEC(MemoryMode::Absolute) => 0xCE,
        Opcodes::DEC(MemoryMode::AbsoluteX) => 0xDE,
        Opcodes::DEX(MemoryMode::Implicit) => 0xCA,
        Opcodes::DEY(MemoryMode::Implicit) => 0x88,
        // SHIFTS
        Opcodes::ASL(MemoryMode::Acc) => 0x0A,
        Opcodes::ASL(MemoryMode::ZeroPage) => 0x06,
        Opcodes::ASL(MemoryMode::ZeroPageX) => 0x16,
        Opcodes::ASL(MemoryMode::Absolute) => 0x0E,
        Opcodes::ASL(MemoryMode::AbsoluteX) => 0x1E,
        Opcodes::LSR(MemoryMode::Acc) => 0x4A,
        Opcodes::LSR(MemoryMode::ZeroPage) => 0x46,
        Opcodes::LSR(MemoryMode::ZeroPageX) => 0x56,
        Opcodes::LSR(MemoryMode::Absolute) => 0x4E,
        Opcodes::LSR(MemoryMode::AbsoluteX) => 0x5E,
        Opcodes::ROL(MemoryMode::Acc) => 0x2A,
        Opcodes::ROL(MemoryMode::ZeroPage) => 0x26,
        Opcodes::ROL(MemoryMode::ZeroPageX) => 0x36,
        Opcodes::ROL(MemoryMode::Absolute) => 0x2E,
        Opcodes::ROL(MemoryMode::AbsoluteX) => 0x3E,
        Opcodes::ROR(MemoryMode::Acc) => 0x6A,
        Opcodes::ROR(MemoryMode::ZeroPage) => 0x66,
        Opcodes::ROR(MemoryMode::ZeroPageX) => 0x76,
        Opcodes::ROR(MemoryMode::Absolute) => 0x6E,
        Opcodes::ROR(MemoryMode::AbsoluteX) => 0x7E,
        // JUMPS
        Opcodes::JMP(MemoryMode::Absolute) => 0x4C,
        Opcodes::JMP(MemoryMode::Indirect) => 0x6C,
        Opcodes::JSR(MemoryMode::Absolute) => 0x20,
        Opcodes::RTS(MemoryMode::Implicit) => 0x60,
        // BRANCHES
        Opcodes::BCS(MemoryMode::Relative) => 0xB0,
        Opcodes::BCC(MemoryMode::Relative) => 0x90,
        Opcodes::BEQ(MemoryMode::Relative) => 0xF0,
        Opcodes::BNE(MemoryMode::Relative) => 0xD0,
        Opcodes::BMI(MemoryMode::Relative) => 0x30,
        Opcodes::BPL(MemoryMode::Relative) => 0x10,
        Opcodes::BVS(MemoryMode::Relative) => 0x70,
        Opcodes::BVC(MemoryMode::Relative) => 0x50,
        // STATUS
        Opcodes::SEC(MemoryMode::Implicit) => 0x38,
        Opcodes::CLC(MemoryMode::Implicit) => 0x18,
        Opcodes::SEI(MemoryMode::Implicit) => 0x78,
        Opcodes::CLI(MemoryMode::Implicit) => 0x58,
        Opcodes::SED(MemoryMode::Implicit) => 0xF8,
        Opcodes::CLD(MemoryMode::Implicit) => 0xD8,
        Opcodes::CLV(MemoryMode::Implicit) => 0xB8,
        // SYSTEM
        Opcodes::BRK(MemoryMode::Implicit) => 0x00,
        Opcodes::NOP(MemoryMode::Implicit) => 0xEA,
        Opcodes::RTI(MemoryMode::Implicit) => 0x40,
        _ => -1,
    }
}

/// Whether the processor has the mnemonic in the addressing mode.
pub open spec fn supported(opcode: Opcodes) -> bool {
    match opcode {
        Opcodes::LDA(mode) => mode == MemoryMode::Immediate
            || mode == MemoryMode::ZeroPage
            || mode == MemoryMode::ZeroPageX
            || mode == MemoryMode::Absolute
            || mode == MemoryMode::AbsoluteX
            || mode == MemoryMode::AbsoluteY
            || mode == MemoryMode::IndirectX
            || mode == MemoryMode::IndirectY,
        Opcodes::LDX(mode) => mode == MemoryMode::Immediate
            || mode == MemoryMode::ZeroPage
            || mode == MemoryMode::ZeroPageY
            || mode == MemoryMode::Absolute
            || mode == MemoryMode::AbsoluteY,
        Opcodes::LDY(mode) => mode == MemoryMode::Immediate
            || mode == MemoryMode::ZeroPage
            || mode == MemoryMode::ZeroPageX
            || mode == MemoryMode::Absolute
            || mode == MemoryMode::AbsoluteX,
        Opcodes::STA(mode) => mode == MemoryMode::ZeroPage
            || mode == MemoryMode::ZeroPageX
            || mode == MemoryMode::Absolute
            || mode == MemoryMode::AbsoluteX
            || mode == MemoryMode::AbsoluteY
            || mode == MemoryMode::IndirectX
            || mode == MemoryMode::IndirectY,
        Opcodes::STX(mode) => mode == MemoryMode::ZeroPage
            || mode == MemoryMode::ZeroPageY
            || mode == MemoryMode::Absolute,
        Opcodes::STY(mode) => mode == MemoryMode::ZeroPage
            || mode == MemoryMode::ZeroPageX
            || mode == MemoryMode::Absolute,
        Opcodes::TAX(mode) => mode == MemoryMode::Implicit,
        Opcodes::TAY(mode) => mode == MemoryMode::Implicit,
        Opcodes::TXA(mode) => mode == MemoryMode::Implicit,
        Opcodes::TYA(mode) => mode == MemoryMode::Implicit,
        Opcodes::TSX(mode) => mode == MemoryMode::Implicit,
        Opcodes::TXS(mode) => mode == MemoryMode::Implicit,
        Opcodes::PHA(mode) => mode == MemoryMode::Implicit,
        Opcodes::PHP(mode) => mode == MemoryMode::Implicit,
        Opcodes::PLA(mode) => mode == MemoryMode::Implicit,
        Opcodes::PLP(mode) => mode == MemoryMode::Implicit,
        Opcodes::AND(mode) => mode == MemoryMode::Immediate
            || mode == MemoryMode::ZeroPage
            || mode == MemoryMode::ZeroPageX
            || mode == MemoryMode::Absolute
            || mode == MemoryMode::AbsoluteX
            || mode == MemoryMode::AbsoluteY
            || mode == MemoryMode::IndirectX
            || mode == MemoryMode::IndirectY,
        Opcodes::EOR(mode) => mode == MemoryMode::Immediate
            || mode == MemoryMode::ZeroPage
            || mode == MemoryMode::ZeroPageX
            || mode == MemoryMode::Absolute
            || mode == MemoryMode::AbsoluteX
            || mode == MemoryMode::AbsoluteY
            || mode == MemoryMode::IndirectX
            || mode == MemoryMode::IndirectY,
        Opcodes::ORA(mode) => mode == MemoryMode::Immediate
            || mode == MemoryMode::ZeroPage
            || mode == MemoryMode::ZeroPageX
            || mode == MemoryMode::Absolute
            || mode == MemoryMode::AbsoluteX
            || mode == MemoryMode::AbsoluteY
            || mode == MemoryMode::IndirectX
            || mode == MemoryMode::IndirectY,
        Opcodes::BIT(mode) => mode == MemoryMode::ZeroPage || mode == MemoryMode::Absolute,
        Opcodes::ADC(mode) => mode == MemoryMode::Immediate
            || mode == MemoryMode::ZeroPage
            || mode == MemoryMode::ZeroPageX
            || mode == MemoryMode::Absolute
            || mode == MemoryMode::AbsoluteX
            || mode == MemoryMode::AbsoluteY
            || mode == MemoryMode::IndirectX
            || mode == MemoryMode::IndirectY,
        Opcodes::SBC(mode) => mode == MemoryMode::Immediate
            || mode == MemoryMode::ZeroPage
            || mode == MemoryMode::ZeroPageX
            || mode == MemoryMode::Absolute
            || mode == MemoryMode::AbsoluteX
            || mode == MemoryMode::AbsoluteY
            || mode == MemoryMode::IndirectX
            || mode == MemoryMode::IndirectY,
        Opcodes::CMP(mode) => mode == MemoryMode::Immediate
            || mode == MemoryMode::ZeroPage
            || mode == MemoryMode::ZeroPageX
            || mode == MemoryMode::Absolute
            || mode == MemoryMode::AbsoluteX
            || mode == MemoryMode::AbsoluteY
            || mode == MemoryMode::IndirectX
            || mode == MemoryMode::IndirectY,
        Opcodes::CPX(mode) => mode == MemoryMode::Immediate
            || mode == MemoryMode::ZeroPage
            || mode == MemoryMode::Absolute,
        Opcodes::CPY(mode) => mode == MemoryMode::Immediate
            || mode == MemoryMode::ZeroPage
            || mode == MemoryMode::Absolute,
        Opcodes::INC(mode) => mode == MemoryMode::ZeroPage
            || mode == MemoryMode::ZeroPageX
            || mode == MemoryMode::Absolute
            || mode == MemoryMode::AbsoluteX,
        Opcodes::INX(mode) => mode == MemoryMode::Implicit,
        Opcodes::INY(mode) => mode == MemoryMode::Implicit,
        Opcodes::DEC(mode) => mode == MemoryMode::ZeroPage
            || mode == MemoryMode::ZeroPageX
            || mode == MemoryMode::Absolute
            || mode == MemoryMode::AbsoluteX,
        Opcodes::DEX(mode) => mode == MemoryMode::Implicit,
        Opcodes::DEY(mode) => mode == MemoryMode::Implicit,
        Opcodes::ASL(mode) => mode == MemoryMode::Acc
            || mode == MemoryMode::ZeroPage
            || mode == MemoryMode::ZeroPageX
            || mode == MemoryMode::Absolute
            || mode == MemoryMode::AbsoluteX,
        Opcodes::LSR(mode) => mode == MemoryMode::Acc
            || mode == MemoryMode::ZeroPage
            || mode == MemoryMode::ZeroPageX
            || mode == MemoryMode::Absolute
            || mode == MemoryMode::AbsoluteX,
        Opcodes::ROL(mode) => mode == MemoryMode::Acc
            || mode == MemoryMode::ZeroPage
            || mode == MemoryMode::ZeroPageX
            || mode == MemoryMode::Absolute
            || mode == MemoryMode::AbsoluteX,
        Opcodes::ROR(mode) => mode == MemoryMode::Acc
            || mode == MemoryMode::ZeroPage
            || mode == MemoryMode::ZeroPageX
            || mode == MemoryMode::Absolute
            || mode == MemoryMode::AbsoluteX,
        Opcodes::JMP(mode) => mode == MemoryMode::Absolute || mode == MemoryMode::Indirect,
        Opcodes::JSR(mode) => mode == MemoryMode::Absolute,
        Opcodes::RTS(mode) => mode == MemoryMode::Implicit,
        Opcodes::BCS(mode) => mode == MemoryMode::Relative,
        Opcodes::BCC(mode) => mode == MemoryMode::Relative,
        Opcodes::BEQ(mode) => mode == MemoryMode::Relative,
        Opcodes::BNE(mode) => mode == MemoryMode::Relative,
        Opcodes::BMI(mode) => mode == MemoryMode::Relative,
        Opcodes::BPL(mode) => mode == MemoryMode::Relative,
        Opcodes::BVS(mode) => mode == MemoryMode::Relative,
        Opcodes::BVC(mode) => mode == MemoryMode::Relative,
        Opcodes::SEC(mode) => mode == MemoryMode::Implicit,
        Opcodes::CLC(mode) => mode == MemoryMode::Implicit,
        Opcodes::SEI(mode) => mode == MemoryMode::Implicit,
        Opcodes::CLI(mode) => mode == MemoryMode::Implicit,
        Opcodes::SED(mode) => mode == MemoryMode::Implicit,
        Opcodes::CLD(mode) => mode == MemoryMode::Implicit,
        Opcodes::CLV(mode) => mode == MemoryMode::Implicit,
        Opcodes::BRK(mode) => mode == MemoryMode::Implicit,
        Opcodes::NOP(mode) => mode == MemoryMode::Implicit,
        Opcodes::RTI(mode) => mode == MemoryMode::Implicit,
    }
}

/// The addressing mode of an opcode.
pub open spec fn mode_of(opcode: Opcodes) -> MemoryMode {
    match opcode {
        Opcodes::ADC(mode) => mode,
        Opcodes::AND(mode) => mode,
        Opcodes::ASL(mode) => mode,
        Opcodes::BCC(mode) => mode,
        Opcodes::BCS(mode) => mode,
        Opcodes::BEQ(mode) => mode,
        Opcodes::BIT(mode) => mode,
        Opcodes::BMI(mode) => mode,
        Opcodes::BNE(mode) => mode,
        Opcodes::BPL(mode) => mode,
        Opcodes::BRK(mode) => mode,
        Opcodes::BVC(mode) => mode,
        Opcodes::BVS(mode) => mode,
        Opcodes::CLC(mode) => mode,
        Opcodes::CLD(mode) => mode,
        Opcodes::CLI(mode) => mode,
        Opcodes::CLV(mode) => mode,
        Opcodes::CMP(mode) => mode,
        Opcodes::CPX(mode) => mode,
        Opcodes::CPY(mode) => mode,
        Opcodes::DEC(mode) => mode,
        Opcodes::DEX(mode) => mode,
        Opcodes::DEY(mode) => mode,
        Opcodes::EOR(mode) => mode,
        Opcodes::INC(mode) => mode,
        Opcodes::INX(mode) => mode,
        Opcodes::INY(mode) => mode,
        Opcodes::JMP(mode) => mode,
        Opcodes::JSR(mode) => mode,
        Opcodes::LDA(mode) => mode,
        Opcodes::LDX(mode) => mode,
        Opcodes::LDY(mode) => mode,
        Opcodes::LSR(mode) => mode,
        Opcodes::NOP(mode) => mode,
        Opcodes::ORA(mode) => mode,
        Opcodes::PHA(mode) => mode,
        Opcodes::PHP(mode) => mode,
        Opcodes::PLA(mode) => mode,
        Opcodes::PLP(mode) => mode,
        Opcodes::ROL(mode) => mode,
        Opcodes::ROR(mode) => mode,
        Opcodes::RTI(mode) => mode,
        Opcodes::RTS(mode) => mode,
        Opcodes::SBC(mode) => mode,
        Opcodes::SEC(mode) => mode,
        Opcodes::SED(mode) => mode,
        Opcodes::SEI(mode) => mode,
        Opcodes::STA(mode) => mode,
        Opcodes::STX(mode) => mode,
        Opcodes::STY(mode) => mode,
        Opcodes::TAX(mode) => mode,
        Opcodes::TAY(mode) => mode,
        Opcodes::TSX(mode) => mode,
        Opcodes::TXA(mode) => mode,
        Opcodes::TXS(mode) => mode,
        Opcodes::TYA(mode) => mode,
    }
}

/// The number of bytes that an instruction in addressing mode `mode` takes:
/// the opcode and its operand bytes.
pub open spec fn length(mode: MemoryMode) -> int {
    match mode {
        MemoryMode::Implicit | MemoryMode::Acc => 1,
        MemoryMode::Immediate
        | MemoryMode::ZeroPage
        | MemoryMode::ZeroPageX
        | MemoryMode::ZeroPageY
        | MemoryMode::Relative
        | MemoryMode::IndirectX
        | MemoryMode::IndirectY => 2,
        MemoryMode::Absolute
        | MemoryMode::AbsoluteX
        | MemoryMode::AbsoluteY
        | MemoryMode::Indirect => 3,
    }
}

/// Storing the flags in a status byte and loading them back restores `C`,
/// `Z`, `I`, `D`, `V` and `N`, whatever the flags were before the load. `B`
/// is not carried: it keeps the value it had before the load.
pub proof fn lemma_status_round_trip(cpu: CPU, before: CPU)
    ensures
        0 <= status_byte(cpu) < 256,
        (status_byte(cpu) / 32) % 2 == 1,
        with_status(before, status_byte(cpu) as u8) == (CPU {
            C: cpu.C,
            Z: cpu.Z,
            I: cpu.I,
            D: cpu.D,
            V: cpu.V,
            N: cpu.N,
            ..before
        }),
{
}

/// A byte that was pushed is the byte that the next pull returns, and the
/// pull restores the stack pointer; this holds wherever the stack cell is
/// not protected from writes.
pub proof fn lemma_push_pull(machine: Machine, data: u8)
    requires
        addressable(machine.memory),
        !machine.memory.protected(STACK_BASE + machine.cpu.S),
    ensures
        machine.push(data).top() == data,
        machine.push(data).pull().cpu == machine.cpu,
{
    machine.memory.lemma_access_keeps_wf(
        crate::memory::hooks::MemoryOperation::Write,
        STACK_BASE + machine.cpu.S,
        data,
    );
}

/// A byte that decodes encodes back to itself, so no two bytes decode to
/// the same opcode; and what it decodes to is a supported instruction.
pub proof fn lemma_decode_then_encode(value: u8)
    ensures
        decode(value) matches Some(opcode) ==> encode(opcode) == value && supported(opcode),
{
    // By cases on the byte.
    match value {
        0xA9 => {},
        0xA5 => {},
        0xB5 => {},
        0xAD => {},
        0xBD => {},
        0xB9 => {},
        0xA1 => {},
        0xB1 => {},
        0xA2 => {},
        0xA6 => {},
        0xB6 => {},
        0xAE => {},
        0xBE => {},
        0xA0 => {},
        0xA4 => {},
        0xB4 => {},
        0xAC => {},
        0xBC => {},
        0x85 => {},
        0x95 => {},
        0x8D => {},
        0x9D => {},
        0x99 => {},
        0x81 => {},
        0x91 => {},
        0x86 => {},
        0x96 => {},
        0x8E => {},
        0x84 => {},
        0x94 => {},
        0x8C => {},
        0xAA => {},
        0xA8 => {},
        0x8A => {},
        0x98 => {},
        0xBA => {},
        0x9A => {},
        0x48 => {},
        0x08 => {},
        0x68 => {},
        0x28 => {},
        0x29 => {},
        0x25 => {},
        0x35 => {},
        0x2D => {},
        0x3D => {},
        0x39 => {},
        0x21 => {},
        0x31 => {},
        0x49 => {},
        0x45 => {},
        0x55 => {},
        0x4D => {},
        0x5D => {},
        0x59 => {},
        0x41 => {},
        0x51 => {},
        0x09 => {},
        0x05 => {},
        0x15 => {},
        0x0D => {},
        0x1D => {},
        0x19 => {},
        0x01 => {},
        0x11 => {},
        0x24 => {},
        0x2C => {},
        0x69 => {},
        0x65 => {},
        0x75 => {},
        0x6D => {},
        0x7D => {},
        0x79 => {},
        0x61 => {},
        0x71 => {},
        0xE9 => {},
        0xE5 => {},
        0xF5 => {},
        0xED => {},
        0xFD => {},
        0xF9 => {},
        0xE1 => {},
        0xF1 => {},
        0xC9 => {},
        0xC5 => {},
        0xD5 => {},
        0xCD => {},
        0xDD => {},
        0xD9 => {},
        0xC1 => {},
        0xD1 => {},
        0xE0 => {},
        0xE4 => {},
        0xEC => {},
        0xC0 => {},
        0xC4 => {},
        0xCC => {},
        0xE6 => {},
        0xF6 => {},
        0xEE => {},
        0xFE => {},
        0xE8 => {},
        0xC8 => {},
        0xC6 => {},
        0xD6 => {},
        0xCE => {},
        0xDE => {},
        0xCA => {},
        0x88 => {},
        0x0A => {},
        0x06 => {},
        0x16 => {},
        0x0E => {},
        0x1E => {},
        0x4A => {},
        0x46 => {},
        0x56 => {},
        0x4E => {},
        0x5E => {},
        0x2A => {},
        0x26 => {},
        0x36 => {},
        0x2E => {},
        0x3E => {},
        0x6A => {},
        0x66 => {},
        0x76 => {},
        0x6E => {},
        0x7E => {},
        0x4C => {},
        0x6C => {},
        0x20 => {},
        0x60 => {},
        0xB0 => {},
        0x90 => {},
        0xF0 => {},
        0xD0 => {},
        0x30 => {},
        0x10 => {},
        0x70 => {},
        0x50 => {},
        0x38 => {},
        0x18 => {},
        0x78 => {},
        0x58 => {},
        0xF8 => {},
        0xD8 => {},
        0xB8 => {},
        0x00 => {},
        0xEA => {},
        0x40 => {},
        _ => {},
    }
}

/// Every supported instruction has a byte, and that byte decodes to it.
pub proof fn lemma_encode_then_decode(opcode: Opcodes)
    requires
        supported(opcode),
    ensures
        0 <= encode(opcode) < 256,
        decode(encode(opcode) as u8) == Some(opcode),
{
    // By cases on the mnemonic.
    match opcode {
        Opcodes::ADC(_) => {},
        Opcodes::AND(_) => {},
        Opcodes::ASL(_) => {},
        Opcodes::BCC(_) => {},
        Opcodes::BCS(_) => {},
        Opcodes::BEQ(_) => {},
        Opcodes::BIT(_) => {},
        Opcodes::BMI(_) => {},
        Opcodes::BNE(_) => {},
        Opcodes::BPL(_) => {},
        Opcodes::BRK(_) => {},
        Opcodes::BVC(_) => {},
        Opcodes::BVS(_) => {},
        Opcodes::CLC(_) => {},
        Opcodes::CLD(_) => {},
        Opcodes::CLI(_) => {},
        Opcodes::CLV(_) => {},
        Opcodes::CMP(_) => {},
        Opcodes::CPX(_) => {},
        Opcodes::CPY(_) => {},
        Opcodes::DEC(_) => {},
        Opcodes::DEX(_) => {},
        Opcodes::DEY(_) => {},
        Opcodes::EOR(_) => {},
        Opcodes::INC(_) => {},
        Opcodes::INX(_) => {},
        Opcodes::INY(_) => {},
        Opcodes::JMP(_) => {},
        Opcodes::JSR(_) => {},
        Opcodes::LDA(_) => {},
        Opcodes::LDX(_) => {},
        Opcodes::LDY(_) => {},
        Opcodes::LSR(_) => {},
        Opcodes::NOP(_) => {},
        Opcodes::ORA(_) => {},
        Opcodes::PHA(_) => {},
        Opcodes::PHP(_) => {},
        Opcodes::PLA(_) => {},
        Opcodes::PLP(_) => {},
        Opcodes::ROL(_) => {},
        Opcodes::ROR(_) => {},
        Opcodes::RTI(_) => {},
        Opcodes::RTS(_) => {},
        Opcodes::SBC(_) => {},
        Opcodes::SEC(_) => {},
        Opcodes::SED(_) => {},
        Opcodes::SEI(_) => {},
        Opcodes::STA(_) => {},
        Opcodes::STX(_) => {},
        Opcodes::STY(_) => {},
        Opcodes::TAX(_) => {},
        Opcodes::TAY(_) => {},
        Opcodes::TSX(_) => {},
        Opcodes::TXA(_) => {},
        Opcodes::TXS(_) => {},
        Opcodes::TYA(_) => {},
    }
}

impl CPU {
    /// A processor with every register and every flag cleared.
    pub fn new() -> (r: Self)
        ensures
            r == (CPU {
                PC: 0,
                A: 0,
                X: 0,
                Y: 0,
                S: 0,
                N: false,
                V: false,
                B: false,
                D: false,
                I: false,
                Z: false,
                C: false,
                executed_opcodes: 0,
            }),
    {
        CPU {
            PC: 0,
            A: 0,
            X: 0,
            Y: 0,
            S: 0,
            N: false,
            V: false,
            B: false,
            D: false,
            I: false,
            Z: false,
            C: false,
            executed_opcodes: 0,
        }
    }

    /// The accumulator.
    pub fn get_a(&self) -> (r: u8)
        ensures
            r == self.A,
    {
        self.A
    }

    /// Register X.
    pub fn get_x(&self) -> (r: u8)
        ensures
            r == self.X,
    {
        self.X
    }

    /// Register Y.
    pub fn get_y(&self) -> (r: u8)
        ensures
            r == self.Y,
    {
        self.Y
    }

    /// The stack pointer.
    pub fn get_s(&self) -> (r: u8)
        ensures
            r == self.S,
    {
        self.S
    }

    /// The program counter.
    pub fn get_pc(&self) -> (r: u16)
        ensures
            r == self.PC,
    {
        self.PC
    }

    /// Sets the accumulator.
    pub fn store_a(&mut self, value: u8)
        ensures
            *final(self) == (CPU { A: value, ..*old(self) }),
    {
        self.A = value;
    }

    /// Sets register X.
    pub fn store_x(&mut self, value: u8)
        ensures
            *final(self) == (CPU { X: value, ..*old(self) }),
    {
        self.X = value;
    }

    /// Sets register Y.
    pub fn store_y(&mut self, value: u8)
        ensures
            *final(self) == (CPU { Y: value, ..*old(self) }),
    {
        self.Y = value;
    }

    /// Sets the stack pointer.
    pub fn store_s(&mut self, value: u8)
        ensures
            *final(self) == (CPU { S: value, ..*old(self) }),
    {
        self.S = value;
    }

    /// Sets the program counter.
    pub fn store_pc(&mut self, value: u16)
        ensures
            *final(self) == (CPU { PC: value, ..*old(self) }),
    {
        self.PC = value;
    }

    /// Sets `Z` and `N` from `result`.
    pub fn set_zn(&mut self, result: u8)
        ensures
            *final(self) == with_zn(*old(self), result),
    {
        self.Z = result == 0;
        self.N = result >= 0x80;
    }

    /// Moves the program counter on by `n` bytes, modulo 2^16.
    pub fn increment_pc(&mut self, n: u16)
        ensures
            *final(self) == (CPU { PC: wrap16(old(self).PC + n) as u16, ..*old(self) }),
    {
        self.PC = (Wrapped::from(self.PC) + Wrapped::from(n)).to_u16();
    }

    /// Moves the program counter by a signed offset, modulo 2^16.
    pub fn offset_pc(&mut self, offset: i8)
        ensures
            *final(self) == (CPU { PC: wrap16(old(self).PC + offset) as u16, ..*old(self) }),
    {
        self.PC = (Wrapped::from(self.PC) + offset as isize).to_u16();
    }

    /// The address one past the program counter, modulo 2^16.
    pub fn next_pc(&self) -> (r: usize)
        ensures
            r == wrap16(self.PC + 1),
    {
        (Wrapped::from(self.PC) + 1).to_u16() as usize
    }

    /// Pushes `data`: writes it at 0x0100 + S, then lets S wrap down by one.
    pub fn push_stack(&mut self, data: u8, memory: &mut MEM)
        requires
            addressable(old(memory)@),
        ensures
            addressable(final(memory)@),
            (Machine { cpu: *final(self), memory: final(memory)@ }) == (Machine {
                cpu: *old(self),
                memory: old(memory)@,
            }).push(data),
    {
        proof {
            memory@.lemma_access_keeps_wf(
                crate::memory::hooks::MemoryOperation::Write,
                STACK_BASE + self.S,
                data,
            );
        }
        memory.write(0x0100 + self.S as usize, data);
        self.S = (Wrapped::from(self.S) - 1).to_u8();
    }

    /// Pulls a byte: lets S wrap up by one, then reads at 0x0100 + S.
    pub fn pull_stack(&mut self, memory: &mut MEM) -> (val: u8)
        requires
            addressable(old(memory)@),
        ensures
            addressable(final(memory)@),
            val == (Machine { cpu: *old(self), memory: old(memory)@ }).top(),
            (Machine { cpu: *final(self), memory: final(memory)@ }) == (Machine {
                cpu: *old(self),
                memory: old(memory)@,
            }).pull(),
    {
        self.S = (Wrapped::from(self.S) + 1).to_u8();
        let memory_address = 0x0100 + self.S as usize;
        proof {
            memory@.lemma_read_keeps_wf(memory_address as int, 1);
        }
        memory.read_byte(memory_address)
    }

    /// The status byte `N V 1 B D I Z C`.
    pub fn store_status(&self) -> (status: u8)
        ensures
            status == status_byte(*self),
    {
        let mut status: u8 = 0b_0010_0000;
        if self.C {
            status += 0b_0000_0001;
        }
        if self.Z {
            status += 0b_0000_0010;
        }
        if self.I {
            status += 0b_0000_0100;
        }
        if self.D {
            status += 0b_0000_1000;
        }
        if self.B {
            status += 0b_0001_0000;
        }
        if self.V {
            status += 0b_0100_0000;
        }
        if self.N {
            status += 0b_1000_0000;
        }
        status
    }

    /// Loads the flags from a status byte. Bits 4 and 5 of the byte are
    /// ignored: `B` keeps the value it had.
    pub fn load_status(&mut self, status: u8)
        ensures
            *final(self) == with_status(*old(self), status),
    {
        self.C = status % 2 == 1;
        self.Z = (status / 2) % 2 == 1;
        self.I = (status / 4) % 2 == 1;
        self.D = (status / 8) % 2 == 1;
        self.V = (status / 64) % 2 == 1;
        self.N = (status / 128) % 2 == 1;
    }

    /// Takes a non-maskable interrupt: the program counter is loaded from
    /// the vector at 0xFFFA.
    pub fn nmi(&mut self, memory: &mut MEM)
        requires
            addressable(old(memory)@),
        ensures
            addressable(final(memory)@),
            (Machine { cpu: *final(self), memory: final(memory)@ }) == (Machine {
                cpu: *old(self),
                memory: old(memory)@,
            }).jump_through(NMI_VECTOR as int),
    {
        let vector = memory.read_word(0xFFFA);
        self.PC = vector;
    }

    /// Resets: the program counter is loaded from the vector at 0xFFFC.
    pub fn reset(&mut self, memory: &mut MEM)
        requires
            addressable(old(memory)@),
        ensures
            addressable(final(memory)@),
            (Machine { cpu: *final(self), memory: final(memory)@ }) == (Machine {
                cpu: *old(self),
                memory: old(memory)@,
            }).jump_through(RESET_VECTOR as int),
    {
        let vector = memory.read_word(0xFFFC);
        self.PC = vector;
    }

    /// Takes an interrupt request: the program counter is loaded from the
    /// vector at 0xFFFE.
    pub fn irq_brk(&mut self, memory: &mut MEM)
        requires
            addressable(old(memory)@),
        ensures
            addressable(final(memory)@),
            (Machine { cpu: *final(self), memory: final(memory)@ }) == (Machine {
                cpu: *old(self),
                memory: old(memory)@,
            }).jump_through(IRQ_VECTOR as int),
    {
        let vector = memory.read_word(0xFFFE);
        self.PC = vector;
    }

    /// Brings the processor up after power-on: the stack pointer is 0xFD,
    /// interrupts are disabled, and the program counter is `entry_point`
    /// where one is given, the reset vector otherwise.
    pub fn power_on(&mut self, memory: &mut MEM, entry_point: Option<u16>)
        requires
            addressable(old(memory)@),
        ensures
            addressable(final(memory)@),
            entry_point matches Some(address) ==> final(memory)@ == old(memory)@
                && *final(self) == (CPU {
                PC: address,
                S: POWER_ON_STACK,
                I: true,
                ..*old(self)
            }),
            entry_point.is_none() ==> final(memory)@ == old(memory)@.after_read(
                RESET_VECTOR as int,
                2,
            ) && *final(self) == (CPU {
                PC: old(memory)@.read_value(RESET_VECTOR as int, 2) as u16,
                S: POWER_ON_STACK,
                I: true,
                ..*old(self)
            }),
    {
        match entry_point {
            None => self.reset(memory),
            Some(address) => {
                self.PC = address;
            },
        }
        self.S = POWER_ON_STACK;
        self.I = true;
    }

    /// Decodes an opcode byte. Fails on a byte outside the documented
    /// instruction set.
    pub fn from(&mut self, value: u8) -> (r: Result<Opcodes, ()>)
        ensures
            *final(self) == *old(self),
            r.is_ok() <==> decode(value).is_some(),
            r matches Ok(opcode) ==> decode(value) == Some(opcode) && supported(opcode),
    {
        match value {
            // LOAD/STORE
            0xA9 => Ok(Opcodes::LDA(MemoryMode::Immediate)),
            0xA5 => Ok(Opcodes::LDA(MemoryMode::ZeroPage)),
            0xB5 => Ok(Opcodes::LDA(MemoryMode::ZeroPageX)),
            0xAD => Ok(Opcodes::LDA(MemoryMode::Absolute)),
            0xBD => Ok(Opcodes::LDA(MemoryMode::AbsoluteX)),
            0xB9 => Ok(Opcodes::LDA(MemoryMode::AbsoluteY)),
            0xA1 => Ok(Opcodes::LDA(MemoryMode::IndirectX)),
            0xB1 => Ok(Opcodes::LDA(MemoryMode::IndirectY)),
            0xA2 => Ok(Opcodes::LDX(MemoryMode::Immediate)),
            0xA6 => Ok(Opcodes::LDX(MemoryMode::ZeroPage)),
            0xB6 => Ok(Opcodes::LDX(MemoryMode::ZeroPageY)),
            0xAE => Ok(Opcodes::LDX(MemoryMode::Absolute)),
            0xBE => Ok(Opcodes::LDX(MemoryMode::AbsoluteY)),
            0xA0 => Ok(Opcodes::LDY(MemoryMode::Immediate)),
            0xA4 => Ok(Opcodes::LDY(MemoryMode::ZeroPage)),
            0xB4 => Ok(Opcodes::LDY(MemoryMode::ZeroPageX)),
            0xAC => Ok(Opcodes::LDY(MemoryMode::Absolute)),
            0xBC => Ok(Opcodes::LDY(MemoryMode::AbsoluteX)),
            0x85 => Ok(Opcodes::STA(MemoryMode::ZeroPage)),
            0x95 => Ok(Opcodes::STA(MemoryMode::ZeroPageX)),
            0x8D => Ok(Opcodes::STA(MemoryMode::Absolute)),
            0x9D => Ok(Opcodes::STA(MemoryMode::AbsoluteX)),
            0x99 => Ok(Opcodes::STA(MemoryMode::AbsoluteY)),
            0x81 => Ok(Opcodes::STA(MemoryMode::IndirectX)),
            0x91 => Ok(Opcodes::STA(MemoryMode::IndirectY)),
            0x86 => Ok(Opcodes::STX(MemoryMode::ZeroPage)),
            0x96 => Ok(Opcodes::STX(MemoryMode::ZeroPageY)),
            0x8E => Ok(Opcodes::STX(MemoryMode::Absolute)),
            0x84 => Ok(Opcodes::STY(MemoryMode::ZeroPage)),
            0x94 => Ok(Opcodes::STY(MemoryMode::ZeroPageX)),
            0x8C => Ok(Opcodes::STY(MemoryMode::Absolute)),
            // TRANSFERS
            0xAA => Ok(Opcodes::TAX(MemoryMode::Implicit)),
            0xA8 => Ok(Opcodes::TAY(MemoryMode::Implicit)),
            0x8A => Ok(Opcodes::TXA(MemoryMode::Implicit)),
            0x98 => Ok(Opcodes::TYA(MemoryMode::Implicit)),
            0xBA => Ok(Opcodes::TSX(MemoryMode::Implicit)),
            0x9A => Ok(Opcodes::TXS(MemoryMode::Implicit)),
            // STACK
            0x48 => Ok(Opcodes::PHA(MemoryMode::Implicit)),
            0x08 => Ok(Opcodes::PHP(MemoryMode::Implicit)),
            0x68 => Ok(Opcodes::PLA(MemoryMode::Implicit)),
            0x28 => Ok(Opcodes::PLP(MemoryMode::Implicit)),
            // LOGIC
            0x29 => Ok(Opcodes::AND(MemoryMode::Immediate)),
            0x25 => Ok(Opcodes::AND(MemoryMode::ZeroPage)),
            0x35 => Ok(Opcodes::AND(MemoryMode::ZeroPageX)),
            0x2D => Ok(Opcodes::AND(MemoryMode::Absolute)),
            0x3D => Ok(Opcodes::AND(MemoryMode::AbsoluteX)),
            0x39 => Ok(Opcodes::AND(MemoryMode::AbsoluteY)),
            0x21 => Ok(Opcodes::AND(MemoryMode::IndirectX)),
            0x31 => Ok(Opcodes::AND(MemoryMode::IndirectY)),
            0x49 => Ok(Opcodes::EOR(MemoryMode::Immediate)),
            0x45 => Ok(Opcodes::EOR(MemoryMode::ZeroPage)),
            0x55 => Ok(Opcodes::EOR(MemoryMode::ZeroPageX)),
            0x4D => Ok(Opcodes::EOR(MemoryMode::Absolute)),
            0x5D => Ok(Opcodes::EOR(MemoryMode::AbsoluteX)),
            0x59 => Ok(Opcodes::EOR(MemoryMode::AbsoluteY)),
            0x41 => Ok(Opcodes::EOR(MemoryMode::IndirectX)),
            0x51 => Ok(Opcodes::EOR(MemoryMode::IndirectY)),
            0x09 => Ok(Opcodes::ORA(MemoryMode::Immediate)),
            0x05 => Ok(Opcodes::ORA(MemoryMode::ZeroPage)),
            0x15 => Ok(Opcodes::ORA(MemoryMode::ZeroPageX)),
            0x0D => Ok(Opcodes::ORA(MemoryMode::Absolute)),
            0x1D => Ok(Opcodes::ORA(MemoryMode::AbsoluteX)),
            0x19 => Ok(Opcodes::ORA(MemoryMode::AbsoluteY)),
            0x01 => Ok(Opcodes::ORA(MemoryMode::IndirectX)),
            0x11 => Ok(Opcodes::ORA(MemoryMode::IndirectY)),
            0x24 => Ok(Opcodes::BIT(MemoryMode::ZeroPage)),
            0x2C => Ok(Opcodes::BIT(MemoryMode::Absolute)),
            // ARITHMETIC
            0x69 => Ok(Opcodes::ADC(MemoryMode::Immediate)),
            0x65 => Ok(Opcodes::ADC(MemoryMode::ZeroPage)),
            0x75 => Ok(Opcodes::ADC(MemoryMode::ZeroPageX)),
            0x6D => Ok(Opcodes::ADC(MemoryMode::Absolute)),
            0x7D => Ok(Opcodes::ADC(MemoryMode::AbsoluteX)),
            0x79 => Ok(Opcodes::ADC(MemoryMode::AbsoluteY)),
            0x61 => Ok(Opcodes::ADC(MemoryMode::IndirectX)),
            0x71 => Ok(Opcodes::ADC(MemoryMode::IndirectY)),
            0xE9 => Ok(Opcodes::SBC(MemoryMode::Immediate)),
            0xE5 => Ok(Opcodes::SBC(MemoryMode::ZeroPage)),
            0xF5 => Ok(Opcodes::SBC(MemoryMode::ZeroPageX)),
            0xED => Ok(Opcodes::SBC(MemoryMode::Absolute)),
            0xFD => Ok(Opcodes::SBC(MemoryMode::AbsoluteX)),
            0xF9 => Ok(Opcodes::SBC(MemoryMode::AbsoluteY)),
            0xE1 => Ok(Opcodes::SBC(MemoryMode::IndirectX)),
            0xF1 => Ok(Opcodes::SBC(MemoryMode::IndirectY)),
            0xC9 => Ok(Opcodes::CMP(MemoryMode::Immediate)),
            0xC5 => Ok(Opcodes::CMP(MemoryMode::ZeroPage)),
            0xD5 => Ok(Opcodes::CMP(MemoryMode::ZeroPageX)),
            0xCD => Ok(Opcodes::CMP(MemoryMode::Absolute)),
            0xDD => Ok(Opcodes::CMP(MemoryMode::AbsoluteX)),
            0xD9 => Ok(Opcodes::CMP(MemoryMode::AbsoluteY)),
            0xC1 => Ok(Opcodes::CMP(MemoryMode::IndirectX)),
            0xD1 => Ok(Opcodes::CMP(MemoryMode::IndirectY)),
            0xE0 => Ok(Opcodes::CPX(MemoryMode::Immediate)),
            0xE4 => Ok(Opcodes::CPX(MemoryMode::ZeroPage)),
            0xEC => Ok(Opcodes::CPX(MemoryMode::Absolute)),
            0xC0 => Ok(Opcodes::CPY(MemoryMode::Immediate)),
            0xC4 => Ok(Opcodes::CPY(MemoryMode::ZeroPage)),
            0xCC => Ok(Opcodes::CPY(MemoryMode::Absolute)),
            // INC/DEC
            0xE6 => Ok(Opcodes::INC(MemoryMode::ZeroPage)),
            0xF6 => Ok(Opcodes::INC(MemoryMode::ZeroPageX)),
            0xEE => Ok(Opcodes::INC(MemoryMode::Absolute)),
            0xFE => Ok(Opcodes::INC(MemoryMode::AbsoluteX)),
            0xE8 => Ok(Opcodes::INX(MemoryMode::Implicit)),
            0xC8 => Ok(Opcodes::INY(MemoryMode::Implicit)),
            0xC6 => Ok(Opcodes::DEC(MemoryMode::ZeroPage)),
            0xD6 => Ok(Opcodes::DEC(MemoryMode::ZeroPageX)),
            0xCE => Ok(Opcodes::DEC(MemoryMode::Absolute)),
            0xDE => Ok(Opcodes::DEC(MemoryMode::AbsoluteX)),
            0xCA => Ok(Opcodes::DEX(MemoryMode::Implicit)),
            0x88 => Ok(Opcodes::DEY(MemoryMode::Implicit)),
            // SHIFTS
            0x0A => Ok(Opcodes::ASL(MemoryMode::Acc)),
            0x06 => Ok(Opcodes::ASL(MemoryMode::ZeroPage)),
            0x16 => Ok(Opcodes::ASL(MemoryMode::ZeroPageX)),
            0x0E => Ok(Opcodes::ASL(MemoryMode::Absolute)),
            0x1E => Ok(Opcodes::ASL(MemoryMode::AbsoluteX)),
            0x4A => Ok(Opcodes::LSR(MemoryMode::Acc)),
            0x46 => Ok(Opcodes::LSR(MemoryMode::ZeroPage)),
            0x56 => Ok(Opcodes::LSR(MemoryMode::ZeroPageX)),
            0x4E => Ok(Opcodes::LSR(MemoryMode::Absolute)),
            0x5E => Ok(Opcodes::LSR(MemoryMode::AbsoluteX)),
            0x2A => Ok(Opcodes::ROL(MemoryMode::Acc)),
            0x26 => Ok(Opcodes::ROL(MemoryMode::ZeroPage)),
            0x36 => Ok(Opcodes::ROL(MemoryMode::ZeroPageX)),
            0x2E => Ok(Opcodes::ROL(MemoryMode::Absolute)),
            0x3E => Ok(Opcodes::ROL(MemoryMode::AbsoluteX)),
            0x6A => Ok(Opcodes::ROR(MemoryMode::Acc)),
            0x66 => Ok(Opcodes::ROR(MemoryMode::ZeroPage)),
            0x76 => Ok(Opcodes::ROR(MemoryMode::ZeroPageX)),
            0x6E => Ok(Opcodes::ROR(MemoryMode::Absolute)),
            0x7E => Ok(Opcodes::ROR(MemoryMode::AbsoluteX)),
            // JUMPS
            0x4C => Ok(Opcodes::JMP(MemoryMode::Absolute)),
            0x6C => Ok(Opcodes::JMP(MemoryMode::Indirect)),
            0x20 => Ok(Opcodes::JSR(MemoryMode::Absolute)),
            0x60 => Ok(Opcodes::RTS(MemoryMode::Implicit)),
            // BRANCHES
            0xB0 => Ok(Opcodes::BCS(MemoryMode::Relative)),
            0x90 => Ok(Opcodes::BCC(MemoryMode::Relative)),
            0xF0 => Ok(Opcodes::BEQ(MemoryMode::Relative)),
            0xD0 => Ok(Opcodes::BNE(MemoryMode::Relative)),
            0x30 => Ok(Opcodes::BMI(MemoryMode::Relative)),
            0x10 => Ok(Opcodes::BPL(MemoryMode::Relative)),
            0x70 => Ok(Opcodes::BVS(MemoryMode::Relative)),
            0x50 => Ok(Opcodes::BVC(MemoryMode::Relative)),
            // STATUS
            0x38 => Ok(Opcodes::SEC(MemoryMode::Implicit)),
            0x18 => Ok(Opcodes::CLC(MemoryMode::Implicit)),
            0x78 => Ok(Opcodes::SEI(MemoryMode::Implicit)),
            0x58 => Ok(Opcodes::CLI(MemoryMode::Implicit)),
            0xF8 => Ok(Opcodes::SED(MemoryMode::Implicit)),
            0xD8 => Ok(Opcodes::CLD(MemoryMode::Implicit)),
            0xB8 => Ok(Opcodes::CLV(MemoryMode::Implicit)),
            // SYSTEM
            0x00 => Ok(Opcodes::BRK(MemoryMode::Implicit)),
            0xEA => Ok(Opcodes::NOP(MemoryMode::Implicit)),
            0x40 => Ok(Opcodes::RTI(MemoryMode::Implicit)),
            _ => Err(()),
        }
    }
}

} // verus!
