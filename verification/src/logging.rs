//! The trace log: one line of ASCII text for each executed instruction,
//! with the address, the bytes and the disassembly of the instruction and
//! the registers as they were before it ran.

use vstd::prelude::*;
use vstd::string::StringSliceAdditionalSpecFns;

use vstd::utf8::encode_utf8;

use crate::memory::MEM;
use crate::processor::addressable;
use crate::processor::decode;
use crate::processor::instruction::fetched;
use crate::processor::instruction::opcode_at;
use crate::processor::instruction::Instruction;
use crate::processor::mode_of;
use crate::processor::status_byte;
use crate::processor::wrap16;
use crate::processor::wrap8;
use crate::processor::MemoryMode;
use crate::processor::Opcodes;
use crate::processor::CPU;
use crate::types::Wrapped;

verus! {

/// The width that the disassembly is padded to.
pub const DISASSEMBLY_WIDTH: usize = 32;

/// Writes the trace log.
#[derive(Debug, Clone, Copy)]
pub struct Logger;

/// The ASCII code of the hexadecimal digit for `n`, in upper case.
pub open spec fn hex_digit(n: int) -> u8 {
    if n < 10 {
        (0x30 + n) as u8
    } else {
        (0x41 + n - 10) as u8
    }
}

/// The two hexadecimal digits of a byte.
pub open spec fn hex2(value: int) -> Seq<u8> {
    seq![hex_digit(value / 16), hex_digit(value % 16)]
}

/// The four hexadecimal digits of a 16-bit number.
pub open spec fn hex4(value: int) -> Seq<u8> {
    hex2(value / 256) + hex2(value % 256)
}

/// `n` spaces.
pub open spec fn spaces(n: nat) -> Seq<u8> {
    Seq::new(n, |i: int| 0x20u8)
}

/// `text` with spaces added behind it up to `width` characters; a longer
/// text is left as it is.
pub open spec fn padded(text: Seq<u8>, width: nat) -> Seq<u8> {
    if text.len() >= width {
        text
    } else {
        text + spaces((width - text.len()) as nat)
    }
}

/// The two digits of an operand byte and `gap` spaces behind them, or as
/// many spaces where the instruction has no such byte.
pub open spec fn operand_column(operand: Option<u8>, gap: nat) -> Seq<u8> {
    match operand {
        Some(value) => hex2(value as int) + spaces(gap),
        None => spaces(2 + gap),
    }
}

/// A register's name, a colon, its two digits and a space.
pub open spec fn register_column(name: Seq<u8>, value: int) -> Seq<u8> {
    name + seq![0x3Au8] + hex2(value) + seq![0x20u8]
}

/// One line of the trace log: the program counter, the opcode byte, the
/// operand bytes, the disassembly padded to 32 characters, and the
/// registers A, X, Y, P and SP.
pub open spec fn trace_line(
    cpu: CPU,
    instruction: u8,
    operand1: Option<u8>,
    operand2: Option<u8>,
    decoded_instruction: Seq<u8>,
) -> Seq<u8> {
    hex4(cpu.PC as int) + spaces(2) + hex2(instruction as int) + spaces(1) + operand_column(
        operand1,
        1,
    ) + operand_column(operand2, 2) + padded(decoded_instruction, DISASSEMBLY_WIDTH as nat)
        + register_column(seq![0x41u8], cpu.A as int) + register_column(
        seq![0x58u8],
        cpu.X as int,
    ) + register_column(seq![0x59u8], cpu.Y as int) + register_column(
        seq![0x50u8],
        status_byte(cpu),
    ) + register_column(seq![0x53u8, 0x50u8], cpu.S as int)
}

/// Whether an instruction record holds everything that its addressing
/// mode has: the operand value and the addresses.
pub open spec fn complete(inst: Instruction) -> bool {
    match inst.mode {
        MemoryMode::Implicit | MemoryMode::Acc => true,
        MemoryMode::Immediate => inst.value.is_some(),
        MemoryMode::Relative => inst.memory_address.is_some(),
        MemoryMode::ZeroPage
        | MemoryMode::ZeroPageX
        | MemoryMode::ZeroPageY
        | MemoryMode::Absolute
        | MemoryMode::AbsoluteX
        | MemoryMode::AbsoluteY => inst.value.is_some() && inst.memory_address.is_some()
            && inst.operand1.is_some(),
        MemoryMode::Indirect => inst.memory_address.is_some()
            && inst.memory_indirect_address.is_some(),
        MemoryMode::IndirectX | MemoryMode::IndirectY => inst.value.is_some()
            && inst.memory_address.is_some() && inst.memory_indirect_address.is_some(),
    }
}

/// The 16-bit number that the operand bytes of an instruction hold.
pub open spec fn operand_word(inst: Instruction) -> int {
    inst.operand1.unwrap() + 256 * (match inst.operand2 {
        Some(high) => high as int,
        None => 0,
    })
}

/// The text " = " and the two digits of the operand value.
pub open spec fn equals_value(inst: Instruction) -> Seq<u8> {
    seq![0x20u8, 0x3D, 0x20] + hex2(inst.value.unwrap() as int)
}

/// The operand of an instruction as the assembler writes it, with the
/// addresses it resolves to and the value found there.
pub open spec fn operand_text(inst: Instruction, cpu: CPU) -> Seq<u8> {
    let address = inst.memory_address.unwrap() as int;
    let base = inst.memory_indirect_address.unwrap() as int;
    match inst.mode {
        MemoryMode::Implicit => Seq::empty(),
        // " A"
        MemoryMode::Acc => seq![0x20u8, 0x41],
        // " #$vv"
        MemoryMode::Immediate => seq![0x20u8, 0x23, 0x24] + hex2(inst.value.unwrap() as int),
        // " $aa = vv"
        MemoryMode::ZeroPage => seq![0x20u8, 0x24] + hex2(inst.operand1.unwrap() as int)
            + equals_value(inst),
        // " $aa,X @ ee = vv"
        MemoryMode::ZeroPageX => seq![0x20u8, 0x24] + hex2(inst.operand1.unwrap() as int) + seq![
            0x2Cu8,
            0x58,
            0x20,
            0x40,
            0x20,
        ] + hex2(address % 256) + equals_value(inst),
        // " $aa,Y @ ee = vv"
        MemoryMode::ZeroPageY => seq![0x20u8, 0x24] + hex2(inst.operand1.unwrap() as int) + seq![
            0x2Cu8,
            0x59,
            0x20,
            0x40,
            0x20,
        ] + hex2(address % 256) + equals_value(inst),
        // " $aaaa"
        MemoryMode::Relative => seq![0x20u8, 0x24] + hex4(address),
        // " $aaaa = vv"
        MemoryMode::Absolute => seq![0x20u8, 0x24] + hex4(operand_word(inst)) + equals_value(inst),
        // " $aaaa,X @ eeee = vv"
        MemoryMode::AbsoluteX => seq![0x20u8, 0x24] + hex4(operand_word(inst)) + seq![
            0x2Cu8,
            0x58,
            0x20,
            0x40,
            0x20,
        ] + hex4(address) + equals_value(inst),
        // " $aaaa,Y @ eeee = vv"
        MemoryMode::AbsoluteY => seq![0x20u8, 0x24] + hex4(operand_word(inst)) + seq![
            0x2Cu8,
            0x59,
            0x20,
            0x40,
            0x20,
        ] + hex4(address) + equals_value(inst),
        // " ($bbbb) = aaaa"
        MemoryMode::Indirect => seq![0x20u8, 0x28, 0x24] + hex4(base) + seq![
            0x29u8,
            0x20,
            0x3D,
            0x20,
        ] + hex4(address),
        // " ($bb,X) @ pp = aaaa = vv"
        MemoryMode::IndirectX => seq![0x20u8, 0x28, 0x24] + hex2(base % 256) + seq![
            0x2Cu8,
            0x58,
            0x29,
            0x20,
            0x40,
            0x20,
        ] + hex2(wrap8(base % 256 + cpu.X)) + seq![0x20u8, 0x3D, 0x20] + hex4(address) + equals_value(
            inst,
        ),
        // " ($bb),Y = pppp @ aaaa = vv"
        MemoryMode::IndirectY => seq![0x20u8, 0x28, 0x24] + hex2(base % 256) + seq![
            0x29u8,
            0x2C,
            0x59,
            0x20,
            0x3D,
            0x20,
        ] + hex4(wrap16(address - cpu.Y)) + seq![0x20u8, 0x40, 0x20] + hex4(address)
            + equals_value(inst),
    }
}

/// The disassembly of an instruction: its mnemonic and its operand.
pub open spec fn disassembly(inst: Instruction, cpu: CPU, name: Seq<u8>) -> Seq<u8> {
    name + operand_text(inst, cpu)
}

/// The ASCII code of the hexadecimal digit for `n`.
fn digit(n: u8) -> (r: u8)
    requires
        n < 16,
    ensures
        r == hex_digit(n as int),
{
    if n < 10 {
        0x30 + n
    } else {
        0x41 + n - 10
    }
}

/// Appends `text` to `out`.
fn push_text(out: &mut Vec<u8>, text: &[u8])
    ensures
        final(out)@ == old(out)@ + text@,
{
    let mut i: usize = 0;
    while i < text.len()
        invariant
            i <= text@.len(),
            out@ == old(out)@ + text@.subrange(0, i as int),
        decreases text@.len() - i,
    {
        out.push(text[i]);
        assert(out@ =~= old(out)@ + text@.subrange(0, i + 1));
        i += 1;
    }
    assert(text@.subrange(0, text@.len() as int) =~= text@);
}

/// Appends `count` spaces to `out`.
fn push_spaces(out: &mut Vec<u8>, count: usize)
    ensures
        final(out)@ == old(out)@ + spaces(count as nat),
{
    let mut i: usize = 0;
    while i < count
        invariant
            i <= count,
            out@ == old(out)@ + spaces(i as nat),
        decreases count - i,
    {
        out.push(0x20);
        assert(out@ =~= old(out)@ + spaces((i + 1) as nat));
        i += 1;
    }
}

/// Appends the two hexadecimal digits of `value` to `out`.
fn push_hex2(out: &mut Vec<u8>, value: u8)
    ensures
        final(out)@ == old(out)@ + hex2(value as int),
{
    out.push(digit(value / 16));
    out.push(digit(value % 16));
    assert(out@ =~= old(out)@ + hex2(value as int));
}

/// Appends the four hexadecimal digits of `value` to `out`.
fn push_hex4(out: &mut Vec<u8>, value: u16)
    ensures
        final(out)@ == old(out)@ + hex4(value as int),
{
    push_hex2(out, (value / 256) as u8);
    push_hex2(out, (value % 256) as u8);
    assert(out@ =~= old(out)@ + hex4(value as int));
}

/// Appends an operand byte and `gap` spaces to `out`, or as many spaces
/// where there is no such byte.
fn push_operand(out: &mut Vec<u8>, operand: Option<u8>, gap: usize)
    requires
        gap <= 2,
    ensures
        final(out)@ == old(out)@ + operand_column(operand, gap as nat),
{
    match operand {
        Some(value) => {
            push_hex2(out, value);
            push_spaces(out, gap);
        },
        None => {
            push_spaces(out, 2 + gap);
        },
    }
    assert(out@ =~= old(out)@ + operand_column(operand, gap as nat));
}

/// Appends a register's name, a colon, its two digits and a space to `out`.
fn push_register(out: &mut Vec<u8>, name: &[u8], value: u8)
    ensures
        final(out)@ == old(out)@ + register_column(name@, value as int),
{
    push_text(out, name);
    out.push(0x3A);
    push_hex2(out, value);
    out.push(0x20);
    assert(out@ =~= old(out)@ + register_column(name@, value as int));
}

/// Appends " = " and the two digits of `value` to `out`.
fn push_equals_value(out: &mut Vec<u8>, value: u8)
    ensures
        final(out)@ == old(out)@ + (seq![0x20u8, 0x3D, 0x20] + hex2(value as int)),
{
    let text: [u8; 3] = [0x20, 0x3D, 0x20];
    push_text(out, text.as_slice());
    push_hex2(out, value);
    assert(out@ =~= old(out)@ + (seq![0x20u8, 0x3D, 0x20] + hex2(value as int)));
}

/// Appends the text of an indexed operand to `out`: `text` and the
/// effective address, in two digits or in four.
fn push_indexed(out: &mut Vec<u8>, text: &[u8], address: u16, wide: bool)
    requires
        wide || address < 256,
    ensures
        final(out)@ == old(out)@ + (text@ + (if wide {
            hex4(address as int)
        } else {
            hex2(address as int)
        })),
{
    push_text(out, text);
    if wide {
        push_hex4(out, address);
    } else {
        push_hex2(out, address as u8);
    }
    assert(out@ =~= old(out)@ + (text@ + (if wide {
        hex4(address as int)
    } else {
        hex2(address as int)
    })));
}

impl Instruction {
    /// The operand of an instruction without address, or of a branch.
    fn plain_operand_text(&self, cpu: &CPU) -> (text: Vec<u8>)
        requires
            complete(*self),
            self.mode == MemoryMode::Implicit
                || self.mode == MemoryMode::Acc
                || self.mode == MemoryMode::Immediate
                || self.mode == MemoryMode::Relative,
        ensures
            text@ == operand_text(*self, *cpu),
    {
        let mut text: Vec<u8> = Vec::new();
        let dollar: [u8; 2] = [0x20, 0x24];
        match self.mode {
            MemoryMode::Implicit => {},
            MemoryMode::Acc => {
                let a: [u8; 2] = [0x20, 0x41];
                push_text(&mut text, a.as_slice());
            },
            MemoryMode::Immediate => {
                let hash: [u8; 3] = [0x20, 0x23, 0x24];
                push_text(&mut text, hash.as_slice());
                push_hex2(&mut text, self.value.unwrap());
            },
            MemoryMode::Relative => {
                push_indexed(&mut text, dollar.as_slice(), self.memory_address.unwrap(), true);
            },
            _ => {},
        }
        assert(text@ =~= operand_text(*self, *cpu));
        text
    }

    /// The operand of an instruction that addresses the zero page.
    fn zero_page_operand_text(&self, cpu: &CPU) -> (text: Vec<u8>)
        requires
            complete(*self),
            self.mode == MemoryMode::ZeroPage
                || self.mode == MemoryMode::ZeroPageX
                || self.mode == MemoryMode::ZeroPageY,
        ensures
            text@ == operand_text(*self, *cpu),
    {
        let mut text: Vec<u8> = Vec::new();
        let word: u16 = self.operand1.unwrap() as u16;
        let comma_x: [u8; 5] = [0x2C, 0x58, 0x20, 0x40, 0x20];
        let comma_y: [u8; 5] = [0x2C, 0x59, 0x20, 0x40, 0x20];
        let dollar: [u8; 2] = [0x20, 0x24];
        match self.mode {
            MemoryMode::ZeroPage => {
                push_indexed(&mut text, dollar.as_slice(), word, false);
                push_equals_value(&mut text, self.value.unwrap());
            },
            MemoryMode::ZeroPageX => {
                push_indexed(&mut text, dollar.as_slice(), word, false);
                push_indexed(
                    &mut text,
                    comma_x.as_slice(),
                    self.memory_address.unwrap() % 256,
                    false,
                );
                push_equals_value(&mut text, self.value.unwrap());
            },
            MemoryMode::ZeroPageY => {
                push_indexed(&mut text, dollar.as_slice(), word, false);
                push_indexed(
                    &mut text,
                    comma_y.as_slice(),
                    self.memory_address.unwrap() % 256,
                    false,
                );
                push_equals_value(&mut text, self.value.unwrap());
            },
            _ => {},
        }
        assert(text@ =~= operand_text(*self, *cpu));
        text
    }

    /// The operand of an instruction that holds a 16-bit address.
    fn absolute_operand_text(&self, cpu: &CPU) -> (text: Vec<u8>)
        requires
            complete(*self),
            self.mode == MemoryMode::Absolute
                || self.mode == MemoryMode::AbsoluteX
                || self.mode == MemoryMode::AbsoluteY,
        ensures
            text@ == operand_text(*self, *cpu),
    {
        let mut text: Vec<u8> = Vec::new();
        let word: u16 = match self.operand1 {
            Some(low) => low as u16 + 256 * (match self.operand2 {
                Some(high) => high as u16,
                None => 0,
            }),
            None => 0,
        };
        let comma_x: [u8; 5] = [0x2C, 0x58, 0x20, 0x40, 0x20];
        let comma_y: [u8; 5] = [0x2C, 0x59, 0x20, 0x40, 0x20];
        let dollar: [u8; 2] = [0x20, 0x24];
        match self.mode {
            MemoryMode::Absolute => {
                push_indexed(&mut text, dollar.as_slice(), word, true);
                push_equals_value(&mut text, self.value.unwrap());
            },
            MemoryMode::AbsoluteX => {
                push_indexed(&mut text, dollar.as_slice(), word, true);
                push_indexed(&mut text, comma_x.as_slice(), self.memory_address.unwrap(), true);
                push_equals_value(&mut text, self.value.unwrap());
            },
            MemoryMode::AbsoluteY => {
                push_indexed(&mut text, dollar.as_slice(), word, true);
                push_indexed(&mut text, comma_y.as_slice(), self.memory_address.unwrap(), true);
                push_equals_value(&mut text, self.value.unwrap());
            },
            _ => {},
        }
        assert(text@ =~= operand_text(*self, *cpu));
        text
    }

    /// The operand of an indirect jump.
    fn indirect_operand_text(&self, cpu: &CPU) -> (text: Vec<u8>)
        requires
            complete(*self),
            self.mode == MemoryMode::Indirect,
        ensures
            text@ == operand_text(*self, *cpu),
    {
        let mut text: Vec<u8> = Vec::new();
        let open: [u8; 3] = [0x20, 0x28, 0x24];
        let close: [u8; 4] = [0x29, 0x20, 0x3D, 0x20];
        push_indexed(
            &mut text,
            open.as_slice(),
            self.memory_indirect_address.unwrap(),
            true,
        );
        push_indexed(&mut text, close.as_slice(), self.memory_address.unwrap(), true);
        assert(text@ =~= operand_text(*self, *cpu));
        text
    }

    /// The operand of an instruction that goes through a pointer at the operand plus X.
    fn indirect_x_operand_text(&self, cpu: &CPU) -> (text: Vec<u8>)
        requires
            complete(*self),
            self.mode == MemoryMode::IndirectX,
        ensures
            text@ == operand_text(*self, *cpu),
    {
        let mut text: Vec<u8> = Vec::new();
        let open: [u8; 3] = [0x20, 0x28, 0x24];
        let close: [u8; 6] = [0x2C, 0x58, 0x29, 0x20, 0x40, 0x20];
        let equals: [u8; 3] = [0x20, 0x3D, 0x20];
        let base = self.memory_indirect_address.unwrap();
        let low = (base % 256) as u8;
        let pointer = (Wrapped::from(low) + Wrapped::from(cpu.get_x())).to_u8();
        push_indexed(&mut text, open.as_slice(), base % 256, false);
        push_indexed(&mut text, close.as_slice(), pointer as u16, false);
        push_indexed(&mut text, equals.as_slice(), self.memory_address.unwrap(), true);
        push_equals_value(&mut text, self.value.unwrap());
        assert(text@ =~= operand_text(*self, *cpu));
        text
    }

    /// The operand of an instruction that goes through a pointer and adds Y.
    fn indirect_y_operand_text(&self, cpu: &CPU) -> (text: Vec<u8>)
        requires
            complete(*self),
            self.mode == MemoryMode::IndirectY,
        ensures
            text@ == operand_text(*self, *cpu),
    {
        let mut text: Vec<u8> = Vec::new();
        let open: [u8; 3] = [0x20, 0x28, 0x24];
        let close: [u8; 6] = [0x29, 0x2C, 0x59, 0x20, 0x3D, 0x20];
        let at: [u8; 3] = [0x20, 0x40, 0x20];
        let base = self.memory_indirect_address.unwrap();
        let address = self.memory_address.unwrap();
        let pointer = (Wrapped::from(address) - Wrapped::from(cpu.get_y())).to_u16();
        push_indexed(&mut text, open.as_slice(), base % 256, false);
        push_indexed(&mut text, close.as_slice(), pointer, true);
        push_indexed(&mut text, at.as_slice(), address, true);
        push_equals_value(&mut text, self.value.unwrap());
        assert(text@ =~= operand_text(*self, *cpu));
        text
    }

    /// The operand of the instruction as the assembler writes it.
    fn operand_text(&self, cpu: &CPU) -> (text: Vec<u8>)
        requires
            complete(*self),
        ensures
            text@ == operand_text(*self, *cpu),
    {
        match self.mode {
            MemoryMode::Implicit
            | MemoryMode::Acc
            | MemoryMode::Immediate
            | MemoryMode::Relative => self.plain_operand_text(cpu),
            MemoryMode::ZeroPage
            | MemoryMode::ZeroPageX
            | MemoryMode::ZeroPageY => self.zero_page_operand_text(cpu),
            MemoryMode::Absolute
            | MemoryMode::AbsoluteX
            | MemoryMode::AbsoluteY => self.absolute_operand_text(cpu),
            MemoryMode::Indirect => self.indirect_operand_text(cpu),
            MemoryMode::IndirectX => self.indirect_x_operand_text(cpu),
            MemoryMode::IndirectY => self.indirect_y_operand_text(cpu),
        }
    }

    /// The line of the trace log for this instruction, `instruction_name`
    /// being its mnemonic and `cpu` the processor before it runs.
    pub fn log(&self, cpu: &CPU, instruction_name: &str) -> (line: Vec<u8>)
        requires
            complete(*self),
        ensures
            line@ == trace_line(
                *cpu,
                self.instruction,
                self.operand1,
                self.operand2,
                disassembly(*self, *cpu, instruction_name.spec_bytes()),
            ),
    {
        let mut decoded: Vec<u8> = Vec::new();
        push_text(&mut decoded, instruction_name.as_bytes());
        let operand = self.operand_text(cpu);
        push_text(&mut decoded, operand.as_slice());
        assert(decoded@ =~= disassembly(*self, *cpu, instruction_name.spec_bytes()));
        Logger::log_cpu_instruction(cpu, self.instruction, self.operand1, self.operand2, decoded)
    }
}

/// The mnemonic of an opcode.
pub open spec fn mnemonic_of(opcode: Opcodes) -> Seq<char> {
    match opcode {
        Opcodes::ADC(_) => "ADC"@,
        Opcodes::AND(_) => "AND"@,
        Opcodes::ASL(_) => "ASL"@,
        Opcodes::BCC(_) => "BCC"@,
        Opcodes::BCS(_) => "BCS"@,
        Opcodes::BEQ(_) => "BEQ"@,
        Opcodes::BIT(_) => "BIT"@,
        Opcodes::BMI(_) => "BMI"@,
        Opcodes::BNE(_) => "BNE"@,
        Opcodes::BPL(_) => "BPL"@,
        Opcodes::BRK(_) => "BRK"@,
        Opcodes::BVC(_) => "BVC"@,
        Opcodes::BVS(_) => "BVS"@,
        Opcodes::CLC(_) => "CLC"@,
        Opcodes::CLD(_) => "CLD"@,
        Opcodes::CLI(_) => "CLI"@,
        Opcodes::CLV(_) => "CLV"@,
        Opcodes::CMP(_) => "CMP"@,
        Opcodes::CPX(_) => "CPX"@,
        Opcodes::CPY(_) => "CPY"@,
        Opcodes::DEC(_) => "DEC"@,
        Opcodes::DEX(_) => "DEX"@,
        Opcodes::DEY(_) => "DEY"@,
        Opcodes::EOR(_) => "EOR"@,
        Opcodes::INC(_) => "INC"@,
        Opcodes::INX(_) => "INX"@,
        Opcodes::INY(_) => "INY"@,
        Opcodes::JMP(_) => "JMP"@,
        Opcodes::JSR(_) => "JSR"@,
        Opcodes::LDA(_) => "LDA"@,
        Opcodes::LDX(_) => "LDX"@,
        Opcodes::LDY(_) => "LDY"@,
        Opcodes::LSR(_) => "LSR"@,
        Opcodes::NOP(_) => "NOP"@,
        Opcodes::ORA(_) => "ORA"@,
        Opcodes::PHA(_) => "PHA"@,
        Opcodes::PHP(_) => "PHP"@,
        Opcodes::PLA(_) => "PLA"@,
        Opcodes::PLP(_) => "PLP"@,
        Opcodes::ROL(_) => "ROL"@,
        Opcodes::ROR(_) => "ROR"@,
        Opcodes::RTI(_) => "RTI"@,
        Opcodes::RTS(_) => "RTS"@,
        Opcodes::SBC(_) => "SBC"@,
        Opcodes::SEC(_) => "SEC"@,
        Opcodes::SED(_) => "SED"@,
        Opcodes::SEI(_) => "SEI"@,
        Opcodes::STA(_) => "STA"@,
        Opcodes::STX(_) => "STX"@,
        Opcodes::STY(_) => "STY"@,
        Opcodes::TAX(_) => "TAX"@,
        Opcodes::TAY(_) => "TAY"@,
        Opcodes::TSX(_) => "TSX"@,
        Opcodes::TXA(_) => "TXA"@,
        Opcodes::TXS(_) => "TXS"@,
        Opcodes::TYA(_) => "TYA"@,
    }
}

/// The mnemonic of an opcode.
pub fn mnemonic(opcode: Opcodes) -> (name: &'static str)
    ensures
        name@ == mnemonic_of(opcode),
{
    match opcode {
        Opcodes::ADC(_) => "ADC",
        Opcodes::AND(_) => "AND",
        Opcodes::ASL(_) => "ASL",
        Opcodes::BCC(_) => "BCC",
        Opcodes::BCS(_) => "BCS",
        Opcodes::BEQ(_) => "BEQ",
        Opcodes::BIT(_) => "BIT",
        Opcodes::BMI(_) => "BMI",
        Opcodes::BNE(_) => "BNE",
        Opcodes::BPL(_) => "BPL",
        Opcodes::BRK(_) => "BRK",
        Opcodes::BVC(_) => "BVC",
        Opcodes::BVS(_) => "BVS",
        Opcodes::CLC(_) => "CLC",
        Opcodes::CLD(_) => "CLD",
        Opcodes::CLI(_) => "CLI",
        Opcodes::CLV(_) => "CLV",
        Opcodes::CMP(_) => "CMP",
        Opcodes::CPX(_) => "CPX",
        Opcodes::CPY(_) => "CPY",
        Opcodes::DEC(_) => "DEC",
        Opcodes::DEX(_) => "DEX",
        Opcodes::DEY(_) => "DEY",
        Opcodes::EOR(_) => "EOR",
        Opcodes::INC(_) => "INC",
        Opcodes::INX(_) => "INX",
        Opcodes::INY(_) => "INY",
        Opcodes::JMP(_) => "JMP",
        Opcodes::JSR(_) => "JSR",
        Opcodes::LDA(_) => "LDA",
        Opcodes::LDX(_) => "LDX",
        Opcodes::LDY(_) => "LDY",
        Opcodes::LSR(_) => "LSR",
        Opcodes::NOP(_) => "NOP",
        Opcodes::ORA(_) => "ORA",
        Opcodes::PHA(_) => "PHA",
        Opcodes::PHP(_) => "PHP",
        Opcodes::PLA(_) => "PLA",
        Opcodes::PLP(_) => "PLP",
        Opcodes::ROL(_) => "ROL",
        Opcodes::ROR(_) => "ROR",
        Opcodes::RTI(_) => "RTI",
        Opcodes::RTS(_) => "RTS",
        Opcodes::SBC(_) => "SBC",
        Opcodes::SEC(_) => "SEC",
        Opcodes::SED(_) => "SED",
        Opcodes::SEI(_) => "SEI",
        Opcodes::STA(_) => "STA",
        Opcodes::STX(_) => "STX",
        Opcodes::STY(_) => "STY",
        Opcodes::TAX(_) => "TAX",
        Opcodes::TAY(_) => "TAY",
        Opcodes::TSX(_) => "TSX",
        Opcodes::TXA(_) => "TXA",
        Opcodes::TXS(_) => "TXS",
        Opcodes::TYA(_) => "TYA",
    }
}

/// The addressing mode of an opcode.
pub fn addressing_mode(opcode: Opcodes) -> (mode: MemoryMode)
    ensures
        mode == mode_of(opcode),
{
    match opcode {
        Opcodes::ADC(mode) => mode,
        Opcodes::AND(mode) => mode,
        Opcodes::ASL(mode) => mode,
        Opcodes::BCC(mode) => mode,
        Opcodes::BCS(mode) => mode,
        Opcodes::BEQ(mode) => mode,
        Opcodes::BIT(mode) => mode,
        Opcodes::BMI(mode) => mode,
        Opcodes::BNE(mode) => mode,
        Opcodes::BPL(mode) => mode,
        Opcodes::BRK(mode) => mode,
        Opcodes::BVC(mode) => mode,
        Opcodes::BVS(mode) => mode,
        Opcodes::CLC(mode) => mode,
        Opcodes::CLD(mode) => mode,
        Opcodes::CLI(mode) => mode,
        Opcodes::CLV(mode) => mode,
        Opcodes::CMP(mode) => mode,
        Opcodes::CPX(mode) => mode,
        Opcodes::CPY(mode) => mode,
        Opcodes::DEC(mode) => mode,
        Opcodes::DEX(mode) => mode,
        Opcodes::DEY(mode) => mode,
        Opcodes::EOR(mode) => mode,
        Opcodes::INC(mode) => mode,
        Opcodes::INX(mode) => mode,
        Opcodes::INY(mode) => mode,
        Opcodes::JMP(mode) => mode,
        Opcodes::JSR(mode) => mode,
        Opcodes::LDA(mode) => mode,
        Opcodes::LDX(mode) => mode,
        Opcodes::LDY(mode) => mode,
        Opcodes::LSR(mode) => mode,
        Opcodes::NOP(mode) => mode,
        Opcodes::ORA(mode) => mode,
        Opcodes::PHA(mode) => mode,
        Opcodes::PHP(mode) => mode,
        Opcodes::PLA(mode) => mode,
        Opcodes::PLP(mode) => mode,
        Opcodes::ROL(mode) => mode,
        Opcodes::ROR(mode) => mode,
        Opcodes::RTI(mode) => mode,
        Opcodes::RTS(mode) => mode,
        Opcodes::SBC(mode) => mode,
        Opcodes::SEC(mode) => mode,
        Opcodes::SED(mode) => mode,
        Opcodes::SEI(mode) => mode,
        Opcodes::STA(mode) => mode,
        Opcodes::STX(mode) => mode,
        Opcodes::STY(mode) => mode,
        Opcodes::TAX(mode) => mode,
        Opcodes::TAY(mode) => mode,
        Opcodes::TSX(mode) => mode,
        Opcodes::TXA(mode) => mode,
        Opcodes::TXS(mode) => mode,
        Opcodes::TYA(mode) => mode,
    }
}

impl CPU {
    /// The line of the trace log for the instruction at the program
    /// counter, or nothing where the byte there is no documented opcode.
    /// Memory is only looked at: no hook reports.
    pub fn trace(&self, memory: &MEM) -> (line: Option<Vec<u8>>)
        requires
            addressable(memory@),
        ensures
            line.is_some() <==> decode(opcode_at(*self, memory@)).is_some(),
            line matches Some(text) ==> {
                let opcode = decode(opcode_at(*self, memory@)).unwrap();
                let inst = fetched(*self, memory@, mode_of(opcode));
                text@ == trace_line(
                    *self,
                    inst.instruction,
                    inst.operand1,
                    inst.operand2,
                    disassembly(inst, *self, encode_utf8(mnemonic_of(opcode))),
                )
            },
    {
        let mut decoder = *self;
        let opcode = match decoder.from(memory.peek(self.get_pc() as usize)) {
            Err(_) => {
                return None;
            },
            Ok(opcode) => opcode,
        };
        let inst = Instruction::look(self, memory, addressing_mode(opcode));
        proof {
            lemma_fetched_is_complete(*self, memory@, mode_of(opcode));
        }
        Some(inst.log(self, mnemonic(opcode)))
    }
}

/// A fetched instruction holds everything that its addressing mode has.
pub proof fn lemma_fetched_is_complete(
    cpu: CPU,
    memory: crate::memory::MemoryModel,
    mode: MemoryMode,
)
    ensures
        complete(crate::processor::instruction::fetched(cpu, memory, mode)),
{
}

impl Logger {
    /// One line of the trace log for an instruction about to run.
    pub fn log_cpu_instruction(
        cpu: &CPU,
        instruction: u8,
        operand1: Option<u8>,
        operand2: Option<u8>,
        decoded_instruction: Vec<u8>,
    ) -> (line: Vec<u8>)
        ensures
            line@ == trace_line(*cpu, instruction, operand1, operand2, decoded_instruction@),
    {
        let mut line: Vec<u8> = Vec::new();
        push_hex4(&mut line, cpu.get_pc());
        push_spaces(&mut line, 2);
        push_hex2(&mut line, instruction);
        push_spaces(&mut line, 1);
        push_operand(&mut line, operand1, 1);
        push_operand(&mut line, operand2, 2);
        push_text(&mut line, decoded_instruction.as_slice());
        if decoded_instruction.len() < DISASSEMBLY_WIDTH {
            push_spaces(&mut line, DISASSEMBLY_WIDTH - decoded_instruction.len());
        }
        let ghost head = line@;
        assert(head =~= hex4(cpu.PC as int) + spaces(2) + hex2(instruction as int) + spaces(1)
            + operand_column(operand1, 1) + operand_column(operand2, 2) + padded(
            decoded_instruction@,
            DISASSEMBLY_WIDTH as nat,
        ));
        let a: [u8; 1] = [0x41];
        let x: [u8; 1] = [0x58];
        let y: [u8; 1] = [0x59];
        let p: [u8; 1] = [0x50];
        let sp: [u8; 2] = [0x53, 0x50];
        push_register(&mut line, a.as_slice(), cpu.get_a());
        push_register(&mut line, x.as_slice(), cpu.get_x());
        push_register(&mut line, y.as_slice(), cpu.get_y());
        push_register(&mut line, p.as_slice(), cpu.store_status());
        push_register(&mut line, sp.as_slice(), cpu.get_s());
        assert(a@ =~= seq![0x41u8] && x@ =~= seq![0x58u8] && y@ =~= seq![0x59u8] && p@ =~= seq![
            0x50u8,
        ] && sp@ =~= seq![0x53u8, 0x50u8]);
        line
    }
}

} // verus!
