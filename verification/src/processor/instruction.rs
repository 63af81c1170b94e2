//! Operand fetch: what each addressing mode reads, and the record of a
//! fetched instruction.
//!
//! The opcode byte itself is looked at without any hook reporting; the
//! operand bytes, the bytes of a pointer and the operand value are read one
//! by one, and every read hook concerned reports each of them.

use vstd::prelude::*;

use super::addressable;
use super::length;
use super::signed;
use super::wrap16;
use super::wrap8;
use super::MemoryMode;
use super::CPU;
use crate::memory::combinatorics::combine_operands;
use crate::memory::MemoryModel;
use crate::memory::MEM;
use crate::types::Wrapped;

verus! {

/// A fetched instruction: its addressing mode, the opcode byte, the operand
/// bytes that follow it, the operand value, the effective address, and the
/// base address of an indirection.
#[derive(Debug, Clone, Copy)]
pub struct Instruction {
    pub mode: MemoryMode,
    pub instruction: u8,
    pub operand1: Option<u8>,
    pub operand2: Option<u8>,
    pub value: Option<u8>,
    pub memory_address: Option<u16>,
    pub memory_indirect_address: Option<u16>,
}

/// The byte at the program counter.
pub open spec fn opcode_at(cpu: CPU, memory: MemoryModel) -> u8 {
    memory.read_byte(cpu.PC as int)
}

/// The byte that follows the opcode.
pub open spec fn operand1_at(cpu: CPU, memory: MemoryModel) -> u8 {
    memory.read_byte(wrap16(cpu.PC + 1))
}

/// The second byte that follows the opcode.
pub open spec fn operand2_at(cpu: CPU, memory: MemoryModel) -> u8 {
    memory.read_byte(wrap16(cpu.PC + 2))
}

/// The 16-bit number that the two operand bytes hold, low byte first.
pub open spec fn absolute_at(cpu: CPU, memory: MemoryModel) -> int {
    operand1_at(cpu, memory) + 256 * operand2_at(cpu, memory)
}

/// The 16-bit number held at `pointer` in the zero page. The high byte is
/// taken from `pointer + 1` modulo 256: the pointer never leaves the page.
pub open spec fn zero_page_word(memory: MemoryModel, pointer: int) -> int {
    memory.read_byte(pointer) + 256 * memory.read_byte(wrap8(pointer + 1))
}

/// Where an indirect jump takes the high byte of its target from. A vector
/// whose low byte is 0xFF does not carry into the next page: the high byte
/// comes from the start of the vector's own page.
pub open spec fn indirect_high(base: int) -> int {
    if base % 256 == 0xFF {
        base - 0xFF
    } else {
        base + 1
    }
}

/// The effective address of the instruction at the program counter in
/// addressing mode `mode`, where the mode has one.
pub open spec fn effective_address(cpu: CPU, memory: MemoryModel, mode: MemoryMode) -> Option<int> {
    let operand = operand1_at(cpu, memory);
    let absolute = absolute_at(cpu, memory);
    match mode {
        MemoryMode::Implicit | MemoryMode::Acc | MemoryMode::Immediate => None,
        MemoryMode::ZeroPage => Some(operand as int),
        MemoryMode::ZeroPageX => Some(wrap8(operand + cpu.X)),
        MemoryMode::ZeroPageY => Some(wrap8(operand + cpu.Y)),
        MemoryMode::Relative => Some(wrap16(cpu.PC + 2 + signed(operand))),
        MemoryMode::Absolute => Some(absolute),
        MemoryMode::AbsoluteX => Some(wrap16(absolute + cpu.X)),
        MemoryMode::AbsoluteY => Some(wrap16(absolute + cpu.Y)),
        MemoryMode::Indirect => Some(
            memory.read_byte(absolute) + 256 * memory.read_byte(indirect_high(absolute)),
        ),
        MemoryMode::IndirectX => Some(zero_page_word(memory, wrap8(operand + cpu.X))),
        MemoryMode::IndirectY => Some(wrap16(zero_page_word(memory, operand as int) + cpu.Y)),
    }
}

/// The operand value of the instruction at the program counter, where the
/// mode has one: the accumulator, the operand byte, or the byte at the
/// effective address.
pub open spec fn operand_value(cpu: CPU, memory: MemoryModel, mode: MemoryMode) -> Option<u8> {
    match mode {
        MemoryMode::Implicit | MemoryMode::Indirect => None,
        MemoryMode::Acc => Some(cpu.A),
        MemoryMode::Immediate | MemoryMode::Relative => Some(operand1_at(cpu, memory)),
        _ => Some(memory.read_byte(effective_address(cpu, memory, mode).unwrap())),
    }
}

/// The base address of an indirection: the vector of an indirect jump, the
/// zero-page operand of the two indexed indirect modes.
pub open spec fn indirect_base(cpu: CPU, memory: MemoryModel, mode: MemoryMode) -> Option<int> {
    match mode {
        MemoryMode::Indirect => Some(absolute_at(cpu, memory)),
        MemoryMode::IndirectX | MemoryMode::IndirectY => Some(operand1_at(cpu, memory) as int),
        _ => None,
    }
}

/// The addresses that fetching the instruction at the program counter
/// reads, in order: the operand bytes, the bytes of a pointer, and the
/// address of the operand value.
pub open spec fn reads(cpu: CPU, memory: MemoryModel, mode: MemoryMode) -> Seq<int> {
    let first = wrap16(cpu.PC + 1);
    let second = wrap16(cpu.PC + 2);
    let operand = operand1_at(cpu, memory);
    let absolute = absolute_at(cpu, memory);
    match mode {
        MemoryMode::Implicit | MemoryMode::Acc => Seq::empty(),
        MemoryMode::Immediate | MemoryMode::Relative => seq![first],
        MemoryMode::ZeroPage | MemoryMode::ZeroPageX | MemoryMode::ZeroPageY => seq![
            first,
            effective_address(cpu, memory, mode).unwrap(),
        ],
        MemoryMode::Absolute | MemoryMode::AbsoluteX | MemoryMode::AbsoluteY => seq![
            first,
            second,
            effective_address(cpu, memory, mode).unwrap(),
        ],
        MemoryMode::Indirect => seq![first, second, absolute, indirect_high(absolute)],
        MemoryMode::IndirectX => seq![
            first,
            wrap8(operand + cpu.X),
            wrap8(wrap8(operand + cpu.X) + 1),
            effective_address(cpu, memory, mode).unwrap(),
        ],
        MemoryMode::IndirectY => seq![
            first,
            operand as int,
            wrap8(operand + 1),
            effective_address(cpu, memory, mode).unwrap(),
        ],
    }
}

/// An address as the 16-bit number that an instruction record carries.
pub open spec fn short(address: Option<int>) -> Option<u16> {
    match address {
        Some(a) => Some(a as u16),
        None => None,
    }
}

/// The record of the instruction at the program counter, fetched in
/// addressing mode `mode`.
pub open spec fn fetched(cpu: CPU, memory: MemoryModel, mode: MemoryMode) -> Instruction {
    Instruction {
        mode,
        instruction: opcode_at(cpu, memory),
        operand1: if length(mode) >= 2 {
            Some(operand1_at(cpu, memory))
        } else {
            None
        },
        operand2: if length(mode) >= 3 {
            Some(operand2_at(cpu, memory))
        } else {
            None
        },
        value: operand_value(cpu, memory, mode),
        memory_address: short(effective_address(cpu, memory, mode)),
        memory_indirect_address: short(indirect_base(cpu, memory, mode)),
    }
}

/// Addresses wrap at the edges. An index added to a zero-page address
/// never leaves the zero page: 0xFF plus 1 is 0x00. An index added to an
/// absolute address wraps at 2^16: 0xFFFF plus 1 is 0x0000. An indirect
/// jump through a vector that ends a page takes the high byte of its
/// target from the start of that page. A branch by -128 from an
/// instruction at `pc` lands at `pc + 2 - 128`.
pub proof fn lemma_addresses_wrap(cpu: CPU, memory: MemoryModel)
    ensures
        operand1_at(cpu, memory) == 0xFF && cpu.X == 1 ==> effective_address(
            cpu,
            memory,
            MemoryMode::ZeroPageX,
        ) == Some(0int),
        absolute_at(cpu, memory) == 0xFFFF && cpu.Y == 1 ==> effective_address(
            cpu,
            memory,
            MemoryMode::AbsoluteY,
        ) == Some(0int),
        absolute_at(cpu, memory) == 0x02FF ==> effective_address(cpu, memory, MemoryMode::Indirect)
            == Some(memory.read_byte(0x02FF) + 256 * memory.read_byte(0x0200)),
        operand1_at(cpu, memory) == 0x80 ==> effective_address(cpu, memory, MemoryMode::Relative)
            == Some(wrap16(cpu.PC + 2 - 128)),
        forall|mode: MemoryMode|
            (#[trigger] effective_address(cpu, memory, mode)) matches Some(address) ==> 0
                <= address < 0x10000,
{
}

/// Reads one byte at `address`, as the next read after those of `trace`.
fn read_next(
    memory: &mut MEM,
    address: u16,
    Ghost(start): Ghost<MemoryModel>,
    Ghost(trace): Ghost<Seq<int>>,
) -> (r: u8)
    requires
        addressable(start),
        old(memory)@ == start.after_reads(trace),
    ensures
        r == start.read_byte(address as int),
        final(memory)@ == start.after_reads(trace.push(address as int)),
        addressable(final(memory)@),
{
    proof {
        start.lemma_reads_keep_wf(trace);
        start.lemma_reads_keep_wf(trace.push(address as int));
        start.lemma_reads_push(trace, address as int);
    }
    memory.read_byte(address as usize)
}

/// `address + step`, modulo 2^16.
fn word_after(address: u16, step: u16) -> (r: u16)
    ensures
        r == wrap16(address + step),
{
    (Wrapped::from(address) + Wrapped::from(step)).to_u16()
}

/// `base + index`, modulo 2^8.
fn zero_page_index(base: u8, index: u8) -> (r: u8)
    ensures
        r == wrap8(base + index),
{
    (Wrapped::from(base) + Wrapped::from(index)).to_u8()
}

impl Instruction {
    /// Fetches an instruction without operand.
    pub fn get_imp(cpu: &CPU, memory: &mut MEM) -> (r: Self)
        requires
            addressable(old(memory)@),
        ensures
            addressable(final(memory)@),
            r == fetched(*cpu, old(memory)@, MemoryMode::Implicit),
            final(memory)@ == old(memory)@.after_reads(
                reads(*cpu, old(memory)@, MemoryMode::Implicit),
            ),
    {
        let instruction = memory.peek(cpu.PC as usize);
        proof {
            memory@.lemma_reads_push(Seq::empty(), 0);
        }
        Self {
            mode: MemoryMode::Implicit,
            instruction,
            operand1: None,
            operand2: None,
            value: None,
            memory_address: None,
            memory_indirect_address: None,
        }
    }

    /// Fetches an instruction that works on the accumulator.
    pub fn get_acc(cpu: &CPU, memory: &mut MEM) -> (r: Self)
        requires
            addressable(old(memory)@),
        ensures
            addressable(final(memory)@),
            r == fetched(*cpu, old(memory)@, MemoryMode::Acc),
            final(memory)@ == old(memory)@.after_reads(reads(*cpu, old(memory)@, MemoryMode::Acc)),
    {
        let instruction = memory.peek(cpu.PC as usize);
        proof {
            memory@.lemma_reads_push(Seq::empty(), 0);
        }
        Self {
            mode: MemoryMode::Acc,
            instruction,
            operand1: None,
            operand2: None,
            value: Some(cpu.A),
            memory_address: None,
            memory_indirect_address: None,
        }
    }

    /// Fetches an instruction whose operand byte is the value.
    pub fn get_imm(cpu: &CPU, memory: &mut MEM) -> (r: Self)
        requires
            addressable(old(memory)@),
        ensures
            addressable(final(memory)@),
            r == fetched(*cpu, old(memory)@, MemoryMode::Immediate),
            final(memory)@ == old(memory)@.after_reads(
                reads(*cpu, old(memory)@, MemoryMode::Immediate),
            ),
    {
        let ghost start = memory@;
        let ghost mut trace = Seq::<int>::empty();
        proof {
            start.lemma_reads_push(Seq::empty(), 0);
        }
        let instruction = memory.peek(cpu.PC as usize);
        let target = word_after(cpu.PC, 1);
        let value = read_next(memory, target, Ghost(start), Ghost(trace));
        proof {
            trace = trace.push(target as int);
        }
        assert(trace =~= reads(
            *cpu,
            start,
            MemoryMode::Immediate,
        ));
        Self {
            mode: MemoryMode::Immediate,
            instruction,
            operand1: Some(value),
            operand2: None,
            value: Some(value),
            memory_address: None,
            memory_indirect_address: None,
        }
    }

    /// Fetches an instruction whose operand byte is an address in the zero
    /// page, with `index` added to it modulo 256.
    fn get_zero_page(cpu: &CPU, memory: &mut MEM, mode: MemoryMode, index: u8) -> (r: Self)
        requires
            addressable(old(memory)@),
            mode == MemoryMode::ZeroPage && index == 0 || mode == MemoryMode::ZeroPageX && index
                == cpu.X || mode == MemoryMode::ZeroPageY && index == cpu.Y,
        ensures
            addressable(final(memory)@),
            r == fetched(*cpu, old(memory)@, mode),
            final(memory)@ == old(memory)@.after_reads(reads(*cpu, old(memory)@, mode)),
    {
        let ghost start = memory@;
        let ghost mut trace = Seq::<int>::empty();
        proof {
            start.lemma_reads_push(Seq::empty(), 0);
        }
        let instruction = memory.peek(cpu.PC as usize);
        let target = word_after(cpu.PC, 1);
        let operand = read_next(memory, target, Ghost(start), Ghost(trace));
        proof {
            trace = trace.push(target as int);
        }
        let memory_address = zero_page_index(operand, index);
        let target = memory_address as u16;
        let value = read_next(memory, target, Ghost(start), Ghost(trace));
        proof {
            trace = trace.push(target as int);
        }
        assert(trace =~= reads(*cpu, start, mode));
        Self {
            mode,
            instruction,
            operand1: Some(operand),
            operand2: None,
            value: Some(value),
            memory_address: Some(memory_address as u16),
            memory_indirect_address: None,
        }
    }

    /// Fetches an instruction whose operand byte is an address in the zero page.
    pub fn get_zpg(cpu: &CPU, memory: &mut MEM) -> (r: Self)
        requires
            addressable(old(memory)@),
        ensures
            addressable(final(memory)@),
            r == fetched(*cpu, old(memory)@, MemoryMode::ZeroPage),
            final(memory)@ == old(memory)@.after_reads(
                reads(*cpu, old(memory)@, MemoryMode::ZeroPage),
            ),
    {
        Self::get_zero_page(cpu, memory, MemoryMode::ZeroPage, 0)
    }

    /// Fetches an instruction whose operand is in the zero page at the
    /// operand byte plus X, modulo 256.
    pub fn get_zpgx(cpu: &CPU, memory: &mut MEM) -> (r: Self)
        requires
            addressable(old(memory)@),
        ensures
            addressable(final(memory)@),
            r == fetched(*cpu, old(memory)@, MemoryMode::ZeroPageX),
            final(memory)@ == old(memory)@.after_reads(
                reads(*cpu, old(memory)@, MemoryMode::ZeroPageX),
            ),
    {
        Self::get_zero_page(cpu, memory, MemoryMode::ZeroPageX, cpu.X)
    }

    /// Fetches an instruction whose operand is in the zero page at the
    /// operand byte plus Y, modulo 256.
    pub fn get_zpgy(cpu: &CPU, memory: &mut MEM) -> (r: Self)
        requires
            addressable(old(memory)@),
        ensures
            addressable(final(memory)@),
            r == fetched(*cpu, old(memory)@, MemoryMode::ZeroPageY),
            final(memory)@ == old(memory)@.after_reads(
                reads(*cpu, old(memory)@, MemoryMode::ZeroPageY),
            ),
    {
        Self::get_zero_page(cpu, memory, MemoryMode::ZeroPageY, cpu.Y)
    }

    /// Fetches a branch: the operand byte is a signed offset from the
    /// address of the next instruction.
    pub fn get_rel(cpu: &CPU, memory: &mut MEM) -> (r: Self)
        requires
            addressable(old(memory)@),
        ensures
            addressable(final(memory)@),
            r == fetched(*cpu, old(memory)@, MemoryMode::Relative),
            final(memory)@ == old(memory)@.after_reads(
                reads(*cpu, old(memory)@, MemoryMode::Relative),
            ),
    {
        let ghost start = memory@;
        let ghost mut trace = Seq::<int>::empty();
        proof {
            start.lemma_reads_push(Seq::empty(), 0);
        }
        let instruction = memory.peek(cpu.PC as usize);
        let target = word_after(cpu.PC, 1);
        let offset = read_next(memory, target, Ghost(start), Ghost(trace));
        proof {
            trace = trace.push(target as int);
        }
        let distance: isize = if offset >= 0x80 {
            offset as isize - 0x100
        } else {
            offset as isize
        };
        let absolute_address = (Wrapped::from(cpu.PC) + (2 + distance)).to_u16();
        assert(trace =~= reads(
            *cpu,
            start,
            MemoryMode::Relative,
        ));
        Self {
            mode: MemoryMode::Relative,
            instruction,
            operand1: Some(offset),
            operand2: None,
            value: Some(offset),
            memory_address: Some(absolute_address),
            memory_indirect_address: None,
        }
    }

    /// Fetches an instruction whose two operand bytes are an address, with
    /// `index` added to it modulo 2^16.
    fn get_absolute(cpu: &CPU, memory: &mut MEM, mode: MemoryMode, index: u8) -> (r: Self)
        requires
            addressable(old(memory)@),
            mode == MemoryMode::Absolute && index == 0 || mode == MemoryMode::AbsoluteX && index
                == cpu.X || mode == MemoryMode::AbsoluteY && index == cpu.Y,
        ensures
            addressable(final(memory)@),
            r == fetched(*cpu, old(memory)@, mode),
            final(memory)@ == old(memory)@.after_reads(reads(*cpu, old(memory)@, mode)),
    {
        let ghost start = memory@;
        let ghost mut trace = Seq::<int>::empty();
        proof {
            start.lemma_reads_push(Seq::empty(), 0);
        }
        let instruction = memory.peek(cpu.PC as usize);
        let target = word_after(cpu.PC, 1);
        let operand1 = read_next(memory, target, Ghost(start), Ghost(trace));
        proof {
            trace = trace.push(target as int);
        }
        let target = word_after(cpu.PC, 2);
        let operand2 = read_next(memory, target, Ghost(start), Ghost(trace));
        proof {
            trace = trace.push(target as int);
        }
        let base = combine_operands(operand1, operand2);
        let memory_address = (Wrapped::from(base) + Wrapped::from(index)).to_u16();
        let target = memory_address;
        let value = read_next(memory, target, Ghost(start), Ghost(trace));
        proof {
            trace = trace.push(target as int);
        }
        assert(trace =~= reads(
            *cpu,
            start,
            mode,
        ));
        Self {
            mode,
            instruction,
            operand1: Some(operand1),
            operand2: Some(operand2),
            value: Some(value),
            memory_address: Some(memory_address),
            memory_indirect_address: None,
        }
    }

    /// Fetches an instruction whose two operand bytes are the address of
    /// the operand.
    pub fn get_abs(cpu: &CPU, memory: &mut MEM) -> (r: Self)
        requires
            addressable(old(memory)@),
        ensures
            addressable(final(memory)@),
            r == fetched(*cpu, old(memory)@, MemoryMode::Absolute),
            final(memory)@ == old(memory)@.after_reads(
                reads(*cpu, old(memory)@, MemoryMode::Absolute),
            ),
    {
        Self::get_absolute(cpu, memory, MemoryMode::Absolute, 0)
    }

    /// Fetches an instruction whose operand is at the address in the
    /// operand bytes plus X, modulo 2^16.
    pub fn get_absx(cpu: &CPU, memory: &mut MEM) -> (r: Self)
        requires
            addressable(old(memory)@),
        ensures
            addressable(final(memory)@),
            r == fetched(*cpu, old(memory)@, MemoryMode::AbsoluteX),
            final(memory)@ == old(memory)@.after_reads(
                reads(*cpu, old(memory)@, MemoryMode::AbsoluteX),
            ),
    {
        Self::get_absolute(cpu, memory, MemoryMode::AbsoluteX, cpu.X)
    }

    /// Fetches an instruction whose operand is at the address in the
    /// operand bytes plus Y, modulo 2^16.
    pub fn get_absy(cpu: &CPU, memory: &mut MEM) -> (r: Self)
        requires
            addressable(old(memory)@),
        ensures
            addressable(final(memory)@),
            r == fetched(*cpu, old(memory)@, MemoryMode::AbsoluteY),
            final(memory)@ == old(memory)@.after_reads(
                reads(*cpu, old(memory)@, MemoryMode::AbsoluteY),
            ),
    {
        Self::get_absolute(cpu, memory, MemoryMode::AbsoluteY, cpu.Y)
    }

    /// Fetches an indirect jump: the two operand bytes are the address of a
    /// vector that holds the target. The high byte of the target is taken
    /// from the vector's own page even where the vector ends the page.
    pub fn get_indirect(cpu: &CPU, memory: &mut MEM) -> (r: Self)
        requires
            addressable(old(memory)@),
        ensures
            addressable(final(memory)@),
            r == fetched(*cpu, old(memory)@, MemoryMode::Indirect),
            final(memory)@ == old(memory)@.after_reads(
                reads(*cpu, old(memory)@, MemoryMode::Indirect),
            ),
    {
        let ghost start = memory@;
        let ghost mut trace = Seq::<int>::empty();
        let ghost first = wrap16(cpu.PC + 1);
        let ghost second = wrap16(cpu.PC + 2);
        proof {
            start.lemma_reads_push(Seq::empty(), 0);
        }
        let instruction = memory.peek(cpu.PC as usize);
        let target = word_after(cpu.PC, 1);
        let operand1 = read_next(memory, target, Ghost(start), Ghost(trace));
        proof {
            trace = trace.push(target as int);
        }
        let target = word_after(cpu.PC, 2);
        let operand2 = read_next(memory, target, Ghost(start), Ghost(trace));
        proof {
            trace = trace.push(target as int);
        }
        let base = combine_operands(operand1, operand2);
        let high_address: u16 = if operand1 == 0xFF {
            base - 0xFF
        } else {
            base + 1
        };
        let target = base;
        let low = read_next(memory, target, Ghost(start), Ghost(trace));
        proof {
            trace = trace.push(target as int);
        }
        let target = high_address;
        let high = read_next(memory, target, Ghost(start), Ghost(trace));
        proof {
            trace = trace.push(target as int);
        }
        assert(trace =~= reads(
            *cpu,
            start,
            MemoryMode::Indirect,
        ));
        Self {
            mode: MemoryMode::Indirect,
            instruction,
            operand1: Some(operand1),
            operand2: Some(operand2),
            value: None,
            memory_address: Some(combine_operands(low, high)),
            memory_indirect_address: Some(base),
        }
    }

    /// Fetches an instruction whose operand byte plus X, modulo 256, is
    /// the zero-page address of a pointer to the operand.
    pub fn get_indirect_x(cpu: &CPU, memory: &mut MEM) -> (r: Self)
        requires
            addressable(old(memory)@),
        ensures
            addressable(final(memory)@),
            r == fetched(*cpu, old(memory)@, MemoryMode::IndirectX),
            final(memory)@ == old(memory)@.after_reads(
                reads(*cpu, old(memory)@, MemoryMode::IndirectX),
            ),
    {
        let ghost start = memory@;
        let ghost mut trace = Seq::<int>::empty();
        let ghost first = wrap16(cpu.PC + 1);
        proof {
            start.lemma_reads_push(Seq::empty(), 0);
        }
        let instruction = memory.peek(cpu.PC as usize);
        let target = word_after(cpu.PC, 1);
        let operand = read_next(memory, target, Ghost(start), Ghost(trace));
        proof {
            trace = trace.push(target as int);
        }
        let pointer = zero_page_index(operand, cpu.X);
        let pointer_high = zero_page_index(pointer, 1);
        let target = pointer as u16;
        let low = read_next(memory, target, Ghost(start), Ghost(trace));
        proof {
            trace = trace.push(target as int);
        }
        let target = pointer_high as u16;
        let high = read_next(memory, target, Ghost(start), Ghost(trace));
        proof {
            trace = trace.push(target as int);
        }
        let memory_address = combine_operands(low, high);
        let target = memory_address;
        let value = read_next(memory, target, Ghost(start), Ghost(trace));
        proof {
            trace = trace.push(target as int);
        }
        assert(trace =~= reads(*cpu, start, MemoryMode::IndirectX));
        Self {
            mode: MemoryMode::IndirectX,
            instruction,
            operand1: Some(operand),
            operand2: None,
            value: Some(value),
            memory_address: Some(memory_address),
            memory_indirect_address: Some(operand as u16),
        }
    }

    /// Fetches an instruction whose operand byte is the zero-page address
    /// of a pointer; the operand is at the pointer plus Y, modulo 2^16.
    pub fn get_indirect_y(cpu: &CPU, memory: &mut MEM) -> (r: Self)
        requires
            addressable(old(memory)@),
        ensures
            addressable(final(memory)@),
            r == fetched(*cpu, old(memory)@, MemoryMode::IndirectY),
            final(memory)@ == old(memory)@.after_reads(
                reads(*cpu, old(memory)@, MemoryMode::IndirectY),
            ),
    {
        let ghost start = memory@;
        let ghost mut trace = Seq::<int>::empty();
        let ghost first = wrap16(cpu.PC + 1);
        proof {
            start.lemma_reads_push(Seq::empty(), 0);
        }
        let instruction = memory.peek(cpu.PC as usize);
        let target = word_after(cpu.PC, 1);
        let operand = read_next(memory, target, Ghost(start), Ghost(trace));
        proof {
            trace = trace.push(target as int);
        }
        let pointer_high = zero_page_index(operand, 1);
        let target = operand as u16;
        let low = read_next(memory, target, Ghost(start), Ghost(trace));
        proof {
            trace = trace.push(target as int);
        }
        let target = pointer_high as u16;
        let high = read_next(memory, target, Ghost(start), Ghost(trace));
        proof {
            trace = trace.push(target as int);
        }
        let base = combine_operands(low, high);
        let memory_address = (Wrapped::from(base) + Wrapped::from(cpu.Y)).to_u16();
        let target = memory_address;
        let value = read_next(memory, target, Ghost(start), Ghost(trace));
        proof {
            trace = trace.push(target as int);
        }
        assert(trace =~= reads(*cpu, start, MemoryMode::IndirectY));
        Self {
            mode: MemoryMode::IndirectY,
            instruction,
            operand1: Some(operand),
            operand2: None,
            value: Some(value),
            memory_address: Some(memory_address),
            memory_indirect_address: Some(operand as u16),
        }
    }

    /// The record of the instruction at the program counter in addressing
    /// mode `mode`, as a fetch would return it. Memory is only looked at: no
    /// hook reports.
    pub fn look(cpu: &CPU, memory: &MEM, mode: MemoryMode) -> (r: Self)
        requires
            addressable(memory@),
        ensures
            r == fetched(*cpu, memory@, mode),
    {
        let instruction = memory.peek(cpu.PC as usize);
        let operand1 = memory.peek(word_after(cpu.PC, 1) as usize);
        let operand2 = memory.peek(word_after(cpu.PC, 2) as usize);
        let absolute = combine_operands(operand1, operand2);
        let memory_address: Option<u16> = match mode {
            MemoryMode::Implicit | MemoryMode::Acc | MemoryMode::Immediate => None,
            MemoryMode::ZeroPage => Some(operand1 as u16),
            MemoryMode::ZeroPageX => Some(zero_page_index(operand1, cpu.X) as u16),
            MemoryMode::ZeroPageY => Some(zero_page_index(operand1, cpu.Y) as u16),
            MemoryMode::Relative => {
                let distance: isize = if operand1 >= 0x80 {
                    operand1 as isize - 0x100
                } else {
                    operand1 as isize
                };
                Some((Wrapped::from(cpu.PC) + (2 + distance)).to_u16())
            },
            MemoryMode::Absolute => Some(absolute),
            MemoryMode::AbsoluteX => Some(
                (Wrapped::from(absolute) + Wrapped::from(cpu.X)).to_u16(),
            ),
            MemoryMode::AbsoluteY => Some(
                (Wrapped::from(absolute) + Wrapped::from(cpu.Y)).to_u16(),
            ),
            MemoryMode::Indirect => {
                let high_address: u16 = if operand1 == 0xFF {
                    absolute - 0xFF
                } else {
                    absolute + 1
                };
                Some(
                    combine_operands(
                        memory.peek(absolute as usize),
                        memory.peek(high_address as usize),
                    ),
                )
            },
            MemoryMode::IndirectX => {
                let pointer = zero_page_index(operand1, cpu.X);
                Some(
                    combine_operands(
                        memory.peek(pointer as usize),
                        memory.peek(zero_page_index(pointer, 1) as usize),
                    ),
                )
            },
            MemoryMode::IndirectY => {
                let base = combine_operands(
                    memory.peek(operand1 as usize),
                    memory.peek(zero_page_index(operand1, 1) as usize),
                );
                Some((Wrapped::from(base) + Wrapped::from(cpu.Y)).to_u16())
            },
        };
        let value: Option<u8> = match mode {
            MemoryMode::Implicit | MemoryMode::Indirect => None,
            MemoryMode::Acc => Some(cpu.A),
            MemoryMode::Immediate | MemoryMode::Relative => Some(operand1),
            _ => Some(memory.peek(memory_address.unwrap() as usize)),
        };
        let memory_indirect_address: Option<u16> = match mode {
            MemoryMode::Indirect => Some(absolute),
            MemoryMode::IndirectX | MemoryMode::IndirectY => Some(operand1 as u16),
            _ => None,
        };
        let bytes = match mode {
            MemoryMode::Implicit | MemoryMode::Acc => 1u8,
            MemoryMode::Absolute
            | MemoryMode::AbsoluteX
            | MemoryMode::AbsoluteY
            | MemoryMode::Indirect => 3u8,
            _ => 2u8,
        };
        Self {
            mode,
            instruction,
            operand1: if bytes >= 2 {
                Some(operand1)
            } else {
                None
            },
            operand2: if bytes >= 3 {
                Some(operand2)
            } else {
                None
            },
            value,
            memory_address,
            memory_indirect_address,
        }
    }

    /// Fetches the instruction at the program counter in addressing mode `mode`.
    pub fn get(cpu: &CPU, memory: &mut MEM, mode: MemoryMode) -> (r: Self)
        requires
            addressable(old(memory)@),
        ensures
            addressable(final(memory)@),
            r == fetched(*cpu, old(memory)@, mode),
            final(memory)@ == old(memory)@.after_reads(reads(*cpu, old(memory)@, mode)),
    {
        match mode {
            MemoryMode::Implicit => Self::get_imp(cpu, memory),
            MemoryMode::Acc => Self::get_acc(cpu, memory),
            MemoryMode::Immediate => Self::get_imm(cpu, memory),
            MemoryMode::ZeroPage => Self::get_zpg(cpu, memory),
            MemoryMode::ZeroPageX => Self::get_zpgx(cpu, memory),
            MemoryMode::ZeroPageY => Self::get_zpgy(cpu, memory),
            MemoryMode::Relative => Self::get_rel(cpu, memory),
            MemoryMode::Absolute => Self::get_abs(cpu, memory),
            MemoryMode::AbsoluteX => Self::get_absx(cpu, memory),
            MemoryMode::AbsoluteY => Self::get_absy(cpu, memory),
            MemoryMode::Indirect => Self::get_indirect(cpu, memory),
            MemoryMode::IndirectX => Self::get_indirect_x(cpu, memory),
            MemoryMode::IndirectY => Self::get_indirect_y(cpu, memory),
        }
    }
}

} // verus!
