//! AND, EOR, ORA and BIT: bitwise logic on the accumulator.

use vstd::prelude::*;

use super::instruction_length;
use super::machine;
use crate::memory::MEM;
use crate::processor::addressable;
use crate::processor::instruction::Instruction;
use crate::processor::length;
use crate::processor::supported;
use crate::processor::with_zn;
use crate::processor::Machine;
use crate::processor::MemoryMode;
use crate::processor::Opcodes;
use crate::processor::CPU;

verus! {

/// One of the three bitwise operations that leave their result in the accumulator.
#[derive(Debug, Clone, Copy, PartialEq, Eq, Structural)]
pub enum Bitwise {
    And,
    Eor,
    Ora,
}

/// The result of a bitwise operation on the accumulator `a` and the operand `m`.
pub open spec fn combine(operation: Bitwise, a: u8, m: u8) -> u8 {
    match operation {
        Bitwise::And => a & m,
        Bitwise::Eor => a ^ m,
        Bitwise::Ora => a | m,
    }
}

/// After `AND`, `EOR` or `ORA`: the accumulator holds the result, and `Z`
/// and `N` follow it.
pub open spec fn logic(before: Machine, mode: MemoryMode, operation: Bitwise) -> Machine {
    let result = combine(operation, before.cpu.A, before.operand(mode));
    before.fetch(mode).with_cpu(with_zn(CPU { A: result, ..before.cpu }, result)).advance(
        length(mode),
    )
}

/// After `BIT`: `Z` tells whether the accumulator and the operand share no
/// bit, `V` is bit 6 of the operand and `N` its bit 7. The accumulator is
/// unchanged.
pub open spec fn bit_test(before: Machine, mode: MemoryMode) -> Machine {
    let value = before.operand(mode);
    before.fetch(mode).with_cpu(
        CPU {
            Z: before.cpu.A & value == 0,
            V: (value / 64) % 2 == 1,
            N: value >= 0x80,
            ..before.cpu
        },
    ).advance(length(mode))
}

impl CPU {
    /// Combines the accumulator with the operand.
    fn execute_logic(&mut self, mode: MemoryMode, memory: &mut MEM, operation: Bitwise)
        requires
            addressable(old(memory)@),
            mode != MemoryMode::Implicit,
            mode != MemoryMode::Indirect,
        ensures
            addressable(final(memory)@),
            machine(*final(self), final(memory)@) == logic(
                machine(*old(self), old(memory)@),
                mode,
                operation,
            ),
    {
        let inst = Instruction::get(self, memory, mode);
        let value = inst.value.unwrap();
        let result = match operation {
            Bitwise::And => self.get_a() & value,
            Bitwise::Eor => self.get_a() ^ value,
            Bitwise::Ora => self.get_a() | value,
        };
        self.store_a(result);
        self.set_zn(result);
        self.increment_pc(instruction_length(mode));
    }

    /// AND: keeps the bits that the accumulator and the operand share.
    pub fn execute_and(&mut self, mode: MemoryMode, memory: &mut MEM)
        requires
            addressable(old(memory)@),
            supported(Opcodes::AND(mode)),
        ensures
            addressable(final(memory)@),
            machine(*final(self), final(memory)@) == logic(
                machine(*old(self), old(memory)@),
                mode,
                Bitwise::And,
            ),
    {
        self.execute_logic(mode, memory, Bitwise::And)
    }

    /// EOR: keeps the bits in which the accumulator and the operand differ.
    pub fn execute_eor(&mut self, mode: MemoryMode, memory: &mut MEM)
        requires
            addressable(old(memory)@),
            supported(Opcodes::EOR(mode)),
        ensures
            addressable(final(memory)@),
            machine(*final(self), final(memory)@) == logic(
                machine(*old(self), old(memory)@),
                mode,
                Bitwise::Eor,
            ),
    {
        self.execute_logic(mode, memory, Bitwise::Eor)
    }

    /// ORA: keeps the bits that the accumulator or the operand holds.
    pub fn execute_ora(&mut self, mode: MemoryMode, memory: &mut MEM)
        requires
            addressable(old(memory)@),
            supported(Opcodes::ORA(mode)),
        ensures
            addressable(final(memory)@),
            machine(*final(self), final(memory)@) == logic(
                machine(*old(self), old(memory)@),
                mode,
                Bitwise::Ora,
            ),
    {
        self.execute_logic(mode, memory, Bitwise::Ora)
    }

    /// BIT: tests the operand against the accumulator.
    pub fn execute_bit(&mut self, mode: MemoryMode, memory: &mut MEM)
        requires
            addressable(old(memory)@),
            supported(Opcodes::BIT(mode)),
        ensures
            addressable(final(memory)@),
            machine(*final(self), final(memory)@) == bit_test(
                machine(*old(self), old(memory)@),
                mode,
            ),
    {
        let inst = Instruction::get(self, memory, mode);
        let value = inst.value.unwrap();
        self.Z = self.A & value == 0;
        self.V = (value / 64) % 2 == 1;
        self.N = value >= 0x80;
        self.increment_pc(instruction_length(mode));
    }
}

} // verus!
