//! LDA, LDX, LDY: load a register with the operand value.

use vstd::prelude::*;

use super::instruction_length;
use super::machine;
use super::with_register;
use super::Register;
use crate::memory::MEM;
use crate::processor::addressable;
use crate::processor::instruction::Instruction;
use crate::processor::length;
use crate::processor::supported;
use crate::processor::with_zn;
use crate::processor::Machine;
use crate::processor::MemoryMode;
use crate::processor::Opcodes;
use crate::processor::CPU;

verus! {

/// After a load: the register holds the operand value, `Z` and `N` follow
/// that value, and the program counter has moved past the instruction.
pub open spec fn load(before: Machine, mode: MemoryMode, target: Register) -> Machine {
    let value = before.operand(mode);
    before.fetch(mode).with_cpu(with_zn(with_register(before.cpu, target, value), value)).advance(
        length(mode),
    )
}

impl CPU {
    /// Loads `target` with the operand value.
    fn execute_load(&mut self, mode: MemoryMode, memory: &mut MEM, target: Register)
        requires
            addressable(old(memory)@),
            mode != MemoryMode::Implicit,
            mode != MemoryMode::Indirect,
        ensures
            addressable(final(memory)@),
            machine(*final(self), final(memory)@) == load(
                machine(*old(self), old(memory)@),
                mode,
                target,
            ),
    {
        let inst = Instruction::get(self, memory, mode);
        let value = inst.value.unwrap();
        match target {
            Register::A => self.store_a(value),
            Register::X => self.store_x(value),
            Register::Y => self.store_y(value),
        }
        self.set_zn(value);
        self.increment_pc(instruction_length(mode));
    }

    /// LDA: loads the accumulator.
    pub fn execute_lda(&mut self, mode: MemoryMode, memory: &mut MEM)
        requires
            addressable(old(memory)@),
            supported(Opcodes::LDA(mode)),
        ensures
            addressable(final(memory)@),
            machine(*final(self), final(memory)@) == load(
                machine(*old(self), old(memory)@),
                mode,
                Register::A,
            ),
    {
        self.execute_load(mode, memory, Register::A)
    }

    /// LDX: loads register X.
    pub fn execute_ldx(&mut self, mode: MemoryMode, memory: &mut MEM)
        requires
            addressable(old(memory)@),
            supported(Opcodes::LDX(mode)),
        ensures
            addressable(final(memory)@),
            machine(*final(self), final(memory)@) == load(
                machine(*old(self), old(memory)@),
                mode,
                Register::X,
            ),
    {
        self.execute_load(mode, memory, Register::X)
    }

    /// LDY: loads register Y.
    pub fn execute_ldy(&mut self, mode: MemoryMode, memory: &mut MEM)
        requires
            addressable(old(memory)@),
            supported(Opcodes::LDY(mode)),
        ensures
            addressable(final(memory)@),
            machine(*final(self), final(memory)@) == load(
                machine(*old(self), old(memory)@),
                mode,
                Register::Y,
            ),
    {
        self.execute_load(mode, memory, Register::Y)
    }
}

} // verus!
