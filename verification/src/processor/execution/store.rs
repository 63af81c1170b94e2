//! STA, STX, STY: store a register at the effective address.

use vstd::prelude::*;

use super::instruction_length;
use super::machine;
use super::register;
use super::Register;
use crate::memory::MEM;
use crate::processor::addressable;
use crate::processor::instruction::Instruction;
use crate::processor::length;
use crate::processor::supported;
use crate::processor::Machine;
use crate::processor::MemoryMode;
use crate::processor::Opcodes;
use crate::processor::CPU;

verus! {

/// After a store: the register's value was written at the effective
/// address. No flag changes.
pub open spec fn store(before: Machine, mode: MemoryMode, source: Register) -> Machine {
    before.fetch(mode).write(before.target(mode), register(before.cpu, source)).advance(
        length(mode),
    )
}

impl CPU {
    /// Stores the value of `source` at the effective address.
    fn execute_store(&mut self, mode: MemoryMode, memory: &mut MEM, source: Register)
        requires
            addressable(old(memory)@),
            mode != MemoryMode::Implicit,
            mode != MemoryMode::Acc,
            mode != MemoryMode::Immediate,
        ensures
            addressable(final(memory)@),
            machine(*final(self), final(memory)@) == store(
                machine(*old(self), old(memory)@),
                mode,
                source,
            ),
    {
        let inst = Instruction::get(self, memory, mode);
        let value = match source {
            Register::A => self.get_a(),
            Register::X => self.get_x(),
            Register::Y => self.get_y(),
        };
        memory.write(inst.memory_address.unwrap() as usize, value);
        self.increment_pc(instruction_length(mode));
    }

    /// STA: stores the accumulator.
    pub fn execute_sta(&mut self, mode: MemoryMode, memory: &mut MEM)
        requires
            addressable(old(memory)@),
            supported(Opcodes::STA(mode)),
        ensures
            addressable(final(memory)@),
            machine(*final(self), final(memory)@) == store(
                machine(*old(self), old(memory)@),
                mode,
                Register::A,
            ),
    {
        self.execute_store(mode, memory, Register::A)
    }

    /// STX: stores register X.
    pub fn execute_stx(&mut self, mode: MemoryMode, memory: &mut MEM)
        requires
            addressable(old(memory)@),
            supported(Opcodes::STX(mode)),
        ensures
            addressable(final(memory)@),
            machine(*final(self), final(memory)@) == store(
                machine(*old(self), old(memory)@),
                mode,
                Register::X,
            ),
    {
        self.execute_store(mode, memory, Register::X)
    }

    /// STY: stores register Y.
    pub fn execute_sty(&mut self, mode: MemoryMode, memory: &mut MEM)
        requires
            addressable(old(memory)@),
            supported(Opcodes::STY(mode)),
        ensures
            addressable(final(memory)@),
            machine(*final(self), final(memory)@) == store(
                machine(*old(self), old(memory)@),
                mode,
                Register::Y,
            ),
    {
        self.execute_store(mode, memory, Register::Y)
    }
}

} // verus!
