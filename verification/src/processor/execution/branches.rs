//! BCC, BCS, BEQ, BNE, BMI, BPL, BVC, BVS: branch on a flag.

use vstd::prelude::*;

use super::machine;
use crate::memory::MEM;
use crate::processor::addressable;
use crate::processor::instruction::Instruction;
use crate::processor::signed;
use crate::processor::wrap16;
use crate::processor::Machine;
use crate::processor::MemoryMode;
use crate::processor::CPU;

verus! {

/// After a branch: the program counter has moved past the instruction,
/// and, where the branch is taken, on by the signed offset in the operand.
pub open spec fn branch(before: Machine, taken: bool) -> Machine {
    let next = if taken {
        before.target(MemoryMode::Relative)
    } else {
        wrap16(before.cpu.PC + 2)
    };
    before.fetch(MemoryMode::Relative).with_cpu(CPU { PC: next as u16, ..before.cpu })
}

impl CPU {
    /// Branches when `result` holds.
    fn execute_branch(&mut self, memory: &mut MEM, result: bool)
        requires
            addressable(old(memory)@),
        ensures
            addressable(final(memory)@),
            machine(*final(self), final(memory)@) == branch(
                machine(*old(self), old(memory)@),
                result,
            ),
    {
        let inst = Instruction::get_rel(self, memory);
        if result {
            self.store_pc(inst.memory_address.unwrap());
        } else {
            self.increment_pc(2);
        }
    }

    /// BCC: branches when the carry is clear.
    pub fn execute_bcc(&mut self, memory: &mut MEM)
        requires
            addressable(old(memory)@),
        ensures
            addressable(final(memory)@),
            machine(*final(self), final(memory)@) == branch(
                machine(*old(self), old(memory)@),
                !old(self).C,
            ),
    {
        let taken = !self.C;
        self.execute_branch(memory, taken);
    }

    /// BCS: branches when the carry is set.
    pub fn execute_bcs(&mut self, memory: &mut MEM)
        requires
            addressable(old(memory)@),
        ensures
            addressable(final(memory)@),
            machine(*final(self), final(memory)@) == branch(
                machine(*old(self), old(memory)@),
                old(self).C,
            ),
    {
        let taken = self.C;
        self.execute_branch(memory, taken);
    }

    /// BEQ: branches when the last result was zero.
    pub fn execute_beq(&mut self, memory: &mut MEM)
        requires
            addressable(old(memory)@),
        ensures
            addressable(final(memory)@),
            machine(*final(self), final(memory)@) == branch(
                machine(*old(self), old(memory)@),
                old(self).Z,
            ),
    {
        let taken = self.Z;
        self.execute_branch(memory, taken);
    }

    /// BNE: branches when the last result was not zero.
    pub fn execute_bne(&mut self, memory: &mut MEM)
        requires
            addressable(old(memory)@),
        ensures
            addressable(final(memory)@),
            machine(*final(self), final(memory)@) == branch(
                machine(*old(self), old(memory)@),
                !old(self).Z,
            ),
    {
        let taken = !self.Z;
        self.execute_branch(memory, taken);
    }

    /// BMI: branches when the last result was negative.
    pub fn execute_bmi(&mut self, memory: &mut MEM)
        requires
            addressable(old(memory)@),
        ensures
            addressable(final(memory)@),
            machine(*final(self), final(memory)@) == branch(
                machine(*old(self), old(memory)@),
                old(self).N,
            ),
    {
        let taken = self.N;
        self.execute_branch(memory, taken);
    }

    /// BPL: branches when the last result was not negative.
    pub fn execute_bpl(&mut self, memory: &mut MEM)
        requires
            addressable(old(memory)@),
        ensures
            addressable(final(memory)@),
            machine(*final(self), final(memory)@) == branch(
                machine(*old(self), old(memory)@),
                !old(self).N,
            ),
    {
        let taken = !self.N;
        self.execute_branch(memory, taken);
    }

    /// BVC: branches when the overflow flag is clear.
    pub fn execute_bvc(&mut self, memory: &mut MEM)
        requires
            addressable(old(memory)@),
        ensures
            addressable(final(memory)@),
            machine(*final(self), final(memory)@) == branch(
                machine(*old(self), old(memory)@),
                !old(self).V,
            ),
    {
        let taken = !self.V;
        self.execute_branch(memory, taken);
    }

    /// BVS: branches when the overflow flag is set.
    pub fn execute_bvs(&mut self, memory: &mut MEM)
        requires
            addressable(old(memory)@),
        ensures
            addressable(final(memory)@),
            machine(*final(self), final(memory)@) == branch(
                machine(*old(self), old(memory)@),
                old(self).V,
            ),
    {
        let taken = self.V;
        self.execute_branch(memory, taken);
    }
}

} // verus!
