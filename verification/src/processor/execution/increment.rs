//! INC, INX, INY: add one to a byte in memory or to an index register.

use vstd::prelude::*;

use super::instruction_length;
use super::machine;
use super::register;
use super::with_register;
use super::Register;
use crate::memory::MEM;
use crate::processor::addressable;
use crate::processor::instruction::Instruction;
use crate::processor::length;
use crate::processor::supported;
use crate::processor::wrap16;
use crate::processor::wrap8;
use crate::processor::with_zn;
use crate::processor::Machine;
use crate::processor::MemoryMode;
use crate::processor::Opcodes;
use crate::processor::CPU;
use crate::types::Wrapped;

verus! {

/// After `INC`: the byte at the effective address went one up,
/// modulo 256, and `Z` and `N` follow the new byte.
pub open spec fn incremented(before: Machine, mode: MemoryMode) -> Machine {
    let result = wrap8(before.operand(mode) + 1) as u8;
    before.fetch(mode).write(before.target(mode), result).with_cpu(
        with_zn(before.cpu, result),
    ).advance(length(mode))
}

/// The processor after `INX` or `INY`: the register went one up,
/// modulo 256, and `Z` and `N` follow its new value.
pub open spec fn incremented_register(before: CPU, target: Register) -> CPU {
    let result = wrap8(register(before, target) + 1) as u8;
    let after = with_zn(with_register(before, target, result), result);
    CPU { PC: wrap16(before.PC + 1) as u16, ..after }
}

impl CPU {
    /// INC: moves the byte at the effective address one up.
    pub fn execute_inc(&mut self, mode: MemoryMode, memory: &mut MEM)
        requires
            addressable(old(memory)@),
            supported(Opcodes::INC(mode)),
        ensures
            addressable(final(memory)@),
            machine(*final(self), final(memory)@) == incremented(
                machine(*old(self), old(memory)@),
                mode,
            ),
    {
        let inst = Instruction::get(self, memory, mode);
        let result = (Wrapped::from(inst.value.unwrap()) + 1).to_u8();
        memory.write(inst.memory_address.unwrap() as usize, result);
        self.set_zn(result);
        self.increment_pc(instruction_length(mode));
    }

    /// INX: moves register X one up.
    pub fn execute_inx(&mut self, mode: MemoryMode)
        requires
            supported(Opcodes::INX(mode)),
        ensures
            *final(self) == incremented_register(*old(self), Register::X),
    {
        self.execute_inx_imp()
    }

    /// INX in its one addressing mode.
    pub fn execute_inx_imp(&mut self)
        ensures
            *final(self) == incremented_register(*old(self), Register::X),
    {
        let result = (Wrapped::from(self.get_x()) + 1).to_u8();
        self.store_x(result);
        self.set_zn(result);
        self.increment_pc(1);
    }

    /// INY: moves register Y one up.
    pub fn execute_iny(&mut self, mode: MemoryMode)
        requires
            supported(Opcodes::INY(mode)),
        ensures
            *final(self) == incremented_register(*old(self), Register::Y),
    {
        self.execute_iny_imp()
    }

    /// INY in its one addressing mode.
    pub fn execute_iny_imp(&mut self)
        ensures
            *final(self) == incremented_register(*old(self), Register::Y),
    {
        let result = (Wrapped::from(self.get_y()) + 1).to_u8();
        self.store_y(result);
        self.set_zn(result);
        self.increment_pc(1);
    }
}

} // verus!
