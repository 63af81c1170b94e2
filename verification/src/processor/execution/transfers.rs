//! TAX, TAY, TXA, TYA, TSX, TXS: copy one register to another.

use vstd::prelude::*;

use super::register;
use super::with_register;
use super::Register;
use crate::memory::MEM;
use crate::processor::wrap16;
use crate::processor::with_zn;
use crate::processor::CPU;

verus! {

/// After a transfer of `value` to `target`: the register holds it, and `Z`
/// and `N` follow it.
pub open spec fn transfer(before: CPU, value: u8, target: Register) -> CPU {
    let after = with_zn(with_register(before, target, value), value);
    CPU { PC: wrap16(before.PC + 1) as u16, ..after }
}

/// After `TXS`: the stack pointer holds X. No flag changes.
pub open spec fn transfer_to_stack_pointer(before: CPU) -> CPU {
    CPU { S: before.X, PC: wrap16(before.PC + 1) as u16, ..before }
}

impl CPU {
    /// Copies `value` to `target` and sets `Z` and `N` from it.
    fn execute_transfer(&mut self, value: u8, target: Register)
        ensures
            *final(self) == transfer(*old(self), value, target),
    {
        match target {
            Register::A => self.store_a(value),
            Register::X => self.store_x(value),
            Register::Y => self.store_y(value),
        }
        self.set_zn(value);
        self.increment_pc(1);
    }

    /// TAX: copies the accumulator to X.
    pub fn execute_tax(&mut self, memory: &mut MEM)
        ensures
            final(memory)@ == old(memory)@,
            *final(self) == transfer(*old(self), old(self).A, Register::X),
    {
        let value = self.get_a();
        self.execute_transfer(value, Register::X);
    }

    /// TAY: copies the accumulator to Y.
    pub fn execute_tay(&mut self, memory: &mut MEM)
        ensures
            final(memory)@ == old(memory)@,
            *final(self) == transfer(*old(self), old(self).A, Register::Y),
    {
        let value = self.get_a();
        self.execute_transfer(value, Register::Y);
    }

    /// TXA: copies X to the accumulator.
    pub fn execute_txa(&mut self, memory: &mut MEM)
        ensures
            final(memory)@ == old(memory)@,
            *final(self) == transfer(*old(self), old(self).X, Register::A),
    {
        let value = self.get_x();
        self.execute_transfer(value, Register::A);
    }

    /// TYA: copies Y to the accumulator.
    pub fn execute_tya(&mut self, memory: &mut MEM)
        ensures
            final(memory)@ == old(memory)@,
            *final(self) == transfer(*old(self), old(self).Y, Register::A),
    {
        let value = self.get_y();
        self.execute_transfer(value, Register::A);
    }

    /// TSX: copies the stack pointer to X.
    pub fn execute_tsx(&mut self, memory: &mut MEM)
        ensures
            final(memory)@ == old(memory)@,
            *final(self) == transfer(*old(self), old(self).S, Register::X),
    {
        let value = self.get_s();
        self.execute_transfer(value, Register::X);
    }

    /// TXS: copies X to the stack pointer. No flag changes.
    pub fn execute_txs(&mut self, memory: &mut MEM)
        ensures
            final(memory)@ == old(memory)@,
            *final(self) == transfer_to_stack_pointer(*old(self)),
    {
        let value = self.get_x();
        self.store_s(value);
        self.increment_pc(1);
    }
}

} // verus!
