//! PHA, PHP, PLA, PLP: push and pull the accumulator and the flags.

use vstd::prelude::*;

use super::machine;
use crate::memory::MEM;
use crate::processor::addressable;
use crate::processor::supported;
use crate::processor::with_zn;
use crate::processor::Machine;
use crate::processor::MemoryMode;
use crate::processor::Opcodes;
use crate::processor::CPU;
use crate::processor::status_byte;
use crate::processor::with_status;

verus! {

/// After `PHA`: the accumulator was pushed.
pub open spec fn push_accumulator(before: Machine) -> Machine {
    before.push(before.cpu.A).advance(1)
}

/// After `PHP`: the status byte was pushed, with bits 4 and 5 set.
pub open spec fn push_flags(before: Machine) -> Machine {
    before.push(status_byte(CPU { B: true, ..before.cpu }) as u8).advance(1)
}

/// After `PLA`: the accumulator holds the byte that was pulled, and `Z`
/// and `N` follow it.
pub open spec fn pull_accumulator(before: Machine) -> Machine {
    let value = before.top();
    let pulled = before.pull();
    pulled.with_cpu(with_zn(CPU { A: value, ..pulled.cpu }, value)).advance(1)
}

/// After `PLP`: the flags were loaded from the byte that was pulled. Bits
/// 4 and 5 of that byte are ignored: `B` keeps the value it had.
pub open spec fn pull_flags(before: Machine) -> Machine {
    let status = before.top();
    let pulled = before.pull();
    pulled.with_cpu(with_status(pulled.cpu, status)).advance(1)
}

impl CPU {
    /// PHA: pushes the accumulator.
    pub fn execute_pha(&mut self, mode: MemoryMode, memory: &mut MEM)
        requires
            addressable(old(memory)@),
            supported(Opcodes::PHA(mode)),
        ensures
            addressable(final(memory)@),
            machine(*final(self), final(memory)@) == push_accumulator(
                machine(*old(self), old(memory)@),
            ),
    {
        let value = self.get_a();
        self.push_stack(value, memory);
        self.increment_pc(1);
    }

    /// PHP: pushes the status byte with bits 4 and 5 set.
    pub fn execute_php(&mut self, mode: MemoryMode, memory: &mut MEM)
        requires
            addressable(old(memory)@),
            supported(Opcodes::PHP(mode)),
        ensures
            addressable(final(memory)@),
            machine(*final(self), final(memory)@) == push_flags(machine(*old(self), old(memory)@)),
    {
        let pushed = CPU { B: true, ..*self };
        let value = pushed.store_status();
        self.push_stack(value, memory);
        self.increment_pc(1);
    }

    /// PLA: pulls the accumulator and sets `Z` and `N` from it.
    pub fn execute_pla(&mut self, mode: MemoryMode, memory: &mut MEM)
        requires
            addressable(old(memory)@),
            supported(Opcodes::PLA(mode)),
        ensures
            addressable(final(memory)@),
            machine(*final(self), final(memory)@) == pull_accumulator(
                machine(*old(self), old(memory)@),
            ),
    {
        let value = self.pull_stack(memory);
        self.store_a(value);
        self.set_zn(value);
        self.increment_pc(1);
    }

    /// PLP: pulls the flags. `B` keeps the value it had.
    pub fn execute_plp(&mut self, mode: MemoryMode, memory: &mut MEM)
        requires
            addressable(old(memory)@),
            supported(Opcodes::PLP(mode)),
        ensures
            addressable(final(memory)@),
            machine(*final(self), final(memory)@) == pull_flags(machine(*old(self), old(memory)@)),
    {
        let value = self.pull_stack(memory);
        self.load_status(value);
        self.increment_pc(1);
    }
}

} // verus!
