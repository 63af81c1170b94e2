//! JMP, JSR, RTS: jumps and subroutines.

use vstd::prelude::*;

use super::machine;
use crate::memory::hooks::MemoryOperation;
use crate::memory::MEM;
use crate::processor::STACK_BASE;
use crate::processor::addressable;
use crate::processor::instruction::Instruction;
use crate::processor::supported;
use crate::processor::wrap16;
use crate::processor::wrap8;
use crate::processor::Machine;
use crate::processor::MemoryMode;
use crate::processor::Opcodes;
use crate::processor::CPU;
use crate::types::Wrapped;

verus! {

/// After `JMP`: the program counter holds the effective address.
pub open spec fn jump(before: Machine, mode: MemoryMode) -> Machine {
    before.fetch(mode).with_cpu(CPU { PC: before.target(mode) as u16, ..before.cpu })
}

/// The address that `JSR` pushes: that of the last byte of the instruction.
pub open spec fn return_address(cpu: CPU) -> int {
    wrap16(cpu.PC + 2)
}

/// After `JSR`: the address of the last byte of the instruction was
/// pushed, high byte first, and the program counter holds the effective
/// address.
pub open spec fn jump_to_subroutine(before: Machine, mode: MemoryMode) -> Machine {
    let pushed = before.fetch(mode).push((return_address(before.cpu) / 256) as u8).push(
        (return_address(before.cpu) % 256) as u8,
    );
    pushed.with_cpu(CPU { PC: before.target(mode) as u16, ..pushed.cpu })
}

/// After `RTS`: the low byte, then the high byte of an address were
/// pulled, and the program counter holds that address plus one.
pub open spec fn return_from_subroutine(before: Machine) -> Machine {
    let low = before.top();
    let high = before.pull().top();
    let pulled = before.pull().pull();
    pulled.with_cpu(CPU { PC: wrap16(low + 256 * high + 1) as u16, ..pulled.cpu })
}

/// A subroutine call followed by a return continues at the instruction
/// after the call, with the stack pointer as it was before the call. This
/// holds wherever the two stack cells that the call writes are not
/// protected and are two different cells of memory.
pub proof fn lemma_call_then_return(before: Machine)
    requires
        addressable(before.memory),
        !before.memory.protected(STACK_BASE + before.cpu.S),
        !before.memory.protected(STACK_BASE + wrap8(before.cpu.S - 1)),
        before.memory.redirect(STACK_BASE + before.cpu.S) != before.memory.redirect(
            STACK_BASE + wrap8(before.cpu.S - 1),
        ),
    ensures
        return_from_subroutine(jump_to_subroutine(before, MemoryMode::Absolute)).cpu.PC == wrap16(
            before.cpu.PC + 3,
        ),
        return_from_subroutine(jump_to_subroutine(before, MemoryMode::Absolute)).cpu.S
            == before.cpu.S,
{
    let fetched = before.fetch(MemoryMode::Absolute);
    before.memory.lemma_reads_keep_wf(
        crate::processor::instruction::reads(before.cpu, before.memory, MemoryMode::Absolute),
    );
    let high = (return_address(before.cpu) / 256) as u8;
    let low = (return_address(before.cpu) % 256) as u8;
    let first = STACK_BASE + before.cpu.S;
    let second = STACK_BASE + wrap8(before.cpu.S - 1);
    fetched.memory.lemma_access_keeps_wf(MemoryOperation::Write, first, high);
    let once = fetched.push(high);
    once.memory.lemma_access_keeps_wf(MemoryOperation::Write, second, low);
    once.memory.lemma_access_keeps_wf(MemoryOperation::Write, first, low);
    let twice = once.push(low);
    assert(twice.top() == low);
    twice.memory.lemma_read_keeps_wf(second, 1);
    assert(twice.pull().cpu.S == wrap8(before.cpu.S - 1));
    assert(twice.memory.read_byte(first) == high);
    assert(twice.pull().top() == high);
    twice.pull().memory.lemma_read_keeps_wf(first, 1);
}

impl CPU {
    /// JMP: continues at the effective address.
    pub fn execute_jmp(&mut self, mode: MemoryMode, memory: &mut MEM)
        requires
            addressable(old(memory)@),
            supported(Opcodes::JMP(mode)),
        ensures
            addressable(final(memory)@),
            machine(*final(self), final(memory)@) == jump(machine(*old(self), old(memory)@), mode),
    {
        let inst = Instruction::get(self, memory, mode);
        self.store_pc(inst.memory_address.unwrap());
    }

    /// JSR: pushes the return address and continues at the effective address.
    #[allow(non_snake_case)]
    pub fn execute_jsr(&mut self, mode: MemoryMode, memory: &mut MEM)
        requires
            addressable(old(memory)@),
            supported(Opcodes::JSR(mode)),
        ensures
            addressable(final(memory)@),
            machine(*final(self), final(memory)@) == jump_to_subroutine(
                machine(*old(self), old(memory)@),
                mode,
            ),
    {
        let inst = Instruction::get(self, memory, mode);
        let memory_address = inst.memory_address.unwrap();
        self.increment_pc(2);
        let PCH: u8 = (self.get_pc() / 256) as u8;
        let PCL: u8 = (self.get_pc() % 256) as u8;
        self.push_stack(PCH, memory);
        self.push_stack(PCL, memory);
        self.store_pc(memory_address);
    }

    /// RTS: pulls the return address and continues one past it.
    #[allow(non_snake_case)]
    pub fn execute_rts(&mut self, mode: MemoryMode, memory: &mut MEM)
        requires
            addressable(old(memory)@),
            supported(Opcodes::RTS(mode)),
        ensures
            addressable(final(memory)@),
            machine(*final(self), final(memory)@) == return_from_subroutine(
                machine(*old(self), old(memory)@),
            ),
    {
        let PCL = self.pull_stack(memory);
        let PCH = self.pull_stack(memory);
        let address = crate::memory::combinatorics::combine_operands(PCL, PCH);
        self.store_pc((Wrapped::from(address) + 1).to_u16());
    }
}

} // verus!
