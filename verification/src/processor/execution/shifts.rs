//! ASL, LSR, ROL, ROR: shift or rotate the accumulator or a byte in memory
//! by one bit.

use vstd::prelude::*;

use super::instruction_length;
use super::machine;
use crate::memory::MEM;
use crate::processor::addressable;
use crate::processor::digit;
use crate::processor::instruction::Instruction;
use crate::processor::length;
use crate::processor::supported;
use crate::processor::with_zn;
use crate::processor::Machine;
use crate::processor::MemoryMode;
use crate::processor::Opcodes;
use crate::processor::CPU;

verus! {

/// One of the four shifts.
#[derive(Debug, Clone, Copy, PartialEq, Eq, Structural)]
pub enum Shift {
    /// Shift left; bit 0 becomes 0.
    Asl,
    /// Shift right; bit 7 becomes 0.
    Lsr,
    /// Rotate left through the carry.
    Rol,
    /// Rotate right through the carry.
    Ror,
}

/// The byte that a shift of `value` yields, `carry` being the carry before it.
pub open spec fn shift_result(kind: Shift, value: u8, carry: bool) -> u8 {
    match kind {
        Shift::Asl => ((value * 2) % 256) as u8,
        Shift::Lsr => value / 2,
        Shift::Rol => ((value * 2) % 256 + digit(carry)) as u8,
        Shift::Ror => (value / 2 + 128 * digit(carry)) as u8,
    }
}

/// The carry after a shift of `value`: the bit that was shifted out.
pub open spec fn shift_carry(kind: Shift, value: u8) -> bool {
    match kind {
        Shift::Asl | Shift::Rol => value >= 0x80,
        Shift::Lsr | Shift::Ror => value % 2 == 1,
    }
}

/// After a shift: the result is in the accumulator, or was written at the
/// effective address; `C` holds the bit shifted out, and `Z` and `N` follow
/// the result.
pub open spec fn shift(before: Machine, mode: MemoryMode, kind: Shift) -> Machine {
    let value = before.operand(mode);
    let result = shift_result(kind, value, before.cpu.C);
    let flags = with_zn(CPU { C: shift_carry(kind, value), ..before.cpu }, result);
    if mode == MemoryMode::Acc {
        before.fetch(mode).with_cpu(CPU { A: result, ..flags }).advance(length(mode))
    } else {
        before.fetch(mode).write(before.target(mode), result).with_cpu(flags).advance(
            length(mode),
        )
    }
}

/// The byte that a shift of `value` yields.
fn shifted(kind: Shift, value: u8, carry: bool) -> (r: u8)
    ensures
        r == shift_result(kind, value, carry),
{
    let carry_in: u8 = if carry {
        1
    } else {
        0
    };
    match kind {
        Shift::Asl => (value % 128) * 2,
        Shift::Lsr => value / 2,
        Shift::Rol => (value % 128) * 2 + carry_in,
        Shift::Ror => value / 2 + 128 * carry_in,
    }
}

/// The bit that a shift of `value` shifts out.
fn shifted_out(kind: Shift, value: u8) -> (r: bool)
    ensures
        r == shift_carry(kind, value),
{
    match kind {
        Shift::Asl | Shift::Rol => value >= 0x80,
        Shift::Lsr | Shift::Ror => value % 2 == 1,
    }
}

impl CPU {
    /// Shifts the operand and puts the result back where it came from.
    fn execute_shift(&mut self, mode: MemoryMode, memory: &mut MEM, kind: Shift)
        requires
            addressable(old(memory)@),
            mode == MemoryMode::Acc || mode == MemoryMode::ZeroPage || mode
                == MemoryMode::ZeroPageX || mode == MemoryMode::Absolute || mode
                == MemoryMode::AbsoluteX,
        ensures
            addressable(final(memory)@),
            machine(*final(self), final(memory)@) == shift(
                machine(*old(self), old(memory)@),
                mode,
                kind,
            ),
    {
        let inst = Instruction::get(self, memory, mode);
        let value = inst.value.unwrap();
        let result = shifted(kind, value, self.C);
        self.C = shifted_out(kind, value);
        self.set_zn(result);
        match mode {
            MemoryMode::Acc => self.store_a(result),
            _ => memory.write(inst.memory_address.unwrap() as usize, result),
        }
        self.increment_pc(instruction_length(mode));
    }

    /// ASL: shifts left by one bit.
    pub fn execute_asl(&mut self, mode: MemoryMode, memory: &mut MEM)
        requires
            addressable(old(memory)@),
            supported(Opcodes::ASL(mode)),
        ensures
            addressable(final(memory)@),
            machine(*final(self), final(memory)@) == shift(
                machine(*old(self), old(memory)@),
                mode,
                Shift::Asl,
            ),
    {
        self.execute_shift(mode, memory, Shift::Asl)
    }

    /// LSR: shifts right by one bit.
    pub fn execute_lsr(&mut self, mode: MemoryMode, memory: &mut MEM)
        requires
            addressable(old(memory)@),
            supported(Opcodes::LSR(mode)),
        ensures
            addressable(final(memory)@),
            machine(*final(self), final(memory)@) == shift(
                machine(*old(self), old(memory)@),
                mode,
                Shift::Lsr,
            ),
    {
        self.execute_shift(mode, memory, Shift::Lsr)
    }

    /// ROL: rotates left by one bit through the carry.
    pub fn execute_rol(&mut self, mode: MemoryMode, memory: &mut MEM)
        requires
            addressable(old(memory)@),
            supported(Opcodes::ROL(mode)),
        ensures
            addressable(final(memory)@),
            machine(*final(self), final(memory)@) == shift(
                machine(*old(self), old(memory)@),
                mode,
                Shift::Rol,
            ),
    {
        self.execute_shift(mode, memory, Shift::Rol)
    }

    /// ROR: rotates right by one bit through the carry.
    pub fn execute_ror(&mut self, mode: MemoryMode, memory: &mut MEM)
        requires
            addressable(old(memory)@),
            supported(Opcodes::ROR(mode)),
        ensures
            addressable(final(memory)@),
            machine(*final(self), final(memory)@) == shift(
                machine(*old(self), old(memory)@),
                mode,
                Shift::Ror,
            ),
    {
        self.execute_shift(mode, memory, Shift::Ror)
    }
}

} // verus!
