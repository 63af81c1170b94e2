//! ADC, SBC, CMP, CPX, CPY: binary arithmetic and comparison. There is no
//! decimal mode.

use vstd::prelude::*;

use super::instruction_length;
use super::machine;
use super::register;
use super::Register;
use crate::memory::MEM;
use crate::processor::addressable;
use crate::processor::digit;
use crate::processor::instruction::Instruction;
use crate::processor::length;
use crate::processor::signed;
use crate::processor::supported;
use crate::processor::wrap8;
use crate::processor::with_zn;
use crate::processor::Machine;
use crate::processor::MemoryMode;
use crate::processor::Opcodes;
use crate::processor::CPU;
use crate::types::Wrapped;

verus! {

/// The overflow flag of an addition of `a` and `m` with result `result`:
/// set when both summands have the same sign and the result has the other.
pub open spec fn overflow_flag(a: u8, m: u8, result: u8) -> bool {
    (!(a ^ m) & (a ^ result) & 0x80) != 0
}

/// The processor after `value` and the carry were added to the
/// accumulator: the accumulator holds the sum modulo 256, `C` tells whether
/// the sum passed 255, `V` whether it overflowed as a signed sum, and `Z` and
/// `N` follow the result.
pub open spec fn add_with_carry(cpu: CPU, value: u8) -> CPU {
    let sum = cpu.A + value + digit(cpu.C);
    let result = (sum % 256) as u8;
    with_zn(
        CPU { A: result, C: sum > 0xFF, V: overflow_flag(cpu.A, value, result), ..cpu },
        result,
    )
}

/// After `ADC`.
pub open spec fn add_operand(before: Machine, mode: MemoryMode) -> Machine {
    before.fetch(mode).with_cpu(add_with_carry(before.cpu, before.operand(mode))).advance(
        length(mode),
    )
}

/// After `SBC`: as `ADC` of the operand with every bit inverted, so that
/// `C` stands for "no borrow".
pub open spec fn subtract_operand(before: Machine, mode: MemoryMode) -> Machine {
    before.fetch(mode).with_cpu(
        add_with_carry(before.cpu, (0xFF - before.operand(mode)) as u8),
    ).advance(length(mode))
}

/// After a comparison of a register with the operand: `C` tells whether
/// the register is at least the operand, `Z` whether they are equal, and `N`
/// is bit 7 of their difference modulo 256. The register is unchanged.
pub open spec fn compare(before: Machine, mode: MemoryMode, source: Register) -> Machine {
    let left = register(before.cpu, source);
    let right = before.operand(mode);
    before.fetch(mode).with_cpu(
        CPU { C: left >= right, Z: left == right, N: wrap8(left - right) >= 0x80, ..before.cpu },
    ).advance(length(mode))
}

/// The overflow flag of an addition is set exactly when the sum of the
/// summands, read as signed bytes, and of the carry leaves the range of a
/// signed byte.
pub proof fn lemma_adc_overflow_is_signed_overflow(cpu: CPU, value: u8)
    ensures
        add_with_carry(cpu, value).V <==> !(-128 <= signed(cpu.A) + signed(value) + digit(cpu.C)
            <= 127),
{
    let a = cpu.A;
    let result = ((a + value + digit(cpu.C)) % 256) as u8;
    assert(overflow_flag(a, value, result) == ((a >= 0x80) == (value >= 0x80) && (a >= 0x80) != (
    result >= 0x80))) by (bit_vector);
}

/// The overflow flag of a subtraction is set exactly when the difference
/// of the accumulator and the operand, read as signed bytes, less the
/// borrow leaves the range of a signed byte. The borrow is the inverse of
/// the carry.
pub proof fn lemma_sbc_overflow_is_signed_overflow(cpu: CPU, value: u8)
    ensures
        add_with_carry(cpu, (0xFF - value) as u8).V <==> !(-128 <= signed(cpu.A) - signed(value)
            - (1 - digit(cpu.C)) <= 127),
        add_with_carry(cpu, (0xFF - value) as u8).A == wrap8(cpu.A - value - (1 - digit(cpu.C))),
        add_with_carry(cpu, (0xFF - value) as u8).C <==> cpu.A - value - (1 - digit(cpu.C)) >= 0,
{
    lemma_adc_overflow_is_signed_overflow(cpu, (0xFF - value) as u8);
}

impl CPU {
    /// Adds `value` and the carry to the accumulator.
    fn add_to_accumulator(&mut self, value: u8)
        ensures
            *final(self) == add_with_carry(*old(self), value),
    {
        let a = self.get_a();
        let carry_in: u16 = if self.C {
            1
        } else {
            0
        };
        let sum: u16 = a as u16 + value as u16 + carry_in;
        let result: u8 = (sum % 256) as u8;
        self.C = sum > 0xFF;
        self.V = (!(a ^ value) & (a ^ result) & 0x80) != 0;
        self.store_a(result);
        self.set_zn(result);
    }

    /// ADC: adds the operand and the carry to the accumulator.
    pub fn execute_adc(&mut self, mode: MemoryMode, memory: &mut MEM)
        requires
            addressable(old(memory)@),
            supported(Opcodes::ADC(mode)),
        ensures
            addressable(final(memory)@),
            machine(*final(self), final(memory)@) == add_operand(
                machine(*old(self), old(memory)@),
                mode,
            ),
    {
        let inst = Instruction::get(self, memory, mode);
        self.add_to_accumulator(inst.value.unwrap());
        self.increment_pc(instruction_length(mode));
    }

    /// SBC: subtracts the operand and the borrow from the accumulator.
    pub fn execute_sbc(&mut self, mode: MemoryMode, memory: &mut MEM)
        requires
            addressable(old(memory)@),
            supported(Opcodes::SBC(mode)),
        ensures
            addressable(final(memory)@),
            machine(*final(self), final(memory)@) == subtract_operand(
                machine(*old(self), old(memory)@),
                mode,
            ),
    {
        let inst = Instruction::get(self, memory, mode);
        self.add_to_accumulator(0xFF - inst.value.unwrap());
        self.increment_pc(instruction_length(mode));
    }

    /// Compares the value of `source` with the operand.
    fn execute_compare(&mut self, mode: MemoryMode, memory: &mut MEM, source: Register)
        requires
            addressable(old(memory)@),
            mode != MemoryMode::Implicit,
            mode != MemoryMode::Indirect,
        ensures
            addressable(final(memory)@),
            machine(*final(self), final(memory)@) == compare(
                machine(*old(self), old(memory)@),
                mode,
                source,
            ),
    {
        let inst = Instruction::get(self, memory, mode);
        let right = inst.value.unwrap();
        let left = match source {
            Register::A => self.get_a(),
            Register::X => self.get_x(),
            Register::Y => self.get_y(),
        };
        let difference = (Wrapped::from(left) - Wrapped::from(right)).to_u8();
        self.C = left >= right;
        self.Z = left == right;
        self.N = difference >= 0x80;
        self.increment_pc(instruction_length(mode));
    }

    /// CMP: compares the accumulator with the operand.
    pub fn execute_cmp(&mut self, mode: MemoryMode, memory: &mut MEM)
        requires
            addressable(old(memory)@),
            supported(Opcodes::CMP(mode)),
        ensures
            addressable(final(memory)@),
            machine(*final(self), final(memory)@) == compare(
                machine(*old(self), old(memory)@),
                mode,
                Register::A,
            ),
    {
        self.execute_compare(mode, memory, Register::A)
    }

    /// CPX: compares register X with the operand.
    pub fn execute_cpx(&mut self, mode: MemoryMode, memory: &mut MEM)
        requires
            addressable(old(memory)@),
            supported(Opcodes::CPX(mode)),
        ensures
            addressable(final(memory)@),
            machine(*final(self), final(memory)@) == compare(
                machine(*old(self), old(memory)@),
                mode,
                Register::X,
            ),
    {
        self.execute_compare(mode, memory, Register::X)
    }

    /// CPY: compares register Y with the operand.
    pub fn execute_cpy(&mut self, mode: MemoryMode, memory: &mut MEM)
        requires
            addressable(old(memory)@),
            supported(Opcodes::CPY(mode)),
        ensures
            addressable(final(memory)@),
            machine(*final(self), final(memory)@) == compare(
                machine(*old(self), old(memory)@),
                mode,
                Register::Y,
            ),
    {
        self.execute_compare(mode, memory, Register::Y)
    }
}

} // verus!
