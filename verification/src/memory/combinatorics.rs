//! Building addresses from operand bytes.

use vstd::prelude::*;

verus! {

/// The 16-bit number whose low byte is `operand1` and whose high byte is `operand2`.
pub open spec fn combined(operand1: u8, operand2: u8) -> int {
    operand1 + 256 * operand2
}

/// Combines two operand bytes, low byte first, into one 16-bit number.
pub fn combine_operands(operand1: u8, operand2: u8) -> (r: u16)
    ensures
        r == combined(operand1, operand2),
        r % 256 == operand1,
        r / 256 == operand2,
{
    (operand2 as u16) * 256 + (operand1 as u16)
}

} // verus!
