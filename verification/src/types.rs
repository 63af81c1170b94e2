//! Fixed-width wrapping integers.
//!
//! A [`Wrapped`] is an integer modulo 2^8 or 2^16. The width is chosen when
//! the value is built and never changes; every operation reduces its result
//! back into the range of that width, so no operation can overflow.

use core::ops::AddAssign;
use core::ops::SubAssign;
use vstd::prelude::*;
use vstd::std_specs::cmp::PartialEqSpecImpl;
use vstd::std_specs::convert::FromSpecImpl;
use vstd::std_specs::ops::AddSpecImpl;
use vstd::std_specs::ops::SubSpecImpl;

verus! {

/// Modulus of an 8-bit wrapped integer.
pub const BYTE_MODULUS: isize = 256;

/// Modulus of a 16-bit wrapped integer.
pub const WORD_MODULUS: isize = 65536;

/// An integer modulo `size`, where `size` is 2^8 or 2^16.
#[derive(Debug, Clone, Copy)]
pub struct Wrapped {
    pub value: isize,
    pub size: isize,
}

/// The residue of `x` modulo `m`: the one integer in `0..m` congruent to `x`.
pub open spec fn wrap(x: int, m: int) -> int {
    x % m
}

impl Wrapped {
    /// The value is a residue of one of the two supported moduli.
    pub open spec fn wf(&self) -> bool {
        &&& (self.size == BYTE_MODULUS || self.size == WORD_MODULUS)
        &&& 0 <= self.value < self.size
    }

    /// The wrapped integer of the same width as `self` that is congruent to `x`.
    pub open spec fn with_value(self, x: int) -> Wrapped {
        Wrapped { value: wrap(x, self.size as int) as isize, size: self.size }
    }

    /// An 8-bit value.
    pub fn byte(value: isize) -> (r: Self)
        requires
            0 <= value < 256,
        ensures
            r.wf(),
            r.value == value,
            r.size == BYTE_MODULUS,
    {
        Self { value, size: BYTE_MODULUS }
    }

    /// A 16-bit value.
    pub fn word(value: isize) -> (r: Self)
        requires
            0 <= value < 65536,
        ensures
            r.wf(),
            r.value == value,
            r.size == WORD_MODULUS,
    {
        Self { value, size: WORD_MODULUS }
    }

    /// The value of an 8-bit wrapped integer as a byte.
    pub fn to_u8(self) -> (r: u8)
        requires
            self.wf(),
            self.size == BYTE_MODULUS,
        ensures
            r == self.value,
    {
        self.value as u8
    }

    /// The value of a wrapped integer of either width as a 16-bit number.
    pub fn to_u16(self) -> (r: u16)
        requires
            self.wf(),
        ensures
            r == self.value,
    {
        self.value as u16
    }

    /// Reduces any machine integer into the range of modulus `size`.
    fn reduce(x: isize, size: isize) -> (r: isize)
        requires
            size == BYTE_MODULUS || size == WORD_MODULUS,
        ensures
            r == wrap(x as int, size as int),
            0 <= r < size,
    {
        let r: isize = x % size;
        if r < 0 {
            r + size
        } else {
            r
        }
    }
}

/// Adding a multiple of the modulus, or reducing a summand first, does not
/// change a residue.
pub proof fn lemma_wrap_absorbs(x: int, y: int, m: int)
    requires
        m > 0,
    ensures
        wrap(x + wrap(y, m), m) == wrap(x + y, m),
        wrap(x - wrap(y, m), m) == wrap(x - y, m),
        0 <= wrap(x, m) < m,
{
    vstd::arithmetic::div_mod::lemma_add_mod_noop_right(x, y, m);
    vstd::arithmetic::div_mod::lemma_sub_mod_noop_right(x, y, m);
    vstd::arithmetic::div_mod::lemma_mod_bound(x, m);
}

impl PartialEq for Wrapped {
    /// Two wrapped integers are equal when their values are, whatever their widths.
    fn eq(&self, other: &Self) -> (r: bool) {
        self.value == other.value
    }
}

impl PartialEqSpecImpl for Wrapped {
    open spec fn obeys_eq_spec() -> bool {
        true
    }

    open spec fn eq_spec(&self, other: &Self) -> bool {
        self.value == other.value
    }
}

impl PartialEq<isize> for Wrapped {
    /// A wrapped integer equals a raw integer when its value does.
    fn eq(&self, other: &isize) -> (r: bool) {
        self.value == *other
    }
}

impl PartialEqSpecImpl<isize> for Wrapped {
    open spec fn obeys_eq_spec() -> bool {
        true
    }

    open spec fn eq_spec(&self, other: &isize) -> bool {
        self.value == *other
    }
}

impl From<u8> for Wrapped {
    /// The 8-bit wrapped integer holding `value`.
    fn from(value: u8) -> (r: Wrapped) {
        Wrapped::byte(value as isize)
    }
}

impl FromSpecImpl<u8> for Wrapped {
    open spec fn obeys_from_spec() -> bool {
        true
    }

    open spec fn from_spec(value: u8) -> Wrapped {
        Wrapped { value: value as isize, size: BYTE_MODULUS }
    }
}

impl From<u16> for Wrapped {
    /// The 16-bit wrapped integer holding `value`.
    fn from(value: u16) -> (r: Wrapped) {
        Wrapped::word(value as isize)
    }
}

impl FromSpecImpl<u16> for Wrapped {
    open spec fn obeys_from_spec() -> bool {
        true
    }

    open spec fn from_spec(value: u16) -> Wrapped {
        Wrapped { value: value as isize, size: WORD_MODULUS }
    }
}

impl core::ops::Add for Wrapped {
    type Output = Wrapped;

    /// Sum modulo the width of the left operand.
    fn add(self, other: Wrapped) -> (r: Wrapped) {
        Wrapped { value: Wrapped::reduce(self.value + other.value, self.size), size: self.size }
    }
}

impl AddSpecImpl for Wrapped {
    open spec fn obeys_add_spec() -> bool {
        true
    }

    open spec fn add_req(self, other: Wrapped) -> bool {
        self.wf() && other.wf()
    }

    open spec fn add_spec(self, other: Wrapped) -> Wrapped {
        self.with_value(self.value + other.value)
    }
}

impl core::ops::Add<isize> for Wrapped {
    type Output = Wrapped;

    /// Sum with any machine integer, modulo the width of the left operand.
    fn add(self, other: isize) -> (r: Wrapped) {
        let step = Wrapped::reduce(other, self.size);
        proof {
            lemma_wrap_absorbs(self.value as int, other as int, self.size as int);
        }
        Wrapped { value: Wrapped::reduce(self.value + step, self.size), size: self.size }
    }
}

impl AddSpecImpl<isize> for Wrapped {
    open spec fn obeys_add_spec() -> bool {
        true
    }

    open spec fn add_req(self, other: isize) -> bool {
        self.wf()
    }

    open spec fn add_spec(self, other: isize) -> Wrapped {
        self.with_value(self.value + other)
    }
}

impl core::ops::Sub for Wrapped {
    type Output = Wrapped;

    /// Difference modulo the width of the left operand.
    fn sub(self, other: Wrapped) -> (r: Wrapped) {
        Wrapped { value: Wrapped::reduce(self.value - other.value, self.size), size: self.size }
    }
}

impl SubSpecImpl for Wrapped {
    open spec fn obeys_sub_spec() -> bool {
        true
    }

    open spec fn sub_req(self, other: Wrapped) -> bool {
        self.wf() && other.wf()
    }

    open spec fn sub_spec(self, other: Wrapped) -> Wrapped {
        self.with_value(self.value - other.value)
    }
}

impl core::ops::Sub<isize> for Wrapped {
    type Output = Wrapped;

    /// Difference with any machine integer, modulo the width of the left operand.
    fn sub(self, other: isize) -> (r: Wrapped) {
        let step = Wrapped::reduce(other, self.size);
        proof {
            lemma_wrap_absorbs(self.value as int, other as int, self.size as int);
        }
        Wrapped { value: Wrapped::reduce(self.value - step, self.size), size: self.size }
    }
}

impl SubSpecImpl<isize> for Wrapped {
    open spec fn obeys_sub_spec() -> bool {
        true
    }

    open spec fn sub_req(self, other: isize) -> bool {
        self.wf()
    }

    open spec fn sub_spec(self, other: isize) -> Wrapped {
        self.with_value(self.value - other)
    }
}

impl AddAssign for Wrapped {
    /// Adds in place, modulo the width of `self`.
    fn add_assign(&mut self, other: Wrapped)
        requires
            old(self).wf(),
            other.wf(),
        ensures
            *final(self) == old(self).with_value(old(self).value + other.value),
            final(self).wf(),
    {
        self.value = Wrapped::reduce(self.value + other.value, self.size);
    }
}

impl AddAssign<isize> for Wrapped {
    /// Adds any machine integer in place, modulo the width of `self`.
    fn add_assign(&mut self, other: isize)
        requires
            old(self).wf(),
        ensures
            *final(self) == old(self).with_value(old(self).value + other),
            final(self).wf(),
    {
        let step = Wrapped::reduce(other, self.size);
        proof {
            lemma_wrap_absorbs(self.value as int, other as int, self.size as int);
        }
        self.value = Wrapped::reduce(self.value + step, self.size);
    }
}

impl SubAssign for Wrapped {
    /// Subtracts in place, modulo the width of `self`.
    fn sub_assign(&mut self, other: Wrapped)
        requires
            old(self).wf(),
            other.wf(),
        ensures
            *final(self) == old(self).with_value(old(self).value - other.value),
            final(self).wf(),
    {
        self.value = Wrapped::reduce(self.value - other.value, self.size);
    }
}

impl SubAssign<isize> for Wrapped {
    /// Subtracts any machine integer in place, modulo the width of `self`.
    fn sub_assign(&mut self, other: isize)
        requires
            old(self).wf(),
        ensures
            *final(self) == old(self).with_value(old(self).value - other),
            final(self).wf(),
    {
        let step = Wrapped::reduce(other, self.size);
        proof {
            lemma_wrap_absorbs(self.value as int, other as int, self.size as int);
        }
        self.value = Wrapped::reduce(self.value - step, self.size);
    }
}

/// Every sum and difference of well-formed wrapped integers is well formed
/// again and keeps the width of the left operand.
pub proof fn lemma_wrapped_closed(a: Wrapped, x: int)
    requires
        a.wf(),
    ensures
        a.with_value(x).wf(),
        a.with_value(x).size == a.size,
        a.with_value(a.value as int) == a,
{
    lemma_wrap_absorbs(x, 0, a.size as int);
    vstd::arithmetic::div_mod::lemma_small_mod(a.value as nat, a.size as nat);
}

} // verus!
