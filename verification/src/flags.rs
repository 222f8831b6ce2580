//! The flag register: six named condition bits (and two reserved bits)
//! packed into an 8-bit status byte.

use vstd::prelude::*;

verus! {

/// One named bit of the 8-bit status byte.
#[derive(Clone, Copy, PartialEq, Eq, Structural, Debug)]
pub enum Flag {
    /// Unsigned carry or borrow out of bit 7 (byte ops) or bit 15 (word ops).
    Carry,
    /// True when the last arithmetic operation was a subtraction.
    AddSubtract,
    /// Signed two's-complement overflow for arithmetic; even parity for bitwise ops.
    ParityOverflow,
    /// Reserved; never driven by an instruction.
    Unused1,
    /// Carry out of bit 3 (byte ops) or bit 11 (word ops).
    HalfCarry,
    /// Reserved; never driven by an instruction.
    Unused2,
    /// Result was zero.
    Zero,
    /// Result's top bit was set.
    Sign,
}

/// The single-bit mask of a flag within the status byte.
pub open spec fn flag_mask(f: Flag) -> u8 {
    match f {
        Flag::Carry => 0x01,
        Flag::AddSubtract => 0x02,
        Flag::ParityOverflow => 0x04,
        Flag::Unused1 => 0x08,
        Flag::HalfCarry => 0x10,
        Flag::Unused2 => 0x20,
        Flag::Zero => 0x40,
        Flag::Sign => 0x80,
    }
}

/// The status byte after writing one flag bit; every other bit is kept.
pub open spec fn flag_set(status: u8, f: Flag, value: bool) -> u8 {
    if value {
        status | flag_mask(f)
    } else {
        status & !flag_mask(f)
    }
}

/// Whether one flag bit is set in the status byte.
pub open spec fn flag_get(status: u8, f: Flag) -> bool {
    status & flag_mask(f) != 0
}

/// The raw masked flag bit: `flag_mask(f)` when set, 0 when clear.
pub open spec fn flag_get_bit(status: u8, f: Flag) -> u8 {
    status & flag_mask(f)
}

impl Flag {
    /// The bit mask this flag occupies in the status byte.
    pub fn mask(self) -> (m: u8)
        ensures
            m == flag_mask(self),
    {
        match self {
            Flag::Carry => 0x01,
            Flag::AddSubtract => 0x02,
            Flag::ParityOverflow => 0x04,
            Flag::Unused1 => 0x08,
            Flag::HalfCarry => 0x10,
            Flag::Unused2 => 0x20,
            Flag::Zero => 0x40,
            Flag::Sign => 0x80,
        }
    }

    /// Writes this flag's bit into the register, leaving all other bits untouched.
    pub fn set(self, register: &mut u8, value: bool)
        ensures
            *final(register) == flag_set(*old(register), self, value),
    {
        let mask = self.mask();
        if value {
            *register = *register | mask;
        } else {
            *register = *register & !mask;
        }
    }

    /// Tests whether this flag's bit is set in the register.
    pub fn get(self, register: &u8) -> (r: bool)
        ensures
            r == flag_get(*register, self),
    {
        self.get_bit(register) > 0
    }

    /// The raw masked bit, used where a flag doubles as a 0/1 operand.
    pub fn get_bit(self, register: &u8) -> (r: u8)
        ensures
            r == flag_get_bit(*register, self),
    {
        *register & self.mask()
    }
}

/// Every flag mask is one of the eight single-bit constants.
pub proof fn lemma_mask_values(f: Flag)
    ensures
        flag_mask(f) == 1 || flag_mask(f) == 2 || flag_mask(f) == 4 || flag_mask(f) == 8
            || flag_mask(f) == 16 || flag_mask(f) == 32 || flag_mask(f) == 64 || flag_mask(f)
            == 128,
{
}

/// Distinct flags occupy disjoint bits of the status byte.
pub proof fn lemma_masks_disjoint(f: Flag, g: Flag)
    requires
        f != g,
    ensures
        flag_mask(f) & flag_mask(g) == 0,
{
    lemma_mask_values(f);
    lemma_mask_values(g);
    let a = flag_mask(f);
    let b = flag_mask(g);
    assert(a & b == 0) by (bit_vector)
        requires
            (a == 1 || a == 2 || a == 4 || a == 8 || a == 16 || a == 32 || a == 64 || a == 128)
                && (b == 1 || b == 2 || b == 4 || b == 8 || b == 16 || b == 32 || b == 64 || b
                == 128) && a != b,
    ;
}

/// Reading back the flag just written yields the written value.
pub proof fn lemma_flag_set_get(status: u8, f: Flag, v: bool)
    ensures
        flag_get(flag_set(status, f, v), f) == v,
{
    lemma_mask_values(f);
    let m = flag_mask(f);
    assert((status | m) & m != 0) by (bit_vector)
        requires
            m == 1 || m == 2 || m == 4 || m == 8 || m == 16 || m == 32 || m == 64 || m == 128,
    ;
    assert((status & !m) & m == 0) by (bit_vector);
}

/// Writing one flag leaves every other flag unchanged.
pub proof fn lemma_flag_set_other(status: u8, f: Flag, v: bool, g: Flag)
    requires
        g != f,
    ensures
        flag_get(flag_set(status, f, v), g) == flag_get(status, g),
        flag_get_bit(flag_set(status, f, v), g) == flag_get_bit(status, g),
{
    lemma_masks_disjoint(f, g);
    let m = flag_mask(f);
    let b = flag_mask(g);
    assert((status | m) & b == status & b && (status & !m) & b == status & b) by (bit_vector)
        requires
            m & b == 0,
    ;
}

/// Writing one flag leaves all bits outside the flag's mask unchanged.
pub proof fn lemma_flag_set_outside(status: u8, f: Flag, v: bool, outside: u8)
    requires
        flag_mask(f) & outside == 0,
    ensures
        flag_set(status, f, v) & outside == status & outside,
{
    let m = flag_mask(f);
    assert((status | m) & outside == status & outside && (status & !m) & outside == status
        & outside) by (bit_vector)
        requires
            m & outside == 0,
    ;
}

} // verus!
