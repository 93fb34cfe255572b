//! The processor status register.
use vstd::prelude::*;

verus! {

/// Carry.
pub const FLAG_C: u8 = 0x01;
/// Zero.
pub const FLAG_Z: u8 = 0x02;
/// Interrupt disable.
pub const FLAG_I: u8 = 0x04;
/// Decimal mode (kept but never acted upon).
pub const FLAG_D: u8 = 0x08;
/// Break.
pub const FLAG_B: u8 = 0x10;
/// Unused (reads back as set on real hardware).
pub const FLAG_U: u8 = 0x20;
/// Overflow.
pub const FLAG_V: u8 = 0x40;
/// Negative.
pub const FLAG_N: u8 = 0x80;

/// The status register: one bit per flag, laid out C|Z|I|D|B|U|V|N from bit 0 up.
#[derive(Clone, Copy, Debug, PartialEq, Eq, Structural)]
pub struct Flags6502 {
    pub bits: u8,
}

/// True when `f` is one of the eight single-bit flag masks.
pub open spec fn is_flag(f: u8) -> bool {
    f == 0x01 || f == 0x02 || f == 0x04 || f == 0x08 || f == 0x10 || f == 0x20 || f == 0x40 || f
        == 0x80
}

/// Whether the flag mask `f` is set in `s`.
pub open spec fn has_flag(s: u8, f: u8) -> bool {
    s & f != 0
}

/// `s` with the flag mask `f` set (when `on`) or cleared.
pub open spec fn with_flag(s: u8, f: u8, on: bool) -> u8 {
    if on {
        s | f
    } else {
        s & !f
    }
}

/// Setting or clearing a flag makes it read back as requested.
pub proof fn lemma_with_flag_same(s: u8, f: u8, on: bool)
    requires
        is_flag(f),
    ensures
        has_flag(with_flag(s, f, on), f) == on,
{
    if on {
        assert((s | f) & f != 0) by (bit_vector)
            requires
                f == 0x01 || f == 0x02 || f == 0x04 || f == 0x08 || f == 0x10 || f == 0x20 || f
                    == 0x40 || f == 0x80,
        ;
    } else {
        assert((s & !f) & f == 0) by (bit_vector);
    }
}

/// Setting or clearing a flag leaves every other flag as it was.
pub proof fn lemma_with_flag_other(s: u8, f: u8, g: u8, on: bool)
    requires
        is_flag(f),
        is_flag(g),
        f != g,
    ensures
        has_flag(with_flag(s, f, on), g) == has_flag(s, g),
{
    assert(((s | f) & g != 0) == (s & g != 0) && (((s & !f) & g) != 0) == (s & g != 0))
        by (bit_vector)
        requires
            f == 0x01 || f == 0x02 || f == 0x04 || f == 0x08 || f == 0x10 || f == 0x20 || f == 0x40
                || f == 0x80,
            g == 0x01 || g == 0x02 || g == 0x04 || g == 0x08 || g == 0x10 || g == 0x20 || g == 0x40
                || g == 0x80,
            f != g,
    ;
}

impl Flags6502 {
    /// Only the C flag set.
    pub fn carry() -> (r: Self)
        ensures
            r.bits == FLAG_C,
    {
        Flags6502 { bits: FLAG_C }
    }

    /// Only the Z flag set.
    pub fn zero() -> (r: Self)
        ensures
            r.bits == FLAG_Z,
    {
        Flags6502 { bits: FLAG_Z }
    }

    /// Only the I flag set.
    pub fn interrupt_disable() -> (r: Self)
        ensures
            r.bits == FLAG_I,
    {
        Flags6502 { bits: FLAG_I }
    }

    /// Only the D flag set.
    pub fn decimal() -> (r: Self)
        ensures
            r.bits == FLAG_D,
    {
        Flags6502 { bits: FLAG_D }
    }

    /// Only the B flag set.
    pub fn brk() -> (r: Self)
        ensures
            r.bits == FLAG_B,
    {
        Flags6502 { bits: FLAG_B }
    }

    /// Only the U flag set.
    pub fn unused() -> (r: Self)
        ensures
            r.bits == FLAG_U,
    {
        Flags6502 { bits: FLAG_U }
    }

    /// Only the V flag set.
    pub fn overflow() -> (r: Self)
        ensures
            r.bits == FLAG_V,
    {
        Flags6502 { bits: FLAG_V }
    }

    /// Only the N flag set.
    pub fn negative() -> (r: Self)
        ensures
            r.bits == FLAG_N,
    {
        Flags6502 { bits: FLAG_N }
    }

    /// No flag set.
    pub fn none() -> (r: Self)
        ensures
            r.bits == 0,
    {
        Flags6502 { bits: 0 }
    }

    /// No flag set.
    pub fn empty() -> (r: Self)
        ensures
            r.bits == 0,
    {
        Flags6502 { bits: 0 }
    }

    /// Every bit pattern is a valid status, so this always succeeds.
    pub fn from_bits(bits: u8) -> (r: Option<Self>)
        ensures
            r == Some(Flags6502 { bits }),
    {
        Some(Flags6502 { bits })
    }

    pub fn bits(&self) -> (r: u8)
        ensures
            r == self.bits,
    {
        self.bits
    }

    /// True when every bit of `other` is set here.
    pub fn contains(&self, other: Flags6502) -> (r: bool)
        ensures
            r == (self.bits & other.bits == other.bits),
    {
        self.bits & other.bits == other.bits
    }

    /// The flags set in either operand.
    pub fn union(&self, other: Flags6502) -> (r: Flags6502)
        ensures
            r.bits == self.bits | other.bits,
    {
        Flags6502 { bits: self.bits | other.bits }
    }
}

} // verus!
