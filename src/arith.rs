//! Wrapping arithmetic on the processor's 8- and 16-bit quantities.
use vstd::prelude::*;

verus! {

pub open spec fn wadd8(a: u8, b: u8) -> u8 {
    ((a + b) % 256) as u8
}

pub open spec fn wsub8(a: u8, b: u8) -> u8 {
    ((a - b + 256) % 256) as u8
}

pub open spec fn wadd16(a: u16, b: u16) -> u16 {
    ((a + b) % 0x10000) as u16
}

pub open spec fn wsub16(a: u16, b: u16) -> u16 {
    ((a - b + 0x10000) % 0x10000) as u16
}

pub open spec fn wadd64(a: u64, b: u64) -> u64 {
    ((a + b) % 0x1_0000_0000_0000_0000) as u64
}

/// `a + b` modulo 256.
pub fn wrap_add(a: u8, b: u8) -> (r: u8)
    ensures
        r == wadd8(a, b),
{
    a.wrapping_add(b)
}

/// `a - b` modulo 256.
pub fn wrap_sub(a: u8, b: u8) -> (r: u8)
    ensures
        r == wsub8(a, b),
{
    a.wrapping_sub(b)
}

pub fn wrap_add16(a: u16, b: u16) -> (r: u16)
    ensures
        r == wadd16(a, b),
{
    a.wrapping_add(b)
}

pub fn wrap_sub16(a: u16, b: u16) -> (r: u16)
    ensures
        r == wsub16(a, b),
{
    a.wrapping_sub(b)
}

pub fn wrap_add64(a: u64, b: u64) -> (r: u64)
    ensures
        r == wadd64(a, b),
{
    a.wrapping_add(b)
}

/// Stepping a byte down then up, or up then down, gives it back.
pub proof fn lemma_wrap8_inverse(x: u8)
    ensures
        wadd8(wsub8(x, 1), 1) == x,
        wsub8(wadd8(x, 1), 1) == x,
        wsub8(x, 1) != x,
{
}

/// Stepping a 16-bit value down then up gives it back.
pub proof fn lemma_wrap16_inverse(x: u16)
    ensures
        wadd16(wsub16(x, 1), 1) == x,
{
}

} // verus!
