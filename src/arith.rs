use vstd::prelude::*;

verus! {

/// `x` reduced to a byte.
pub open spec fn wrap8(x: int) -> u8 {
    (x % 256) as u8
}

/// `x` reduced to a 16-bit word.
pub open spec fn wrap16(x: int) -> u16 {
    (x % 0x10000) as u16
}

pub fn add8(a: u8, b: u8) -> (r: u8)
    ensures
        r == wrap8(a + b),
{
    let s: u16 = a as u16 + b as u16;
    if s >= 256 {
        (s - 256) as u8
    } else {
        s as u8
    }
}

pub fn sub8(a: u8, b: u8) -> (r: u8)
    ensures
        r == wrap8(a - b),
{
    if a >= b {
        a - b
    } else {
        (256 - b as u16 + a as u16) as u8
    }
}

pub fn add16(a: u16, b: u16) -> (r: u16)
    ensures
        r == wrap16(a + b),
{
    let s: u32 = a as u32 + b as u32;
    if s >= 0x10000 {
        (s - 0x10000) as u16
    } else {
        s as u16
    }
}

pub fn sub16(a: u16, b: u16) -> (r: u16)
    ensures
        r == wrap16(a - b),
{
    if a >= b {
        a - b
    } else {
        (0x10000 - b as u32 + a as u32) as u16
    }
}

} // verus!
