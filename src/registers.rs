use vstd::prelude::*;

verus! {

/// Bits of the status register.
pub const FLAG_C: u8 = 0x01;
pub const FLAG_Z: u8 = 0x02;
pub const FLAG_I: u8 = 0x04;
pub const FLAG_D: u8 = 0x08;
pub const FLAG_B: u8 = 0x10;
pub const FLAG_U: u8 = 0x20;
pub const FLAG_V: u8 = 0x40;
pub const FLAG_N: u8 = 0x80;

/// The two bits that exist only in the copy of the status pushed on the stack.
pub const PUSH_ONLY_BITS: u8 = 0x30;

/// The status flags, each naming one bit of the status register.
#[derive(Clone, Copy, Debug, PartialEq, Eq, Structural)]
pub enum Flags {
    C,
    Z,
    I,
    D,
    B,
    U,
    V,
    N,
}

impl Flags {
    pub open spec fn mask_spec(self) -> u8 {
        match self {
            Flags::C => FLAG_C,
            Flags::Z => FLAG_Z,
            Flags::I => FLAG_I,
            Flags::D => FLAG_D,
            Flags::B => FLAG_B,
            Flags::U => FLAG_U,
            Flags::V => FLAG_V,
            Flags::N => FLAG_N,
        }
    }

    /// The flag's bit in the status register.
    pub fn mask(self) -> (r: u8)
        ensures
            r == self.mask_spec(),
    {
        match self {
            Flags::C => FLAG_C,
            Flags::Z => FLAG_Z,
            Flags::I => FLAG_I,
            Flags::D => FLAG_D,
            Flags::B => FLAG_B,
            Flags::U => FLAG_U,
            Flags::V => FLAG_V,
            Flags::N => FLAG_N,
        }
    }

    /// One of the six flags that the live status register holds.
    pub open spec fn is_live(self) -> bool {
        self != Flags::B && self != Flags::U
    }
}

/// `p` with the bits of `mask` set when `on`, cleared otherwise.
pub open spec fn with_bits(p: u8, mask: u8, on: bool) -> u8 {
    if on {
        p | mask
    } else {
        p & !mask
    }
}

/// Whether any bit of `mask` is set in `p`.
pub open spec fn has_bits(p: u8, mask: u8) -> bool {
    p & mask != 0
}

pub fn update_bits(p: u8, mask: u8, on: bool) -> (r: u8)
    ensures
        r == with_bits(p, mask, on),
{
    if on {
        p | mask
    } else {
        p & !mask
    }
}

/// Setting or clearing a live flag keeps the push-only bits clear.
pub proof fn lemma_with_bits_keeps_live(p: u8, mask: u8, on: bool)
    requires
        p & PUSH_ONLY_BITS == 0,
        mask & PUSH_ONLY_BITS == 0,
    ensures
        with_bits(p, mask, on) & PUSH_ONLY_BITS == 0,
{
    assert((p & 0x30u8) == 0 && (mask & 0x30u8) == 0 ==> ((p | mask) & 0x30u8) == 0
        && ((p & !mask) & 0x30u8) == 0) by (bit_vector);
}

/// The register file: program counter, stack pointer, status, accumulator
/// and the two index registers.
#[derive(Clone, Copy, Debug, PartialEq, Eq, Structural)]
pub struct Registers {
    pub pc: u16,
    pub sp: u8,
    pub p: u8,
    pub a: u8,
    pub x: u8,
    pub y: u8,
}

impl Registers {
    /// The live status register never holds the push-only bits.
    pub open spec fn wf(self) -> bool {
        self.p & PUSH_ONLY_BITS == 0
    }

    pub open spec fn flag(self, f: Flags) -> bool {
        has_bits(self.p, f.mask_spec())
    }

    pub open spec fn with_flag(self, f: Flags, on: bool) -> Registers {
        Registers { p: with_bits(self.p, f.mask_spec(), on), ..self }
    }

    /// All registers zero.
    pub fn new() -> (r: Registers)
        ensures
            r == (Registers { pc: 0, sp: 0, p: 0, a: 0, x: 0, y: 0 }),
            r.wf(),
    {
        let r = Registers { pc: 0, sp: 0, p: 0, a: 0, x: 0, y: 0 };
        assert(0u8 & 0x30u8 == 0) by (bit_vector);
        r
    }

    pub fn get_flag(&self, f: Flags) -> (r: bool)
        ensures
            r == self.flag(f),
    {
        self.p & f.mask() != 0
    }

    /// Sets or clears one of the six live flags.
    pub fn set_flag(&mut self, f: Flags, on: bool)
        requires
            old(self).wf(),
            f.is_live(),
        ensures
            *final(self) == old(self).with_flag(f, on),
            final(self).wf(),
    {
        let m = f.mask();
        proof {
            assert(FLAG_C & 0x30u8 == 0 && FLAG_Z & 0x30u8 == 0 && FLAG_I & 0x30u8 == 0
                && FLAG_D & 0x30u8 == 0 && FLAG_V & 0x30u8 == 0 && FLAG_N & 0x30u8 == 0)
                by (bit_vector);
            lemma_with_bits_keeps_live(self.p, m, on);
        }
        self.p = update_bits(self.p, m, on);
    }
}

} // verus!
