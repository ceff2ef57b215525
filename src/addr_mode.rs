use vstd::prelude::*;
use crate::arith::add16;
use crate::arith::add8;
use crate::arith::sub16;
use crate::arith::wrap16;
use crate::arith::wrap8;
use crate::bus::make_word;
use crate::bus::word_of;
use crate::cpu::CPU;
use crate::cpu::CpuState;

verus! {

/// The thirteen ways an instruction names its operand.
#[derive(Clone, Copy, Debug, PartialEq, Eq, Structural)]
pub enum AddressingMode {
    Implicit,
    Accumulator,
    Immediate,
    ZeroPage,
    ZeroPageX,
    ZeroPageY,
    Relative,
    Absolute,
    AbsoluteX,
    AbsoluteY,
    Indirect,
    XIndexedIndirect,
    IndirectYIndexed,
}

/// The operand that an addressing mode resolved: an address, an immediate
/// value, or neither; and whether indexing crossed a page.
#[derive(Clone, Copy, Debug, PartialEq, Eq, Structural)]
pub struct AddressData {
    pub address: Option<u16>,
    pub data: Option<u8>,
    pub cross_page: bool,
}

/// Whether two addresses lie in different 256-byte pages.
pub open spec fn crosses_page(a: u16, b: u16) -> bool {
    (a & 0xff00) != (b & 0xff00)
}

pub fn is_cross_page(addr1: u16, addr2: u16) -> (r: bool)
    ensures
        r == crosses_page(addr1, addr2),
{
    (addr1 & 0xff00) != (addr2 & 0xff00)
}

/// Bytes of operand that follow the opcode.
pub open spec fn operand_width(mode: AddressingMode) -> int {
    match mode {
        AddressingMode::Implicit | AddressingMode::Accumulator => 0,
        AddressingMode::Absolute | AddressingMode::AbsoluteX | AddressingMode::AbsoluteY
        | AddressingMode::Indirect => 2,
        _ => 1,
    }
}

pub open spec fn at(address: u16) -> AddressData {
    AddressData { address: Some(address), data: None, cross_page: false }
}

/// `base` indexed by `index`, with the page-crossing flag.
pub open spec fn indexed(base: u16, index: u8) -> AddressData {
    let address = wrap16(base + index);
    AddressData { address: Some(address), data: None, cross_page: crosses_page(base, address) }
}

/// The two-complement value of a byte.
pub open spec fn signed(b: u8) -> int {
    if b >= 0x80 {
        b - 256
    } else {
        b as int
    }
}

/// The word at zero-page address `z`, its high byte taken from `z + 1`
/// within page zero.
pub open spec fn zero_page_word(s: CpuState, z: u8) -> u16 {
    make_word(s.read(z as u16), s.read(wrap8(z + 1) as u16))
}

/// The word that an indirect jump reads from `ptr`: when `ptr` ends a page,
/// the high byte comes from the start of that same page.
pub open spec fn indirect_target(s: CpuState, ptr: u16) -> u16 {
    if ptr & 0xff == 0xff {
        make_word(s.read(ptr), s.read(ptr & 0xff00))
    } else {
        s.read_word(ptr)
    }
}

/// What `mode` resolves to in state `s`, whose program counter stands on
/// the first operand byte.
pub open spec fn resolve_spec(mode: AddressingMode, s: CpuState) -> AddressData {
    let pc = s.regs.pc;
    let b = s.read(pc);
    let w = s.read_word(pc);
    match mode {
        AddressingMode::Implicit => AddressData { address: None, data: None, cross_page: false },
        AddressingMode::Accumulator => AddressData {
            address: None,
            data: Some(s.regs.a),
            cross_page: false,
        },
        AddressingMode::Immediate => AddressData { address: None, data: Some(b), cross_page: false },
        AddressingMode::ZeroPage => at(b as u16),
        AddressingMode::ZeroPageX => at(wrap8(b + s.regs.x) as u16),
        AddressingMode::ZeroPageY => at(wrap8(b + s.regs.y) as u16),
        AddressingMode::Relative => at(wrap16(wrap16(pc + 1) + signed(b))),
        AddressingMode::Absolute => at(w),
        AddressingMode::AbsoluteX => indexed(w, s.regs.x),
        AddressingMode::AbsoluteY => indexed(w, s.regs.y),
        AddressingMode::Indirect => at(indirect_target(s, w)),
        AddressingMode::XIndexedIndirect => at(zero_page_word(s, wrap8(b + s.regs.x))),
        AddressingMode::IndirectYIndexed => indexed(zero_page_word(s, b), s.regs.y),
    }
}

/// The address that an indexed mode starts from, before the index register
/// is added.
pub open spec fn index_base(mode: AddressingMode, s: CpuState) -> u16 {
    match mode {
        AddressingMode::IndirectYIndexed => zero_page_word(s, s.read(s.regs.pc)),
        _ => s.read_word(s.regs.pc),
    }
}

/// For Absolute,X, Absolute,Y and Indirect,Y-Indexed the resolved address is
/// the base plus the index register, wrapping at 64 KiB, and the page-cross
/// flag is set exactly when its high byte differs from the base's.
pub proof fn lemma_page_cross_flag(mode: AddressingMode, s: CpuState)
    requires
        mode == AddressingMode::AbsoluteX || mode == AddressingMode::AbsoluteY || mode
            == AddressingMode::IndirectYIndexed,
    ensures
        ({
            let r = resolve_spec(mode, s);
            let base = index_base(mode, s);
            let index = if mode == AddressingMode::AbsoluteX {
                s.regs.x
            } else {
                s.regs.y
            };
            &&& r.address == Some(wrap16(base + index))
            &&& r.data is None
            &&& r.cross_page == ((base & 0xff00) != (wrap16(base + index) & 0xff00))
        }),
{
}

pub fn implicit(cpu: &mut CPU) -> (r: AddressData)
    requires
        old(cpu).wf(),
    ensures
        final(cpu).wf(),
        r == resolve_spec(AddressingMode::Implicit, old(cpu)@),
        final(cpu)@ == old(cpu)@,
{
    AddressData { address: None, data: None, cross_page: false }
}

pub fn accumulator(cpu: &mut CPU) -> (r: AddressData)
    requires
        old(cpu).wf(),
    ensures
        final(cpu).wf(),
        r == resolve_spec(AddressingMode::Accumulator, old(cpu)@),
        final(cpu)@ == old(cpu)@,
{
    AddressData { address: None, data: Some(cpu.regs.a), cross_page: false }
}

pub fn immediate(cpu: &mut CPU) -> (r: AddressData)
    requires
        old(cpu).wf(),
    ensures
        final(cpu).wf(),
        r == resolve_spec(AddressingMode::Immediate, old(cpu)@),
        final(cpu)@ == old(cpu)@.advance(1),
{
    let data = cpu.fetch();
    AddressData { address: None, data: Some(data), cross_page: false }
}

pub fn zero_page(cpu: &mut CPU) -> (r: AddressData)
    requires
        old(cpu).wf(),
    ensures
        final(cpu).wf(),
        r == resolve_spec(AddressingMode::ZeroPage, old(cpu)@),
        final(cpu)@ == old(cpu)@.advance(1),
{
    let address = cpu.fetch();
    AddressData { address: Some(address as u16), data: None, cross_page: false }
}

pub fn zero_page_x(cpu: &mut CPU) -> (r: AddressData)
    requires
        old(cpu).wf(),
    ensures
        final(cpu).wf(),
        r == resolve_spec(AddressingMode::ZeroPageX, old(cpu)@),
        final(cpu)@ == old(cpu)@.advance(1),
{
    let b = cpu.fetch();
    let address = add8(b, cpu.regs.x);
    AddressData { address: Some(address as u16), data: None, cross_page: false }
}

pub fn zero_page_y(cpu: &mut CPU) -> (r: AddressData)
    requires
        old(cpu).wf(),
    ensures
        final(cpu).wf(),
        r == resolve_spec(AddressingMode::ZeroPageY, old(cpu)@),
        final(cpu)@ == old(cpu)@.advance(1),
{
    let b = cpu.fetch();
    let address = add8(b, cpu.regs.y);
    AddressData { address: Some(address as u16), data: None, cross_page: false }
}

/// Relative to the program counter after the offset byte, by the offset
/// read as a signed byte (-128 to 127).
pub fn relative(cpu: &mut CPU) -> (r: AddressData)
    requires
        old(cpu).wf(),
    ensures
        final(cpu).wf(),
        r == resolve_spec(AddressingMode::Relative, old(cpu)@),
        final(cpu)@ == old(cpu)@.advance(1),
{
    let offset = cpu.fetch();
    let pc = cpu.regs.pc;
    let address: u16 = if offset & 0x80 != 0 {
        sub16(pc, 0x100 - offset as u16)
    } else {
        add16(pc, offset as u16)
    };
    assert(offset & 0x80u8 != 0 <==> offset >= 0x80u8) by (bit_vector);
    AddressData { address: Some(address), data: None, cross_page: false }
}

pub fn absolute(cpu: &mut CPU) -> (r: AddressData)
    requires
        old(cpu).wf(),
    ensures
        final(cpu).wf(),
        r == resolve_spec(AddressingMode::Absolute, old(cpu)@),
        final(cpu)@ == old(cpu)@.advance(2),
{
    let address = cpu.fetch_word();
    AddressData { address: Some(address), data: None, cross_page: false }
}

pub fn absolute_x(cpu: &mut CPU) -> (r: AddressData)
    requires
        old(cpu).wf(),
    ensures
        final(cpu).wf(),
        r == resolve_spec(AddressingMode::AbsoluteX, old(cpu)@),
        final(cpu)@ == old(cpu)@.advance(2),
{
    let base = cpu.fetch_word();
    let address = add16(base, cpu.regs.x as u16);
    AddressData { address: Some(address), data: None, cross_page: is_cross_page(base, address) }
}

pub fn absolute_y(cpu: &mut CPU) -> (r: AddressData)
    requires
        old(cpu).wf(),
    ensures
        final(cpu).wf(),
        r == resolve_spec(AddressingMode::AbsoluteY, old(cpu)@),
        final(cpu)@ == old(cpu)@.advance(2),
{
    let base = cpu.fetch_word();
    let address = add16(base, cpu.regs.y as u16);
    AddressData { address: Some(address), data: None, cross_page: is_cross_page(base, address) }
}

/// Reproduces the hardware defect: a pointer at the end of a page takes its
/// high byte from the start of that page, never from the next one.
pub fn indirect(cpu: &mut CPU) -> (r: AddressData)
    requires
        old(cpu).wf(),
    ensures
        final(cpu).wf(),
        r == resolve_spec(AddressingMode::Indirect, old(cpu)@),
        final(cpu)@ == old(cpu)@.advance(2),
{
    let ptr = cpu.fetch_word();
    let address = if ptr & 0xff == 0xff {
        let lo = cpu.read(ptr);
        let hi = cpu.read(ptr & 0xff00);
        word_of(lo, hi)
    } else {
        cpu.read_word(ptr)
    };
    AddressData { address: Some(address), data: None, cross_page: false }
}

pub fn x_indexed_indirect(cpu: &mut CPU) -> (r: AddressData)
    requires
        old(cpu).wf(),
    ensures
        final(cpu).wf(),
        r == resolve_spec(AddressingMode::XIndexedIndirect, old(cpu)@),
        final(cpu)@ == old(cpu)@.advance(1),
{
    let b = cpu.fetch();
    let z = add8(b, cpu.regs.x);
    let lo = cpu.read(z as u16);
    let hi = cpu.read(add8(z, 1) as u16);
    AddressData { address: Some(word_of(lo, hi)), data: None, cross_page: false }
}

pub fn indirect_y_indexed(cpu: &mut CPU) -> (r: AddressData)
    requires
        old(cpu).wf(),
    ensures
        final(cpu).wf(),
        r == resolve_spec(AddressingMode::IndirectYIndexed, old(cpu)@),
        final(cpu)@ == old(cpu)@.advance(1),
{
    let z = cpu.fetch();
    let lo = cpu.read(z as u16);
    let hi = cpu.read(add8(z, 1) as u16);
    let base = word_of(lo, hi);
    let address = add16(base, cpu.regs.y as u16);
    AddressData { address: Some(address), data: None, cross_page: is_cross_page(base, address) }
}

impl CPU {
    /// Resolves the operand of `mode`, reading its bytes at the program
    /// counter and then moving the counter past them.
    pub fn resolve(&mut self, mode: AddressingMode) -> (r: AddressData)
        requires
            old(self).wf(),
        ensures
            final(self).wf(),
            r == resolve_spec(mode, old(self)@),
            final(self)@ == old(self)@.advance(operand_width(mode)),
    {
        match mode {
            AddressingMode::Implicit => implicit(self),
            AddressingMode::Accumulator => accumulator(self),
            AddressingMode::Immediate => immediate(self),
            AddressingMode::ZeroPage => zero_page(self),
            AddressingMode::ZeroPageX => zero_page_x(self),
            AddressingMode::ZeroPageY => zero_page_y(self),
            AddressingMode::Relative => relative(self),
            AddressingMode::Absolute => absolute(self),
            AddressingMode::AbsoluteX => absolute_x(self),
            AddressingMode::AbsoluteY => absolute_y(self),
            AddressingMode::Indirect => indirect(self),
            AddressingMode::XIndexedIndirect => x_indexed_indirect(self),
            AddressingMode::IndirectYIndexed => indirect_y_indexed(self),
        }
    }
}

} // verus!
