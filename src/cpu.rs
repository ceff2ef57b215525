use vstd::prelude::*;
use crate::arith::add16;
use crate::arith::add8;
use crate::arith::sub8;
use crate::arith::wrap16;
use crate::arith::wrap8;
use crate::bus::BusState;
use crate::bus::CPUBus;
use crate::bus::IBus;
use crate::bus::bus_read;
use crate::bus::bus_write;
use crate::bus::make_word;
use crate::bus::next_addr;
use crate::registers::Flags;
use crate::registers::Registers;
use crate::addr_mode::AddressData;
use crate::addr_mode::operand_width;
use crate::addr_mode::resolve_spec;
use crate::instruction::branch_cycles;
use crate::instruction::exec_spec;
use crate::instruction::pushed_status;
use crate::instruction::service_spec;
use crate::instruction::zn;
use crate::instruction::lemma_exec_lda;
use crate::instruction::Instruction;
use crate::addr_mode::AddressingMode;
use crate::registers::has_bits;
use crate::registers::with_bits;
use crate::opcode_table::OpCode;
use crate::opcode_table::decode;
use crate::opcode_table::opcode_spec;

verus! {

/// The CPU's registers and everything its bus reaches.
pub struct CpuState {
    pub regs: Registers,
    pub bus: BusState,
}

impl CpuState {
    pub open spec fn wf(self) -> bool {
        self.regs.wf() && self.bus.wf() && self.bus.mapper is Some
    }

    pub open spec fn read(self, address: u16) -> u8 {
        bus_read(self.bus, address)
    }

    pub open spec fn read_word(self, address: u16) -> u16 {
        make_word(self.read(address), self.read(next_addr(address)))
    }

    pub open spec fn write(self, address: u16, data: u8) -> CpuState {
        CpuState { bus: bus_write(self.bus, address, data), ..self }
    }

    pub open spec fn with_regs(self, regs: Registers) -> CpuState {
        CpuState { regs, ..self }
    }

    /// The program counter moved on by `n` bytes.
    pub open spec fn advance(self, n: int) -> CpuState {
        self.with_regs(Registers { pc: wrap16(self.regs.pc + n), ..self.regs })
    }
}

/// The stack page's address for stack pointer `sp`.
pub open spec fn stack_addr(sp: u8) -> u16 {
    (0x100 + sp) as u16
}

/// `v` stored at the stack pointer, which then moves down.
pub open spec fn push_spec(s: CpuState, v: u8) -> CpuState {
    CpuState {
        regs: Registers { sp: wrap8(s.regs.sp - 1), ..s.regs },
        bus: bus_write(s.bus, stack_addr(s.regs.sp), v),
    }
}

/// The stack pointer moved up, and the byte it then points at.
pub open spec fn pull_spec(s: CpuState) -> (CpuState, u8) {
    let sp = wrap8(s.regs.sp + 1);
    (CpuState { regs: Registers { sp, ..s.regs }, ..s }, bus_read(s.bus, stack_addr(sp)))
}

/// The processor: its register file and its bus.
pub struct CPU {
    pub bus: CPUBus,
    pub regs: Registers,
}

impl View for CPU {
    type V = CpuState;

    open spec fn view(&self) -> CpuState {
        CpuState { regs: self.regs, bus: self.bus@ }
    }
}

impl CPU {
    pub open spec fn wf(&self) -> bool {
        self@.wf()
    }

    /// A processor on `bus`, whose mapper must be attached, with all
    /// registers zero.
    pub fn new(bus: CPUBus) -> (r: CPU)
        requires
            bus.wf(),
            bus@.mapper is Some,
        ensures
            r.wf(),
            r@ == (CpuState { regs: Registers { pc: 0, sp: 0, p: 0, a: 0, x: 0, y: 0 }, bus: bus@ }),
    {
        CPU { bus, regs: Registers::new() }
    }

    pub fn read(&self, address: u16) -> (r: u8)
        requires
            self.wf(),
        ensures
            r == self@.read(address),
    {
        self.bus.readb(address)
    }

    pub fn read_word(&self, address: u16) -> (r: u16)
        requires
            self.wf(),
        ensures
            r == self@.read_word(address),
    {
        self.bus.readw(address)
    }

    pub fn write(&mut self, address: u16, data: u8)
        requires
            old(self).wf(),
        ensures
            final(self).wf(),
            final(self)@ == old(self)@.write(address, data),
    {
        self.bus.writeb(address, data);
    }

    /// Reads the byte at the program counter and moves past it.
    pub fn fetch(&mut self) -> (r: u8)
        requires
            old(self).wf(),
        ensures
            final(self).wf(),
            r == old(self)@.read(old(self).regs.pc),
            final(self)@ == old(self)@.advance(1),
    {
        let b = self.read(self.regs.pc);
        self.regs.pc = add16(self.regs.pc, 1);
        b
    }

    /// Reads the word at the program counter and moves past it.
    pub fn fetch_word(&mut self) -> (r: u16)
        requires
            old(self).wf(),
        ensures
            final(self).wf(),
            r == old(self)@.read_word(old(self).regs.pc),
            final(self)@ == old(self)@.advance(2),
    {
        let w = self.read_word(self.regs.pc);
        self.regs.pc = add16(self.regs.pc, 2);
        w
    }

    pub fn push(&mut self, v: u8)
        requires
            old(self).wf(),
        ensures
            final(self).wf(),
            final(self)@ == push_spec(old(self)@, v),
    {
        let sp = self.regs.sp;
        self.write(0x100 + sp as u16, v);
        self.regs.sp = sub8(sp, 1);
    }

    pub fn pull(&mut self) -> (r: u8)
        requires
            old(self).wf(),
        ensures
            final(self).wf(),
            (final(self)@, r) == pull_spec(old(self)@),
    {
        self.regs.sp = add8(self.regs.sp, 1);
        self.read(0x100 + self.regs.sp as u16)
    }

    /// Executes the instruction at the program counter: fetches the opcode,
    /// looks it up, resolves its operand, carries it out, and returns the
    /// cycles it took. An opcode with no table entry is an error, and then
    /// nothing changes.
    pub fn execute(&mut self) -> (r: Result<u8, CpuError>)
        requires
            old(self).wf(),
        ensures
            final(self).wf(),
            (final(self)@, r) == step_spec(old(self)@),
    {
        let pc = self.regs.pc;
        let op = self.read(pc);
        match decode(op) {
            None => Err(CpuError::UndefinedOpcode { opcode: op, address: pc }),
            Some(d) => {
                self.regs.pc = add16(pc, 1);
                let ad = self.resolve(d.mode);
                let extra = self.execute_instruction(d.instruction, ad);
                let page: u8 = if d.page_penalty && ad.cross_page {
                    1
                } else {
                    0
                };
                Ok(d.cycles + page + extra)
            },
        }
    }

    /// Services a hardware interrupt: pushes the program counter and the
    /// status (break bit clear), sets IRQ-disable and jumps through the
    /// interrupt's vector. A maskable request while IRQ-disable is set is
    /// ignored. Returns the cycles taken.
    pub fn interrupt(&mut self, kind: InterruptVector) -> (r: u8)
        requires
            old(self).wf(),
        ensures
            final(self).wf(),
            (final(self)@, r) == interrupt_spec(old(self)@, kind),
    {
        if kind == InterruptVector::IRQ && self.regs.get_flag(Flags::I) {
            return 0;
        }
        let status = self.regs.p | 0x20;
        self.service(self.regs.pc, status, kind.address());
        7
    }
}

/// The fatal condition of a step.
#[derive(Clone, Copy, Debug, PartialEq, Eq, Structural)]
pub enum CpuError {
    /// The byte at `address` names no instruction.
    UndefinedOpcode { opcode: u8, address: u16 },
}

/// The three interrupt kinds, each with its vector.
#[allow(clippy::upper_case_acronyms)]
#[derive(Clone, Copy, Debug, PartialEq, Eq, Structural)]
pub enum InterruptVector {
    /// Non-maskable interrupt.
    NMI,
    RESET,
    /// Maskable interrupt, also entered by the break instruction.
    IRQ,
}

impl InterruptVector {
    pub open spec fn address_spec(self) -> u16 {
        match self {
            InterruptVector::NMI => 0xfffa,
            InterruptVector::RESET => 0xfffc,
            InterruptVector::IRQ => 0xfffe,
        }
    }

    /// Where the interrupt's handler address is stored.
    pub fn address(self) -> (r: u16)
        ensures
            r == self.address_spec(),
    {
        match self {
            InterruptVector::NMI => 0xfffa,
            InterruptVector::RESET => 0xfffc,
            InterruptVector::IRQ => 0xfffe,
        }
    }
}

/// Cycles of a decoded instruction: the base count, one more for a page
/// crossing where the instruction pays for it, and those of a taken branch.
pub open spec fn cycles_spec(d: OpCode, ad: AddressData, s: CpuState) -> int {
    d.cycles + (if d.page_penalty && ad.cross_page {
        1int
    } else {
        0int
    }) + branch_cycles(d.instruction, ad, s)
}

/// One step of the processor from state `s`: the next state and the
/// cycles taken, or the error.
pub open spec fn step_spec(s: CpuState) -> (CpuState, Result<u8, CpuError>) {
    let pc = s.regs.pc;
    let op = s.read(pc);
    match opcode_spec(op) {
        None => (s, Err(CpuError::UndefinedOpcode { opcode: op, address: pc })),
        Some(d) => {
            let s1 = s.advance(1);
            let ad = resolve_spec(d.mode, s1);
            let s2 = s1.advance(operand_width(d.mode));
            (exec_spec(d.instruction, ad, s2), Ok(cycles_spec(d, ad, s2) as u8))
        },
    }
}

/// Interrupt entry from state `s`, and the cycles it takes.
pub open spec fn interrupt_spec(s: CpuState, kind: InterruptVector) -> (CpuState, u8) {
    if kind == InterruptVector::IRQ && s.regs.flag(Flags::I) {
        (s, 0)
    } else {
        (service_spec(s, s.regs.pc, pushed_status(s.regs.p, false), kind.address_spec()), 7)
    }
}


/// After zero and negative are set from `v`, they read back as `v == 0`
/// and bit 7 of `v`, and the other flags are as they were.
pub proof fn lemma_zn_flags(r: Registers, v: u8)
    ensures
        zn(r, v).flag(Flags::Z) == (v == 0),
        zn(r, v).flag(Flags::N) == (v >= 0x80),
        zn(r, v).flag(Flags::C) == r.flag(Flags::C),
        zn(r, v).flag(Flags::V) == r.flag(Flags::V),
        zn(r, v).flag(Flags::I) == r.flag(Flags::I),
{
    let p = r.p;
    let z = v == 0;
    let n = v & 0x80 != 0;
    assert(v & 0x80u8 != 0 <==> v >= 0x80u8) by (bit_vector);
    let q = with_bits(with_bits(p, 0x02, z), 0x80, n);
    assert(has_bits(q, 0x02) == z && has_bits(q, 0x80) == n && has_bits(q, 0x01) == has_bits(
        p,
        0x01,
    ) && has_bits(q, 0x40) == has_bits(p, 0x40) && has_bits(q, 0x04) == has_bits(p, 0x04))
        by (bit_vector)
        requires
            q == with_bits(with_bits(p, 0x02, z), 0x80, n),
    ;
}

/// Load-accumulator-immediate (opcode 0xA9) takes two cycles, loads the
/// byte after the opcode, moves the program counter past both bytes, sets
/// zero and negative from the loaded byte, and changes nothing else.
proof fn lemma_opcode_a9()
    ensures
        opcode_spec(0xa9) == Some(
            OpCode {
                instruction: Instruction::LDA,
                mode: AddressingMode::Immediate,
                cycles: 2,
                page_penalty: false,
                branch_penalty: false,
            },
        ),
{
    reveal(opcode_spec);
}

pub proof fn lemma_load_immediate(s: CpuState)
    requires
        s.wf(),
        s.read(s.regs.pc) == 0xa9,
    ensures
        ({
            let v = s.read(wrap16(s.regs.pc + 1));
            let (t, r) = step_spec(s);
            &&& r == Ok::<u8, CpuError>(2)
            &&& t.bus == s.bus
            &&& t.regs.a == v
            &&& t.regs.pc == wrap16(s.regs.pc + 2)
            &&& t.regs.flag(Flags::Z) == (v == 0)
            &&& t.regs.flag(Flags::N) == (v >= 0x80)
            &&& t.regs.flag(Flags::C) == s.regs.flag(Flags::C)
            &&& t.regs.flag(Flags::V) == s.regs.flag(Flags::V)
            &&& t.regs.flag(Flags::I) == s.regs.flag(Flags::I)
            &&& t.regs.x == s.regs.x
            &&& t.regs.y == s.regs.y
            &&& t.regs.sp == s.regs.sp
        }),
{
    let d = OpCode {
        instruction: Instruction::LDA,
        mode: AddressingMode::Immediate,
        cycles: 2,
        page_penalty: false,
        branch_penalty: false,
    };
    lemma_opcode_a9();
    let s1 = s.advance(1);
    let ad = resolve_spec(AddressingMode::Immediate, s1);
    let v = s.read(wrap16(s.regs.pc + 1));
    assert(ad == AddressData { address: None, data: Some(v), cross_page: false });
    let s2 = s1.advance(1);
    assert(s2.regs.pc == wrap16(s.regs.pc + 2));
    assert(branch_cycles(Instruction::LDA, ad, s2) == 0);
    lemma_exec_lda(ad, s2);
    lemma_zn_flags(Registers { a: v, ..s2.regs }, v);
}

} // verus!
