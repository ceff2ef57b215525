use vstd::prelude::*;
use crate::addr_mode::AddressData;
use crate::addr_mode::crosses_page;
use crate::addr_mode::is_cross_page;
use crate::arith::wrap16;
use crate::arith::wrap8;
use crate::bus::make_word;
use crate::arith::add16;
use crate::arith::add8;
use crate::arith::sub16;
use crate::arith::sub8;
use crate::bus::word_of;
use crate::cpu::CPU;
use crate::cpu::CpuState;
use crate::cpu::pull_spec;
use crate::cpu::push_spec;
use crate::registers::Flags;
use crate::registers::Registers;

verus! {

/// The operations of the instruction set, the documented illegal ones last.
#[allow(non_camel_case_types, clippy::upper_case_acronyms)]
#[derive(Clone, Copy, Debug, PartialEq, Eq, Structural, Hash)]
pub enum Instruction {
    ORA,
    AND,
    EOR,
    ADC,
    SBC,
    CMP,
    CPX,
    CPY,
    DEC,
    DEX,
    DEY,
    INC,
    INX,
    INY,
    ASL,
    ROL,
    LSR,
    ROR,
    LDA,
    STA,
    LDX,
    STX,
    LDY,
    STY,
    TAX,
    TXA,
    TAY,
    TYA,
    TSX,
    TXS,
    PLA,
    PHA,
    PLP,
    PHP,
    BPL,
    BMI,
    BVC,
    BVS,
    BCC,
    BCS,
    BNE,
    BEQ,
    BRK,
    RTI,
    JSR,
    RTS,
    JMP,
    BIT,
    CLC,
    SEC,
    CLD,
    SED,
    CLI,
    SEI,
    CLV,
    NOP,
    DCP,
    ISC,
    LAX,
    RLA,
    RRA,
    SAX,
    SLO,
    SRE,
}

/// Zero and negative flags set from `v`.
pub open spec fn zn(r: Registers, v: u8) -> Registers {
    r.with_flag(Flags::Z, v == 0).with_flag(Flags::N, v & 0x80 != 0)
}

pub open spec fn set_a(r: Registers, v: u8) -> Registers {
    zn(Registers { a: v, ..r }, v)
}

pub open spec fn set_x(r: Registers, v: u8) -> Registers {
    zn(Registers { x: v, ..r }, v)
}

pub open spec fn set_y(r: Registers, v: u8) -> Registers {
    zn(Registers { y: v, ..r }, v)
}

/// The byte an instruction operates on: the immediate value, else the byte
/// at the resolved address.
pub open spec fn operand(s: CpuState, ad: AddressData) -> u8 {
    match ad.data {
        Some(v) => v,
        None => match ad.address {
            Some(a) => s.read(a),
            None => 0,
        },
    }
}

/// The resolved address, for the operations that need one.
pub open spec fn target(ad: AddressData) -> u16 {
    match ad.address {
        Some(a) => a,
        None => 0,
    }
}

/// `v` written back where the operand came from: memory, or the
/// accumulator in accumulator mode.
pub open spec fn store_spec(s: CpuState, ad: AddressData, v: u8) -> CpuState {
    match ad.address {
        Some(a) => s.write(a, v),
        None => s.with_regs(Registers { a: v, ..s.regs }),
    }
}

/// Binary add with carry into the accumulator (decimal mode is inert).
pub open spec fn adc_spec(r: Registers, m: u8) -> Registers {
    let sum = r.a + m + if r.flag(Flags::C) {
        1int
    } else {
        0int
    };
    let res = wrap8(sum);
    let overflow = ((r.a ^ res) & (m ^ res) & 0x80) != 0;
    set_a(r.with_flag(Flags::C, sum > 255).with_flag(Flags::V, overflow), res)
}

/// Subtraction with borrow is addition of the complement.
pub open spec fn sbc_spec(r: Registers, m: u8) -> Registers {
    adc_spec(r, m ^ 0xff)
}

pub open spec fn compare_spec(r: Registers, reg: u8, m: u8) -> Registers {
    zn(r.with_flag(Flags::C, reg >= m), wrap8(reg - m))
}

/// A shift or rotate of `m` with carry-in `c`: the result and the carry out.
pub open spec fn shift_spec(i: Instruction, m: u8, c: bool) -> (u8, bool) {
    match i {
        Instruction::ASL | Instruction::SLO => (m << 1u8, m & 0x80 != 0),
        Instruction::ROL | Instruction::RLA => (
            (m << 1u8) | if c {
                1u8
            } else {
                0u8
            },
            m & 0x80 != 0,
        ),
        Instruction::LSR | Instruction::SRE => (m >> 1u8, m & 0x01 != 0),
        _ => (
            (m >> 1u8) | if c {
                0x80u8
            } else {
                0u8
            },
            m & 0x01 != 0,
        ),
    }
}

pub open spec fn is_shift(i: Instruction) -> bool {
    i == Instruction::ASL || i == Instruction::ROL || i == Instruction::LSR || i == Instruction::ROR
}

/// The shift or rotate written back, with carry, zero and negative set.
pub open spec fn shifted_spec(i: Instruction, ad: AddressData, s: CpuState) -> (CpuState, u8) {
    let (v, c) = shift_spec(i, operand(s, ad), s.regs.flag(Flags::C));
    let s1 = store_spec(s, ad, v);
    (s1.with_regs(zn(s1.regs.with_flag(Flags::C, c), v)), v)
}

/// The operand moved by one, written back, with zero and negative set.
pub open spec fn stepped_spec(ad: AddressData, s: CpuState, up: bool) -> (CpuState, u8) {
    let m = operand(s, ad);
    let v = if up {
        wrap8(m + 1)
    } else {
        wrap8(m - 1)
    };
    let s1 = store_spec(s, ad, v);
    (s1.with_regs(zn(s1.regs, v)), v)
}

pub open spec fn is_branch(i: Instruction) -> bool {
    match i {
        Instruction::BPL | Instruction::BMI | Instruction::BVC | Instruction::BVS
        | Instruction::BCC | Instruction::BCS | Instruction::BNE | Instruction::BEQ => true,
        _ => false,
    }
}

/// Whether a branch instruction's condition holds.
pub open spec fn branch_taken(i: Instruction, r: Registers) -> bool {
    match i {
        Instruction::BPL => !r.flag(Flags::N),
        Instruction::BMI => r.flag(Flags::N),
        Instruction::BVC => !r.flag(Flags::V),
        Instruction::BVS => r.flag(Flags::V),
        Instruction::BCC => !r.flag(Flags::C),
        Instruction::BCS => r.flag(Flags::C),
        Instruction::BNE => !r.flag(Flags::Z),
        Instruction::BEQ => r.flag(Flags::Z),
        _ => false,
    }
}

/// Extra cycles of a branch: one when taken, one more when the target lies
/// in another page than the next instruction.
pub open spec fn branch_cycles(i: Instruction, ad: AddressData, s: CpuState) -> u8 {
    if branch_taken(i, s.regs) {
        if crosses_page(s.regs.pc, target(ad)) {
            2
        } else {
            1
        }
    } else {
        0
    }
}

/// Interrupt entry: return address and status pushed, IRQ-disable set, and
/// the program counter loaded from `vector`.
pub open spec fn service_spec(s: CpuState, ret: u16, status: u8, vector: u16) -> CpuState {
    let s1 = push_spec(s, (ret >> 8u16) as u8);
    let s2 = push_spec(s1, (ret & 0xff) as u8);
    let s3 = push_spec(s2, status);
    let r = s3.regs.with_flag(Flags::I, true);
    s3.with_regs(Registers { pc: s3.read_word(vector), ..r })
}

/// The status byte that is pushed: the live flags with the break bit as
/// given and the unused bit set.
pub open spec fn pushed_status(p: u8, brk: bool) -> u8 {
    if brk {
        p | 0x30
    } else {
        p | 0x20
    }
}

/// A pulled status byte, with the two push-only bits dropped.
pub open spec fn pulled_status(v: u8) -> u8 {
    v & 0xcf
}

/// The effect of instruction `i` on state `s`, whose program counter has
/// moved past the instruction's operand, given the resolved operand `ad`.
#[verifier::opaque]
pub open spec fn exec_spec(i: Instruction, ad: AddressData, s: CpuState) -> CpuState {
    let r = s.regs;
    let m = operand(s, ad);
    match i {
        Instruction::ORA => s.with_regs(set_a(r, r.a | m)),
        Instruction::AND => s.with_regs(set_a(r, r.a & m)),
        Instruction::EOR => s.with_regs(set_a(r, r.a ^ m)),
        Instruction::ADC => s.with_regs(adc_spec(r, m)),
        Instruction::SBC => s.with_regs(sbc_spec(r, m)),
        Instruction::CMP => s.with_regs(compare_spec(r, r.a, m)),
        Instruction::CPX => s.with_regs(compare_spec(r, r.x, m)),
        Instruction::CPY => s.with_regs(compare_spec(r, r.y, m)),
        Instruction::DEC => stepped_spec(ad, s, false).0,
        Instruction::INC => stepped_spec(ad, s, true).0,
        Instruction::DEX => s.with_regs(set_x(r, wrap8(r.x - 1))),
        Instruction::DEY => s.with_regs(set_y(r, wrap8(r.y - 1))),
        Instruction::INX => s.with_regs(set_x(r, wrap8(r.x + 1))),
        Instruction::INY => s.with_regs(set_y(r, wrap8(r.y + 1))),
        Instruction::ASL | Instruction::ROL | Instruction::LSR | Instruction::ROR => shifted_spec(
            i,
            ad,
            s,
        ).0,
        Instruction::LDA => s.with_regs(set_a(r, m)),
        Instruction::LDX => s.with_regs(set_x(r, m)),
        Instruction::LDY => s.with_regs(set_y(r, m)),
        Instruction::LAX => s.with_regs(set_x(set_a(r, m), m)),
        Instruction::STA => s.write(target(ad), r.a),
        Instruction::STX => s.write(target(ad), r.x),
        Instruction::STY => s.write(target(ad), r.y),
        Instruction::SAX => s.write(target(ad), r.a & r.x),
        Instruction::TAX => s.with_regs(set_x(r, r.a)),
        Instruction::TXA => s.with_regs(set_a(r, r.x)),
        Instruction::TAY => s.with_regs(set_y(r, r.a)),
        Instruction::TYA => s.with_regs(set_a(r, r.y)),
        Instruction::TSX => s.with_regs(set_x(r, r.sp)),
        Instruction::TXS => s.with_regs(Registers { sp: r.x, ..r }),
        Instruction::PLA => {
            let (s1, v) = pull_spec(s);
            s1.with_regs(set_a(s1.regs, v))
        },
        Instruction::PHA => push_spec(s, r.a),
        Instruction::PLP => {
            let (s1, v) = pull_spec(s);
            s1.with_regs(Registers { p: pulled_status(v), ..s1.regs })
        },
        Instruction::PHP => push_spec(s, pushed_status(r.p, true)),
        Instruction::BPL | Instruction::BMI | Instruction::BVC | Instruction::BVS
        | Instruction::BCC | Instruction::BCS | Instruction::BNE | Instruction::BEQ => {
            if branch_taken(i, r) {
                s.with_regs(Registers { pc: target(ad), ..r })
            } else {
                s
            }
        },
        Instruction::BRK => service_spec(s, wrap16(r.pc + 1), pushed_status(r.p, true), 0xfffe),
        Instruction::RTI => {
            let (s1, v) = pull_spec(s);
            let (s2, lo) = pull_spec(s1);
            let (s3, hi) = pull_spec(s2);
            s3.with_regs(Registers { p: pulled_status(v), pc: make_word(lo, hi), ..s3.regs })
        },
        Instruction::JSR => {
            let ret = wrap16(r.pc - 1);
            let s1 = push_spec(s, (ret >> 8u16) as u8);
            let s2 = push_spec(s1, (ret & 0xff) as u8);
            s2.with_regs(Registers { pc: target(ad), ..s2.regs })
        },
        Instruction::RTS => {
            let (s1, lo) = pull_spec(s);
            let (s2, hi) = pull_spec(s1);
            s2.with_regs(Registers { pc: wrap16(make_word(lo, hi) + 1), ..s2.regs })
        },
        Instruction::JMP => s.with_regs(Registers { pc: target(ad), ..r }),
        Instruction::BIT => s.with_regs(
            r.with_flag(Flags::Z, r.a & m == 0).with_flag(Flags::V, m & 0x40 != 0).with_flag(
                Flags::N,
                m & 0x80 != 0,
            ),
        ),
        Instruction::CLC => s.with_regs(r.with_flag(Flags::C, false)),
        Instruction::SEC => s.with_regs(r.with_flag(Flags::C, true)),
        Instruction::CLD => s.with_regs(r.with_flag(Flags::D, false)),
        Instruction::SED => s.with_regs(r.with_flag(Flags::D, true)),
        Instruction::CLI => s.with_regs(r.with_flag(Flags::I, false)),
        Instruction::SEI => s.with_regs(r.with_flag(Flags::I, true)),
        Instruction::CLV => s.with_regs(r.with_flag(Flags::V, false)),
        Instruction::NOP => s,
        Instruction::SLO => {
            let (s1, v) = shifted_spec(i, ad, s);
            s1.with_regs(set_a(s1.regs, s1.regs.a | v))
        },
        Instruction::RLA => {
            let (s1, v) = shifted_spec(i, ad, s);
            s1.with_regs(set_a(s1.regs, s1.regs.a & v))
        },
        Instruction::SRE => {
            let (s1, v) = shifted_spec(i, ad, s);
            s1.with_regs(set_a(s1.regs, s1.regs.a ^ v))
        },
        Instruction::RRA => {
            let (s1, v) = shifted_spec(i, ad, s);
            s1.with_regs(adc_spec(s1.regs, v))
        },
        Instruction::DCP => {
            let (s1, v) = stepped_spec(ad, s, false);
            s1.with_regs(compare_spec(s1.regs, s1.regs.a, v))
        },
        Instruction::ISC => {
            let (s1, v) = stepped_spec(ad, s, true);
            s1.with_regs(sbc_spec(s1.regs, v))
        },
    }
}

/// Load-accumulator loads the operand and sets zero and negative from it.
pub proof fn lemma_exec_lda(ad: AddressData, s: CpuState)
    ensures
        exec_spec(Instruction::LDA, ad, s) == s.with_regs(set_a(s.regs, operand(s, ad))),
{
    reveal(exec_spec);
}

pub proof fn lemma_pulled_status_live(v: u8)
    ensures
        pulled_status(v) & 0x30 == 0,
{
    assert((v & 0xcfu8) & 0x30u8 == 0) by (bit_vector);
}

pub fn target_of(ad: AddressData) -> (r: u16)
    ensures
        r == target(ad),
{
    match ad.address {
        Some(a) => a,
        None => 0,
    }
}

impl CPU {
    pub fn operand(&self, ad: AddressData) -> (r: u8)
        requires
            self.wf(),
        ensures
            r == operand(self@, ad),
    {
        match ad.data {
            Some(v) => v,
            None => match ad.address {
                Some(a) => self.read(a),
                None => 0,
            },
        }
    }

    pub fn store(&mut self, ad: AddressData, v: u8)
        requires
            old(self).wf(),
        ensures
            final(self).wf(),
            final(self)@ == store_spec(old(self)@, ad, v),
    {
        match ad.address {
            Some(a) => self.write(a, v),
            None => self.regs.a = v,
        }
    }

    pub fn set_zn(&mut self, v: u8)
        requires
            old(self).wf(),
        ensures
            final(self).wf(),
            final(self)@ == old(self)@.with_regs(zn(old(self).regs, v)),
    {
        self.regs.set_flag(Flags::Z, v == 0);
        self.regs.set_flag(Flags::N, v & 0x80 != 0);
    }

    pub fn load_a(&mut self, v: u8)
        requires
            old(self).wf(),
        ensures
            final(self).wf(),
            final(self)@ == old(self)@.with_regs(set_a(old(self).regs, v)),
    {
        self.regs.a = v;
        self.set_zn(v);
    }

    pub fn load_x(&mut self, v: u8)
        requires
            old(self).wf(),
        ensures
            final(self).wf(),
            final(self)@ == old(self)@.with_regs(set_x(old(self).regs, v)),
    {
        self.regs.x = v;
        self.set_zn(v);
    }

    pub fn load_y(&mut self, v: u8)
        requires
            old(self).wf(),
        ensures
            final(self).wf(),
            final(self)@ == old(self)@.with_regs(set_y(old(self).regs, v)),
    {
        self.regs.y = v;
        self.set_zn(v);
    }

    /// Adds `m` and the carry to the accumulator.
    pub fn add_with_carry(&mut self, m: u8)
        requires
            old(self).wf(),
        ensures
            final(self).wf(),
            final(self)@ == old(self)@.with_regs(adc_spec(old(self).regs, m)),
    {
        let a = self.regs.a;
        let c: u16 = if self.regs.get_flag(Flags::C) {
            1
        } else {
            0
        };
        let sum: u16 = a as u16 + m as u16 + c;
        let res: u8 = if sum > 255 {
            (sum - 256) as u8
        } else {
            sum as u8
        };
        let overflow = ((a ^ res) & (m ^ res) & 0x80) != 0;
        self.regs.set_flag(Flags::C, sum > 255);
        self.regs.set_flag(Flags::V, overflow);
        self.load_a(res);
    }

    pub fn compare(&mut self, reg: u8, m: u8)
        requires
            old(self).wf(),
        ensures
            final(self).wf(),
            final(self)@ == old(self)@.with_regs(compare_spec(old(self).regs, reg, m)),
    {
        self.regs.set_flag(Flags::C, reg >= m);
        self.set_zn(sub8(reg, m));
    }

    /// Shifts or rotates the operand in place; returns the new value.
    pub fn shift(&mut self, i: Instruction, ad: AddressData) -> (r: u8)
        requires
            old(self).wf(),
        ensures
            final(self).wf(),
            (final(self)@, r) == shifted_spec(i, ad, old(self)@),
    {
        let m = self.operand(ad);
        let c = self.regs.get_flag(Flags::C);
        let (v, out): (u8, bool) = match i {
            Instruction::ASL | Instruction::SLO => (m << 1u8, m & 0x80 != 0),
            Instruction::ROL | Instruction::RLA => (
                (m << 1u8) | if c {
                    1u8
                } else {
                    0u8
                },
                m & 0x80 != 0,
            ),
            Instruction::LSR | Instruction::SRE => (m >> 1u8, m & 0x01 != 0),
            _ => (
                (m >> 1u8) | if c {
                    0x80u8
                } else {
                    0u8
                },
                m & 0x01 != 0,
            ),
        };
        self.store(ad, v);
        self.regs.set_flag(Flags::C, out);
        self.set_zn(v);
        v
    }

    /// Moves the operand up or down by one in place; returns the new value.
    pub fn step_operand(&mut self, ad: AddressData, up: bool) -> (r: u8)
        requires
            old(self).wf(),
        ensures
            final(self).wf(),
            (final(self)@, r) == stepped_spec(ad, old(self)@, up),
    {
        let m = self.operand(ad);
        let v = if up {
            add8(m, 1)
        } else {
            sub8(m, 1)
        };
        self.store(ad, v);
        self.set_zn(v);
        v
    }

    /// Interrupt entry: pushes `ret` and `status`, sets IRQ-disable, and
    /// jumps through `vector`.
    pub fn service(&mut self, ret: u16, status: u8, vector: u16)
        requires
            old(self).wf(),
        ensures
            final(self).wf(),
            final(self)@ == service_spec(old(self)@, ret, status, vector),
    {
        self.push((ret >> 8u16) as u8);
        self.push((ret & 0xff) as u8);
        self.push(status);
        self.regs.set_flag(Flags::I, true);
        self.regs.pc = self.read_word(vector);
    }

    pub fn pull_status(&mut self)
        requires
            old(self).wf(),
        ensures
            final(self).wf(),
            final(self)@ == ({
                let (s1, v) = pull_spec(old(self)@);
                s1.with_regs(Registers { p: pulled_status(v), ..s1.regs })
            }),
    {
        let v = self.pull();
        proof {
            lemma_pulled_status_live(v);
        }
        self.regs.p = v & 0xcf;
    }

    /// Carries out instruction `i` on the resolved operand `ad`; returns the
    /// extra cycles of a taken branch.
    pub fn execute_instruction(&mut self, i: Instruction, ad: AddressData) -> (r: u8)
        requires
            old(self).wf(),
        ensures
            final(self).wf(),
            final(self)@ == exec_spec(i, ad, old(self)@),
            r == branch_cycles(i, ad, old(self)@),
    {
        reveal(exec_spec);
        let m = self.operand(ad);
        let a = self.regs.a;
        let x = self.regs.x;
        let y = self.regs.y;
        match i {
            Instruction::ORA => self.load_a(a | m),
            Instruction::AND => self.load_a(a & m),
            Instruction::EOR => self.load_a(a ^ m),
            Instruction::ADC => self.add_with_carry(m),
            Instruction::SBC => self.add_with_carry(m ^ 0xff),
            Instruction::CMP => self.compare(a, m),
            Instruction::CPX => self.compare(x, m),
            Instruction::CPY => self.compare(y, m),
            Instruction::DEC => {
                self.step_operand(ad, false);
            },
            Instruction::INC => {
                self.step_operand(ad, true);
            },
            Instruction::DEX => self.load_x(sub8(x, 1)),
            Instruction::DEY => self.load_y(sub8(y, 1)),
            Instruction::INX => self.load_x(add8(x, 1)),
            Instruction::INY => self.load_y(add8(y, 1)),
            Instruction::ASL | Instruction::ROL | Instruction::LSR | Instruction::ROR => {
                self.shift(i, ad);
            },
            Instruction::LDA => self.load_a(m),
            Instruction::LDX => self.load_x(m),
            Instruction::LDY => self.load_y(m),
            Instruction::LAX => {
                self.load_a(m);
                self.load_x(m);
            },
            Instruction::STA => self.write(target_of(ad), a),
            Instruction::STX => self.write(target_of(ad), x),
            Instruction::STY => self.write(target_of(ad), y),
            Instruction::SAX => self.write(target_of(ad), a & x),
            Instruction::TAX => self.load_x(a),
            Instruction::TXA => self.load_a(x),
            Instruction::TAY => self.load_y(a),
            Instruction::TYA => self.load_a(y),
            Instruction::TSX => self.load_x(self.regs.sp),
            Instruction::TXS => self.regs.sp = x,
            Instruction::PLA => {
                let v = self.pull();
                self.load_a(v);
            },
            Instruction::PHA => self.push(a),
            Instruction::PLP => self.pull_status(),
            Instruction::PHP => self.push(self.regs.p | 0x30),
            Instruction::BPL | Instruction::BMI | Instruction::BVC | Instruction::BVS
            | Instruction::BCC | Instruction::BCS | Instruction::BNE | Instruction::BEQ => {
                return self.branch(i, ad);
            },
            Instruction::BRK => {
                let ret = add16(self.regs.pc, 1);
                self.service(ret, self.regs.p | 0x30, 0xfffe);
            },
            Instruction::RTI => {
                self.pull_status();
                let lo = self.pull();
                let hi = self.pull();
                self.regs.pc = word_of(lo, hi);
            },
            Instruction::JSR => {
                let ret = sub16(self.regs.pc, 1);
                self.push((ret >> 8u16) as u8);
                self.push((ret & 0xff) as u8);
                self.regs.pc = target_of(ad);
            },
            Instruction::RTS => {
                let lo = self.pull();
                let hi = self.pull();
                self.regs.pc = add16(word_of(lo, hi), 1);
            },
            Instruction::JMP => self.regs.pc = target_of(ad),
            Instruction::BIT => {
                self.regs.set_flag(Flags::Z, a & m == 0);
                self.regs.set_flag(Flags::V, m & 0x40 != 0);
                self.regs.set_flag(Flags::N, m & 0x80 != 0);
            },
            Instruction::CLC => self.regs.set_flag(Flags::C, false),
            Instruction::SEC => self.regs.set_flag(Flags::C, true),
            Instruction::CLD => self.regs.set_flag(Flags::D, false),
            Instruction::SED => self.regs.set_flag(Flags::D, true),
            Instruction::CLI => self.regs.set_flag(Flags::I, false),
            Instruction::SEI => self.regs.set_flag(Flags::I, true),
            Instruction::CLV => self.regs.set_flag(Flags::V, false),
            Instruction::NOP => {},
            Instruction::SLO => {
                let v = self.shift(i, ad);
                self.load_a(self.regs.a | v);
            },
            Instruction::RLA => {
                let v = self.shift(i, ad);
                self.load_a(self.regs.a & v);
            },
            Instruction::SRE => {
                let v = self.shift(i, ad);
                self.load_a(self.regs.a ^ v);
            },
            Instruction::RRA => {
                let v = self.shift(i, ad);
                self.add_with_carry(v);
            },
            Instruction::DCP => {
                let v = self.step_operand(ad, false);
                self.compare(self.regs.a, v);
            },
            Instruction::ISC => {
                let v = self.step_operand(ad, true);
                self.add_with_carry(v ^ 0xff);
            },
        }
        0
    }

    /// Jumps to the resolved address when the branch condition holds;
    /// returns the extra cycles.
    pub fn branch(&mut self, i: Instruction, ad: AddressData) -> (r: u8)
        requires
            old(self).wf(),
            is_branch(i),
        ensures
            final(self).wf(),
            final(self)@ == exec_spec(i, ad, old(self)@),
            r == branch_cycles(i, ad, old(self)@),
    {
        reveal(exec_spec);
        let taken = match i {
            Instruction::BPL => !self.regs.get_flag(Flags::N),
            Instruction::BMI => self.regs.get_flag(Flags::N),
            Instruction::BVC => !self.regs.get_flag(Flags::V),
            Instruction::BVS => self.regs.get_flag(Flags::V),
            Instruction::BCC => !self.regs.get_flag(Flags::C),
            Instruction::BCS => self.regs.get_flag(Flags::C),
            Instruction::BNE => !self.regs.get_flag(Flags::Z),
            Instruction::BEQ => self.regs.get_flag(Flags::Z),
            _ => false,
        };
        if taken {
            let to = target_of(ad);
            let extra: u8 = if is_cross_page(self.regs.pc, to) {
                2
            } else {
                1
            };
            self.regs.pc = to;
            extra
        } else {
            0
        }
    }
}

} // verus!
