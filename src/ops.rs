//! The instruction families of the LR35902, one method each. A method is
//! called once per machine cycle of its instruction; `current_cycle` says
//! which cycle it runs, and the method ends the instruction (cycle 0) on its
//! last one.
use vstd::prelude::*;

use crate::alu::{
    add_offset, alu8, alu8_spec, bit_mask, bit_of, cpl_spec, daa8, daa_spec, dec8, dec8_spec,
    flag_byte, hi_byte, inc8, inc8_spec, lo_byte, make_flags, offset16, res_bit, res_spec,
    rotate_a, rotate_a_spec, set_bit, set_spec, shift8, shift_spec, sp_flags, sp_offset_flags,
    test_bit, word,
};
use crate::cpu::{Cpu, Flag, HalfReg, Reg};
use crate::mem::{is_ram, lemma_write_keeps, lemma_write_read, Mem};

verus! {

/// `v + 1`, wrapping at 16 bits.
pub open spec fn inc16(v: u16) -> u16 {
    ((v + 1) % 65536) as u16
}

/// `v - 1`, wrapping at 16 bits.
pub open spec fn dec16(v: u16) -> u16 {
    ((v + 65535) % 65536) as u16
}

pub fn wrapping_inc(v: u16) -> (r: u16)
    ensures
        r == inc16(v),
{
    if v == 65535 {
        0
    } else {
        v + 1
    }
}

pub fn wrapping_dec(v: u16) -> (r: u16)
    ensures
        r == dec16(v),
{
    if v == 0 {
        65535
    } else {
        v - 1
    }
}

/// The half register named by a three-bit operand code other than 6
/// (which names the byte at HL): B, C, D, E, H, L, -, A.
pub open spec fn half_of(i: u8) -> HalfReg {
    if i == 0 {
        HalfReg::B
    } else if i == 1 {
        HalfReg::C
    } else if i == 2 {
        HalfReg::D
    } else if i == 3 {
        HalfReg::E
    } else if i == 4 {
        HalfReg::H
    } else if i == 5 {
        HalfReg::L
    } else {
        HalfReg::A
    }
}

pub fn half_reg(i: u8) -> (r: HalfReg)
    ensures
        r == half_of(i),
{
    if i == 0 {
        HalfReg::B
    } else if i == 1 {
        HalfReg::C
    } else if i == 2 {
        HalfReg::D
    } else if i == 3 {
        HalfReg::E
    } else if i == 4 {
        HalfReg::H
    } else if i == 5 {
        HalfReg::L
    } else {
        HalfReg::A
    }
}

/// The register pair named by a two-bit code in loads and 16-bit arithmetic:
/// BC, DE, HL, SP.
pub open spec fn pair_rp(p: u8) -> Reg {
    if p == 0 {
        Reg::BC
    } else if p == 1 {
        Reg::DE
    } else if p == 2 {
        Reg::HL
    } else {
        Reg::SP
    }
}

/// The register pair named by a two-bit code in PUSH and POP: BC, DE, HL, AF.
pub open spec fn pair_rp2(p: u8) -> Reg {
    if p == 0 {
        Reg::BC
    } else if p == 1 {
        Reg::DE
    } else if p == 2 {
        Reg::HL
    } else {
        Reg::AF
    }
}

pub fn reg_rp(p: u8) -> (r: Reg)
    ensures
        r == pair_rp(p),
{
    if p == 0 {
        Reg::BC
    } else if p == 1 {
        Reg::DE
    } else if p == 2 {
        Reg::HL
    } else {
        Reg::SP
    }
}

pub fn reg_rp2(p: u8) -> (r: Reg)
    ensures
        r == pair_rp2(p),
{
    if p == 0 {
        Reg::BC
    } else if p == 1 {
        Reg::DE
    } else if p == 2 {
        Reg::HL
    } else {
        Reg::AF
    }
}

impl Cpu {
    /// What a cycle keeps: the registers stay well formed, and the
    /// instruction either ends (cycle 0) or goes on to a cycle that exists.
    pub open spec fn cycle_ok(o: Cpu, n: Cpu) -> bool {
        &&& n.regs_wf()
        &&& (n.current_cycle == 0 || (n.current_cycle == o.current_cycle && o.current_cycle < 6))
    }

    /// What a cycle keeps of the bus: it stays well formed, and the CPU
    /// changes neither the PPU mode bits of STAT nor LY.
    pub open spec fn bus_ok(om: Mem, nm: Mem) -> bool {
        &&& nm.wf()
        &&& nm.stat() % 4 == om.stat() % 4
        &&& nm.ly() == om.ly()
    }

    /// `n` is `o` with register `r` set to `v` and the instruction ended.
    pub open spec fn done_with(o: Cpu, n: Cpu, r: Reg, v: u16) -> bool {
        Self::word_set(Cpu { current_cycle: 0, ..o }, n, r, v)
    }

    /// Reads the byte at PC and moves PC past it.
    pub fn get_op(&mut self, mem: &Mem) -> (r: u8)
        requires
            mem.wf(),
        ensures
            r == mem.read_spec(old(self).PC),
            *final(self) == (Cpu { PC: inc16(old(self).PC), ..*old(self) }),
    {
        let pc = self.PC;
        self.PC = wrapping_inc(pc);
        mem.get(pc)
    }

    pub(crate) fn stage(&mut self, i: usize, v: u8)
        requires
            old(self).store@.len() == 5,
            i < 5,
        ensures
            *final(self) == (Cpu { store: final(self).store, ..*old(self) }),
            final(self).store@ == old(self).store@.update(i as int, v),
    {
        self.store.set(i, v);
    }

    /// Fetches an operand byte into the staging buffer.
    pub(crate) fn fetch_stage(&mut self, mem: &Mem, i: usize)
        requires
            old(self).store@.len() == 5,
            i < 5,
            mem.wf(),
        ensures
            *final(self) == (Cpu {
                PC: inc16(old(self).PC),
                store: final(self).store,
                ..*old(self)
            }),
            final(self).store@ == old(self).store@.update(i as int, mem.read_spec(old(self).PC)),
    {
        let v = self.get_op(mem);
        self.stage(i, v);
    }

    /// `n` is `o` after an operand byte was fetched from PC into slot `i` of
    /// the staging buffer, PC moving past it.
    pub open spec fn fetched_operand(o: Cpu, n: Cpu, om: Mem, i: int) -> bool {
        &&& n == (Cpu { PC: inc16(o.PC), store: n.store, ..o })
        &&& n.store@ == o.store@.update(i, om.read_spec(o.PC))
    }

    /// `n` is `o` after a byte was popped from SP into slot `i` of the
    /// staging buffer, SP moving up by one.
    pub open spec fn popped_operand(o: Cpu, n: Cpu, om: Mem, i: int) -> bool {
        &&& n == (Cpu { SP: inc16(o.SP), store: n.store, ..o })
        &&& n.store@ == o.store@.update(i, om.read_spec(o.SP))
    }

    /// The 16-bit operand staged low byte first.
    pub open spec fn staged_word(&self) -> u16 {
        word(self.store@[1], self.store@[0])
    }

    pub(crate) fn staged(&self) -> (r: u16)
        requires
            self.store@.len() == 5,
        ensures
            r == self.staged_word(),
    {
        crate::alu::make_word(self.store[1], self.store[0])
    }

    /// NOP, and the undefined opcodes: one cycle, no effect.
    pub fn noop(&mut self)
        ensures
            *final(self) == (Cpu { current_cycle: 0, ..*old(self) }),
    {
        self.reset();
    }

    /// LD r,r': one cycle.
    fn ld_r_r(&mut self, to: &HalfReg, from: &HalfReg)
        requires
            old(self).wf(),
            *to != HalfReg::F,
        ensures
            Self::cycle_ok(*old(self), *final(self)),
            Self::done_with(
                *old(self),
                *final(self),
                Self::pair_of(*to),
                Self::with_half(
                    old(self).word_reg(Self::pair_of(*to)),
                    *to,
                    old(self).byte_reg(*from),
                ),
            ),
    {
        let v = self.get_byte_reg(from);
        self.set_byte_reg(to, v);
        self.reset();
    }

    /// LD r,(HL): reads the byte at HL on cycle 2.
    fn ld_r_hl(&mut self, to: &HalfReg, mem: &Mem)
        requires
            old(self).wf(),
            mem.wf(),
            *to != HalfReg::F,
        ensures
            Self::cycle_ok(*old(self), *final(self)),
            old(self).current_cycle == 2 ==> Self::done_with(
                *old(self),
                *final(self),
                Self::pair_of(*to),
                Self::with_half(
                    old(self).word_reg(Self::pair_of(*to)),
                    *to,
                    mem.read_spec(old(self).HL),
                ),
            ),
    {
        if self.current_cycle == 2 {
            let v = mem.get(self.HL);
            self.set_byte_reg(to, v);
            self.reset();
        } else if self.current_cycle != 1 {
            self.reset();
        }
    }

    /// LD (HL),r: writes on cycle 2.
    fn ld_hl_r(&mut self, mem: &mut Mem, from: &HalfReg)
        requires
            old(self).wf(),
            old(mem).wf(),
        ensures
            Self::cycle_ok(*old(self), *final(self)),
            Self::bus_ok(*old(mem), *final(mem)),
            old(self).current_cycle == 2 ==> *final(self) == (Cpu {
                current_cycle: 0,
                ..*old(self)
            }) && Mem::write_effect(
                *old(mem),
                *final(mem),
                old(self).HL,
                old(self).byte_reg(*from),
            ),
            old(self).current_cycle != 2 ==> *final(mem) == *old(mem),
    {
        if self.current_cycle == 2 {
            let v = self.get_byte_reg(from);
            mem.set(self.HL, v);
            self.reset();
        } else if self.current_cycle != 1 {
            self.reset();
        }
    }

    /// LD r,d8: fetches the operand on cycle 2.
    fn ld_r_d8(&mut self, mem: &Mem, to: &HalfReg)
        requires
            old(self).wf(),
            mem.wf(),
            *to != HalfReg::F,
        ensures
            Self::cycle_ok(*old(self), *final(self)),
            old(self).current_cycle == 2 ==> Self::done_with(
                Cpu { PC: inc16(old(self).PC), ..*old(self) },
                *final(self),
                Self::pair_of(*to),
                Self::with_half(
                    old(self).word_reg(Self::pair_of(*to)),
                    *to,
                    mem.read_spec(old(self).PC),
                ),
            ),
    {
        if self.current_cycle == 2 {
            let v = self.get_op(mem);
            self.set_byte_reg(to, v);
            self.reset();
        } else if self.current_cycle != 1 {
            self.reset();
        }
    }

    /// LD (HL),d8: fetches on cycle 2, writes on cycle 3.
    fn ld_hl_d8(&mut self, mem: &mut Mem)
        requires
            old(self).wf(),
            old(mem).wf(),
        ensures
            old(self).current_cycle == 2 ==> Self::fetched_operand(*old(self), *final(self), *old(mem), 0)
                && *final(mem) == *old(mem),
            Self::cycle_ok(*old(self), *final(self)),
            Self::bus_ok(*old(mem), *final(mem)),
            old(self).current_cycle == 2 ==> final(self).store@[0] == old(mem).read_spec(
                old(self).PC,
            ),
            old(self).current_cycle == 3 ==> Mem::write_effect(
                *old(mem),
                *final(mem),
                old(self).HL,
                old(self).store@[0],
            ),
    {
        if self.current_cycle == 2 {
            self.fetch_stage(mem, 0);
        } else if self.current_cycle == 3 {
            let v = self.store[0];
            mem.set(self.HL, v);
            self.reset();
        } else if self.current_cycle != 1 {
            self.reset();
        }
    }

    /// LD rr,d16: low byte on cycle 2, high byte on cycle 3.
    pub fn ld_rr_d16(&mut self, mem: &Mem, reg: &Reg)
        requires
            old(self).wf(),
            mem.wf(),
            *reg != Reg::AF,
        ensures
            old(self).current_cycle == 2 ==> Self::fetched_operand(*old(self), *final(self), *mem, 0),
            Self::cycle_ok(*old(self), *final(self)),
            old(self).current_cycle == 2 ==> final(self).store@[0] == mem.read_spec(old(self).PC)
                && final(self).PC == inc16(old(self).PC),
            old(self).current_cycle == 3 ==> Self::done_with(
                Cpu { PC: inc16(old(self).PC), store: final(self).store, ..*old(self) },
                *final(self),
                *reg,
                word(mem.read_spec(old(self).PC), old(self).store@[0]),
            ),
    {
        if self.current_cycle == 2 {
            self.fetch_stage(mem, 0);
        } else if self.current_cycle == 3 {
            self.fetch_stage(mem, 1);
            let v = self.staged();
            self.set_word_reg(reg, v);
            self.reset();
        } else if self.current_cycle != 1 {
            self.reset();
        }
    }

    /// LD (rr),A: writes A at the address in BC or DE on cycle 2.
    pub fn ld_ar_a(&mut self, to_reg: &Reg, mem: &mut Mem)
        requires
            old(self).wf(),
            old(mem).wf(),
        ensures
            Self::cycle_ok(*old(self), *final(self)),
            Self::bus_ok(*old(mem), *final(mem)),
            old(self).current_cycle == 2 ==> *final(self) == (Cpu {
                current_cycle: 0,
                ..*old(self)
            }) && Mem::write_effect(
                *old(mem),
                *final(mem),
                old(self).word_reg(*to_reg),
                old(self).a(),
            ),
    {
        if self.current_cycle == 2 {
            let v = self.get_byte_reg(&HalfReg::A);
            let addr = self.get_word_reg(to_reg);
            mem.set(addr, v);
            self.reset();
        } else if self.current_cycle != 1 {
            self.reset();
        }
    }

    /// LD A,(rr): reads the byte at BC or DE into A on cycle 2.
    fn ld_a_rr(&mut self, mem: &Mem, from: &Reg)
        requires
            old(self).wf(),
            mem.wf(),
        ensures
            Self::cycle_ok(*old(self), *final(self)),
            old(self).current_cycle == 2 ==> final(self).a() == mem.read_spec(
                old(self).word_reg(*from),
            ) && final(self).current_cycle == 0,
    {
        if self.current_cycle == 2 {
            let addr = self.get_word_reg(from);
            let v = mem.get(addr);
            self.set_byte_reg(&HalfReg::A, v);
            self.reset();
        } else if self.current_cycle != 1 {
            self.reset();
        }
    }

    /// LD (HL+),A and LD (HL-),A: writes A at HL, then steps HL.
    fn ld_hl_step_a(&mut self, mem: &mut Mem, up: bool)
        requires
            old(self).wf(),
            old(mem).wf(),
        ensures
            Self::cycle_ok(*old(self), *final(self)),
            Self::bus_ok(*old(mem), *final(mem)),
            old(self).current_cycle == 2 ==> Mem::write_effect(
                *old(mem),
                *final(mem),
                old(self).HL,
                old(self).a(),
            ) && final(self).HL == (if up {
                inc16(old(self).HL)
            } else {
                dec16(old(self).HL)
            }),
    {
        if self.current_cycle == 2 {
            let v = self.get_byte_reg(&HalfReg::A);
            mem.set(self.HL, v);
            self.HL = if up {
                wrapping_inc(self.HL)
            } else {
                wrapping_dec(self.HL)
            };
            self.reset();
        } else if self.current_cycle != 1 {
            self.reset();
        }
    }

    /// LD A,(HL+): reads the byte at HL into A, then increments HL.
    pub fn ld_a_hl_inc(&mut self, mem: &Mem)
        requires
            old(self).wf(),
            mem.wf(),
        ensures
            Self::cycle_ok(*old(self), *final(self)),
            old(self).current_cycle == 2 ==> final(self).a() == mem.read_spec(old(self).HL)
                && final(self).HL == inc16(old(self).HL),
    {
        self.ld_a_hl_step(mem, true);
    }

    /// LD A,(HL-): reads the byte at HL into A, then decrements HL.
    pub fn ld_a_hl_dec(&mut self, mem: &Mem)
        requires
            old(self).wf(),
            mem.wf(),
        ensures
            Self::cycle_ok(*old(self), *final(self)),
            old(self).current_cycle == 2 ==> final(self).a() == mem.read_spec(old(self).HL)
                && final(self).HL == dec16(old(self).HL),
    {
        self.ld_a_hl_step(mem, false);
    }

    fn ld_a_hl_step(&mut self, mem: &Mem, up: bool)
        requires
            old(self).wf(),
            mem.wf(),
        ensures
            Self::cycle_ok(*old(self), *final(self)),
            old(self).current_cycle == 2 ==> final(self).a() == mem.read_spec(old(self).HL)
                && final(self).HL == (if up {
                inc16(old(self).HL)
            } else {
                dec16(old(self).HL)
            }),
    {
        if self.current_cycle == 2 {
            let v = mem.get(self.HL);
            self.set_byte_reg(&HalfReg::A, v);
            self.HL = if up {
                wrapping_inc(self.HL)
            } else {
                wrapping_dec(self.HL)
            };
            self.reset();
        } else if self.current_cycle != 1 {
            self.reset();
        }
    }
}

impl Cpu {
    /// This state with A and F set from an operation's result.
    pub open spec fn with_af(self, r: (u8, u8)) -> Cpu {
        Cpu { AF: word(r.0, r.1), ..self }
    }

    /// This state with F replaced by `f`.
    pub open spec fn with_f(self, f: u8) -> Cpu {
        Cpu { AF: ((self.AF / 256) * 256 + f) as u16, ..self }
    }

    fn set_af(&mut self, r: (u8, u8))
        requires
            r.1 % 16 == 0,
        ensures
            *final(self) == old(self).with_af(r),
            final(self).AF % 16 == 0,
    {
        self.AF = crate::alu::make_word(r.0, r.1);
    }

    fn carry(&self) -> (r: bool)
        ensures
            r == self.flag(Flag::C),
    {
        self.get_flag(Flag::C)
    }

    /// One of the eight accumulator operations on A and `b`.
    fn alu_a(&mut self, op: u8, b: u8)
        requires
            op < 8,
        ensures
            *final(self) == old(self).with_af(
                alu8_spec(op, old(self).a(), b, old(self).flag(Flag::C)),
            ),
            final(self).AF % 16 == 0,
    {
        let a = self.get_byte_reg(&HalfReg::A);
        let c = self.carry();
        let r = alu8(op, a, b, c);
        self.set_af(r);
    }

    /// ADD, ADC, SUB, SBC, AND, XOR, OR or CP with a register: one cycle.
    fn alu_r(&mut self, op: u8, from: &HalfReg)
        requires
            old(self).wf(),
            op < 8,
        ensures
            Self::cycle_ok(*old(self), *final(self)),
            *final(self) == (Cpu { current_cycle: 0, ..*old(self) }).with_af(
                alu8_spec(op, old(self).a(), old(self).byte_reg(*from), old(self).flag(Flag::C)),
            ),
    {
        let b = self.get_byte_reg(from);
        self.alu_a(op, b);
        self.reset();
    }

    /// The accumulator operation with the byte at HL, read on cycle 2.
    fn alu_m(&mut self, op: u8, mem: &Mem)
        requires
            old(self).wf(),
            mem.wf(),
            op < 8,
        ensures
            Self::cycle_ok(*old(self), *final(self)),
            old(self).current_cycle == 2 ==> *final(self) == (Cpu {
                current_cycle: 0,
                ..*old(self)
            }).with_af(
                alu8_spec(op, old(self).a(), mem.read_spec(old(self).HL), old(self).flag(Flag::C)),
            ),
    {
        if self.current_cycle == 2 {
            let b = mem.get(self.HL);
            self.alu_a(op, b);
            self.reset();
        } else if self.current_cycle != 1 {
            self.reset();
        }
    }

    /// The accumulator operation with an immediate byte, fetched on cycle 2.
    fn alu_d8(&mut self, op: u8, mem: &Mem)
        requires
            old(self).wf(),
            mem.wf(),
            op < 8,
        ensures
            Self::cycle_ok(*old(self), *final(self)),
            old(self).current_cycle == 2 ==> *final(self) == (Cpu {
                current_cycle: 0,
                PC: inc16(old(self).PC),
                ..*old(self)
            }).with_af(
                alu8_spec(op, old(self).a(), mem.read_spec(old(self).PC), old(self).flag(Flag::C)),
            ),
    {
        if self.current_cycle == 2 {
            let b = self.get_op(mem);
            self.alu_a(op, b);
            self.reset();
        } else if self.current_cycle != 1 {
            self.reset();
        }
    }

    /// The state after INC or DEC of a register, from the operation's result.
    pub open spec fn with_counted(self, reg: HalfReg, r: (u8, u8)) -> Cpu {
        let mid = self.with_reg(
            Self::pair_of(reg),
            Self::with_half(self.word_reg(Self::pair_of(reg)), reg, r.0),
        );
        Cpu { current_cycle: 0, ..mid.with_f(r.1) }
    }

    /// INC r: one cycle; C is kept.
    pub fn inc_r(&mut self, reg: &HalfReg)
        requires
            old(self).wf(),
            *reg != HalfReg::F,
        ensures
            Self::cycle_ok(*old(self), *final(self)),
            *final(self) == old(self).with_counted(
                *reg,
                inc8_spec(old(self).byte_reg(*reg), old(self).flag(Flag::C)),
            ),
    {
        let v = self.get_byte_reg(reg);
        let c = self.carry();
        let r = inc8(v, c);
        self.set_byte_reg(reg, r.0);
        self.set_f(r.1);
        self.reset();
    }

    /// DEC r: one cycle; C is kept.
    pub fn dec_r(&mut self, reg: &HalfReg)
        requires
            old(self).wf(),
            *reg != HalfReg::F,
        ensures
            Self::cycle_ok(*old(self), *final(self)),
            *final(self) == old(self).with_counted(
                *reg,
                dec8_spec(old(self).byte_reg(*reg), old(self).flag(Flag::C)),
            ),
    {
        let v = self.get_byte_reg(reg);
        let c = self.carry();
        let r = dec8(v, c);
        self.set_byte_reg(reg, r.0);
        self.set_f(r.1);
        self.reset();
    }

    /// INC rr: two cycles, no flags.
    pub fn inc_rr(&mut self, reg: &Reg)
        requires
            old(self).wf(),
            *reg != Reg::AF,
        ensures
            Self::cycle_ok(*old(self), *final(self)),
            old(self).current_cycle == 2 ==> Self::done_with(
                *old(self),
                *final(self),
                *reg,
                inc16(old(self).word_reg(*reg)),
            ),
    {
        if self.current_cycle == 2 {
            let v = self.get_word_reg(reg);
            self.set_word_reg(reg, wrapping_inc(v));
            self.reset();
        } else if self.current_cycle != 1 {
            self.reset();
        }
    }

    /// DEC rr: two cycles, no flags.
    pub fn dec_rr(&mut self, reg: &Reg)
        requires
            old(self).wf(),
            *reg != Reg::AF,
        ensures
            Self::cycle_ok(*old(self), *final(self)),
            old(self).current_cycle == 2 ==> Self::done_with(
                *old(self),
                *final(self),
                *reg,
                dec16(old(self).word_reg(*reg)),
            ),
    {
        if self.current_cycle == 2 {
            let v = self.get_word_reg(reg);
            self.set_word_reg(reg, wrapping_dec(v));
            self.reset();
        } else if self.current_cycle != 1 {
            self.reset();
        }
    }

    /// INC (HL) and DEC (HL): read and count on cycle 2, write on cycle 3.
    fn count_hl(&mut self, mem: &mut Mem, up: bool)
        requires
            old(self).wf(),
            old(mem).wf(),
        ensures
            Self::cycle_ok(*old(self), *final(self)),
            Self::bus_ok(*old(mem), *final(mem)),
            old(self).current_cycle == 2 ==> ({
                let v = old(mem).read_spec(old(self).HL);
                let r = if up {
                    inc8_spec(v, old(self).flag(Flag::C))
                } else {
                    dec8_spec(v, old(self).flag(Flag::C))
                };
                final(self).store@[0] == r.0 && final(self).f() == r.1 && final(self).a()
                    == old(self).a() && *final(mem) == *old(mem)
            }),
            old(self).current_cycle == 3 ==> Mem::write_effect(
                *old(mem),
                *final(mem),
                old(self).HL,
                old(self).store@[0],
            ),
    {
        if self.current_cycle == 2 {
            let v = mem.get(self.HL);
            let c = self.carry();
            let r = if up {
                inc8(v, c)
            } else {
                dec8(v, c)
            };
            self.stage(0, r.0);
            self.set_f(r.1);
        } else if self.current_cycle == 3 {
            let v = self.store[0];
            mem.set(self.HL, v);
            self.reset();
        } else if self.current_cycle != 1 {
            self.reset();
        }
    }

    /// INC (HL).
    pub fn inc_hl(&mut self, mem: &mut Mem)
        requires
            old(self).wf(),
            old(mem).wf(),
        ensures
            Self::cycle_ok(*old(self), *final(self)),
            Self::bus_ok(*old(mem), *final(mem)),
            old(self).current_cycle == 2 ==> ({
                let r = inc8_spec(old(mem).read_spec(old(self).HL), old(self).flag(Flag::C));
                final(self).store@[0] == r.0 && final(self).f() == r.1 && final(self).a() == old(
                    self,
                ).a() && *final(mem) == *old(mem)
            }),
            old(self).current_cycle == 3 ==> Mem::write_effect(
                *old(mem),
                *final(mem),
                old(self).HL,
                old(self).store@[0],
            ),
    {
        self.count_hl(mem, true);
    }

    /// DEC (HL).
    pub fn dec_hl(&mut self, mem: &mut Mem)
        requires
            old(self).wf(),
            old(mem).wf(),
        ensures
            Self::cycle_ok(*old(self), *final(self)),
            Self::bus_ok(*old(mem), *final(mem)),
            old(self).current_cycle == 2 ==> ({
                let r = dec8_spec(old(mem).read_spec(old(self).HL), old(self).flag(Flag::C));
                final(self).store@[0] == r.0 && final(self).f() == r.1 && final(self).a() == old(
                    self,
                ).a() && *final(mem) == *old(mem)
            }),
            old(self).current_cycle == 3 ==> Mem::write_effect(
                *old(mem),
                *final(mem),
                old(self).HL,
                old(self).store@[0],
            ),
    {
        self.count_hl(mem, false);
    }

    /// RLCA, RRCA, RLA, RRA (codes 0 to 3): one cycle.
    fn rotate_acc(&mut self, op: u8)
        requires
            old(self).wf(),
            op < 4,
        ensures
            Self::cycle_ok(*old(self), *final(self)),
            *final(self) == (Cpu { current_cycle: 0, ..*old(self) }).with_af(
                rotate_a_spec(op, old(self).a(), old(self).flag(Flag::C)),
            ),
    {
        let a = self.get_byte_reg(&HalfReg::A);
        let c = self.carry();
        let r = rotate_a(op, a, c);
        self.set_af(r);
        self.reset();
    }

    /// DAA: one cycle.
    fn daa(&mut self)
        requires
            old(self).wf(),
        ensures
            Self::cycle_ok(*old(self), *final(self)),
            *final(self) == (Cpu { current_cycle: 0, ..*old(self) }).with_af(
                daa_spec(
                    old(self).a(),
                    old(self).flag(Flag::N),
                    old(self).flag(Flag::H),
                    old(self).flag(Flag::C),
                ),
            ),
    {
        let a = self.get_byte_reg(&HalfReg::A);
        let n = self.get_flag(Flag::N);
        let h = self.get_flag(Flag::H);
        let c = self.get_flag(Flag::C);
        let r = daa8(a, n, h, c);
        self.set_af(r);
        self.reset();
    }

    /// CPL: A becomes its complement; N and H set, Z and C kept.
    fn cpl(&mut self)
        requires
            old(self).wf(),
        ensures
            Self::cycle_ok(*old(self), *final(self)),
            *final(self) == (Cpu { current_cycle: 0, ..*old(self) }).with_af(
                (
                    cpl_spec(old(self).a()),
                    flag_byte(old(self).flag(Flag::Z), true, true, old(self).flag(Flag::C)),
                ),
            ),
    {
        let a = self.get_byte_reg(&HalfReg::A);
        let z = self.get_flag(Flag::Z);
        let c = self.carry();
        let f = make_flags(z, true, true, c);
        self.set_af((255 - a, f));
        self.reset();
    }

    /// SCF (`flip` false) sets C; CCF (`flip` true) inverts it. N and H
    /// clear, Z kept.
    fn set_carry(&mut self, flip: bool)
        requires
            old(self).wf(),
        ensures
            Self::cycle_ok(*old(self), *final(self)),
            *final(self) == (Cpu { current_cycle: 0, ..*old(self) }).with_f(
                flag_byte(
                    old(self).flag(Flag::Z),
                    false,
                    false,
                    (if flip {
                        !old(self).flag(Flag::C)
                    } else {
                        true
                    }),
                ),
            ),
    {
        let z = self.get_flag(Flag::Z);
        let c = if flip {
            !self.carry()
        } else {
            true
        };
        let f = make_flags(z, false, false, c);
        self.set_f(f);
        self.reset();
    }

    /// ADD HL,rr on cycle 2: H from bit 11, C from bit 15, N clear, Z kept.
    fn add_hl_rr(&mut self, from: &Reg)
        requires
            old(self).wf(),
        ensures
            Self::cycle_ok(*old(self), *final(self)),
            old(self).current_cycle == 2 ==> ({
                let hl = old(self).HL;
                let v = old(self).word_reg(*from);
                *final(self) == (Cpu {
                    current_cycle: 0,
                    HL: ((hl + v) % 65536) as u16,
                    ..*old(self)
                }).with_f(
                    flag_byte(
                        old(self).flag(Flag::Z),
                        false,
                        (hl % 4096) + (v % 4096) > 4095,
                        hl + v > 65535,
                    ),
                )
            }),
    {
        if self.current_cycle == 2 {
            let hl = self.HL;
            let v = self.get_word_reg(from);
            let z = self.get_flag(Flag::Z);
            let f = make_flags(z, false, (hl % 4096) + (v % 4096) > 4095, hl as u32 + v as u32 > 65535);
            self.HL = ((hl as u32 + v as u32) % 65536) as u16;
            self.set_f(f);
            self.reset();
        } else if self.current_cycle != 1 {
            self.reset();
        }
    }

    /// ADD SP,s8: fetch on cycle 2, result on cycle 4.
    fn add_sp_s8(&mut self, mem: &Mem)
        requires
            old(self).wf(),
            mem.wf(),
        ensures
            old(self).current_cycle == 2 ==> Self::fetched_operand(*old(self), *final(self), *mem, 0),
            Self::cycle_ok(*old(self), *final(self)),
            old(self).current_cycle == 4 ==> *final(self) == (Cpu {
                current_cycle: 0,
                SP: offset16(old(self).SP, old(self).store@[0]),
                ..*old(self)
            }).with_f(sp_offset_flags(old(self).SP, old(self).store@[0])),
    {
        if self.current_cycle == 2 {
            self.fetch_stage(mem, 0);
        } else if self.current_cycle == 3 {
        } else if self.current_cycle == 4 {
            let b = self.store[0];
            let sp = self.SP;
            self.SP = add_offset(sp, b);
            let f = sp_flags(sp, b);
            self.set_f(f);
            self.reset();
        } else if self.current_cycle != 1 {
            self.reset();
        }
    }

    /// LD HL,SP+s8: fetch on cycle 2, result on cycle 3.
    fn ld_hl_sp_s8(&mut self, mem: &Mem)
        requires
            old(self).wf(),
            mem.wf(),
        ensures
            old(self).current_cycle == 2 ==> Self::fetched_operand(*old(self), *final(self), *mem, 0),
            Self::cycle_ok(*old(self), *final(self)),
            old(self).current_cycle == 3 ==> *final(self) == (Cpu {
                current_cycle: 0,
                HL: offset16(old(self).SP, old(self).store@[0]),
                ..*old(self)
            }).with_f(sp_offset_flags(old(self).SP, old(self).store@[0])),
    {
        if self.current_cycle == 2 {
            self.fetch_stage(mem, 0);
        } else if self.current_cycle == 3 {
            let b = self.store[0];
            let sp = self.SP;
            self.HL = add_offset(sp, b);
            let f = sp_flags(sp, b);
            self.set_f(f);
            self.reset();
        } else if self.current_cycle != 1 {
            self.reset();
        }
    }

    /// LD SP,HL on cycle 2.
    fn ld_sp_hl(&mut self)
        requires
            old(self).wf(),
        ensures
            Self::cycle_ok(*old(self), *final(self)),
            old(self).current_cycle == 2 ==> *final(self) == (Cpu {
                current_cycle: 0,
                SP: old(self).HL,
                ..*old(self)
            }),
    {
        if self.current_cycle == 2 {
            self.SP = self.HL;
            self.reset();
        } else if self.current_cycle != 1 {
            self.reset();
        }
    }
}

/// Whether condition code `cc` (NZ, Z, NC, C) holds for the flags in `af`.
pub open spec fn cond_spec(af: u16, cc: u8) -> bool {
    if cc == 0 {
        (af / 128) % 2 == 0
    } else if cc == 1 {
        (af / 128) % 2 == 1
    } else if cc == 2 {
        (af / 16) % 2 == 0
    } else {
        (af / 16) % 2 == 1
    }
}

/// The opcodes that the LR35902 leaves undefined; each runs as a one-cycle
/// no-op.
pub open spec fn is_undefined(op: u8) -> bool {
    op == 0xD3 || op == 0xDB || op == 0xDD || op == 0xE3 || op == 0xE4 || op == 0xEB || op == 0xEC
        || op == 0xED || op == 0xF4 || op == 0xFC || op == 0xFD
}

/// The value a POP into `r` gives from the bytes `hi` and `lo`.
pub open spec fn popped(r: Reg, hi: u8, lo: u8) -> u16 {
    crate::cpu::stored_word(r, word(hi, lo))
}

/// A CB-page operation on the value `v` with flag byte `f`: the new value
/// and the new flag byte. Codes 0x00..=0x3F shift, 0x40.. test a bit,
/// 0x80.. clear it, 0xC0.. set it.
pub open spec fn cb_spec(cb: u8, v: u8, f: u8) -> (u8, u8) {
    let x = cb / 64;
    let y = ((cb / 8) % 8) as u8;
    if x == 0 {
        shift_spec(y, v, (f / 16) % 2 == 1)
    } else if x == 1 {
        (v, flag_byte(!bit_of(v as int, y as int), false, true, (f / 16) % 2 == 1))
    } else if x == 2 {
        (res_spec(v, y as int), f)
    } else {
        (set_spec(v, y as int), f)
    }
}

pub fn cb_op(cb: u8, v: u8, f: u8) -> (r: (u8, u8))
    requires
        f % 16 == 0,
    ensures
        r == cb_spec(cb, v, f),
        r.1 % 16 == 0,
{
    let x = cb / 64;
    let y = (cb / 8) % 8;
    let c = (f / 16) % 2 == 1;
    if x == 0 {
        shift8(y, v, c)
    } else if x == 1 {
        let b = test_bit(v, y);
        (v, make_flags(!b, false, true, c))
    } else if x == 2 {
        (res_bit(v, y), f)
    } else {
        (set_bit(v, y), f)
    }
}

/// The interrupt that dispatch takes for IF and IE: the lowest source
/// (0 VBlank, 1 LCD STAT, 2 timer, 3 serial, 4 joypad) requested and
/// enabled, or 5 when there is none.
pub open spec fn pending_source(iflag: u8, ie: u8) -> int {
    if bit_of(iflag as int, 0) && bit_of(ie as int, 0) {
        0
    } else if bit_of(iflag as int, 1) && bit_of(ie as int, 1) {
        1
    } else if bit_of(iflag as int, 2) && bit_of(ie as int, 2) {
        2
    } else if bit_of(iflag as int, 3) && bit_of(ie as int, 3) {
        3
    } else if bit_of(iflag as int, 4) && bit_of(ie as int, 4) {
        4
    } else {
        5
    }
}

pub fn pending(iflag: u8, ie: u8) -> (r: u8)
    ensures
        r == pending_source(iflag, ie),
{
    let mut i: u8 = 0;
    while i < 5
        invariant
            i <= 5,
            forall|j: int| 0 <= j < i ==> !(bit_of(iflag as int, j) && bit_of(ie as int, j)),
        decreases 5 - i,
    {
        if test_bit(iflag, i) && test_bit(ie, i) {
            return i;
        }
        i = i + 1;
    }
    5
}

impl Cpu {
    pub open spec fn cond(&self, cc: u8) -> bool {
        cond_spec(self.AF, cc)
    }

    fn check_cond(&self, cc: u8) -> (r: bool)
        ensures
            r == self.cond(cc),
    {
        if cc == 0 {
            (self.AF / 128) % 2 == 0
        } else if cc == 1 {
            (self.AF / 128) % 2 == 1
        } else if cc == 2 {
            (self.AF / 16) % 2 == 0
        } else {
            (self.AF / 16) % 2 == 1
        }
    }

    /// JR s8 (`cc` 4) and JR cc,s8 (`cc` < 4): fetch and test on cycle 2,
    /// jump on cycle 3.
    fn jr(&mut self, mem: &Mem, cc: u8)
        requires
            old(self).wf(),
            mem.wf(),
        ensures
            old(self).current_cycle == 2 ==> Self::fetched_operand(
                *old(self),
                Cpu { current_cycle: old(self).current_cycle, ..*final(self) },
                *mem,
                0,
            ),
            Self::cycle_ok(*old(self), *final(self)),
            old(self).current_cycle == 2 ==> final(self).PC == inc16(old(self).PC)
                && final(self).store@[0] == mem.read_spec(old(self).PC)
                && (final(self).current_cycle == 0 <==> (cc < 4 && !old(self).cond(cc))),
            old(self).current_cycle == 3 ==> *final(self) == (Cpu {
                current_cycle: 0,
                PC: offset16(old(self).PC, old(self).store@[0]),
                ..*old(self)
            }),
    {
        if self.current_cycle == 2 {
            self.fetch_stage(mem, 0);
            if cc < 4 && !self.check_cond(cc) {
                self.reset();
            }
        } else if self.current_cycle == 3 {
            self.PC = add_offset(self.PC, self.store[0]);
            self.reset();
        } else if self.current_cycle != 1 {
            self.reset();
        }
    }

    /// JP a16 (`cc` 4) and JP cc,a16: operand on cycles 2 and 3, the test
    /// on cycle 3, the jump on cycle 4.
    fn jp(&mut self, mem: &Mem, cc: u8)
        requires
            old(self).wf(),
            mem.wf(),
        ensures
            old(self).current_cycle == 2 ==> Self::fetched_operand(*old(self), *final(self), *mem, 0),
            old(self).current_cycle == 3 ==> Self::fetched_operand(
                *old(self),
                Cpu { current_cycle: old(self).current_cycle, ..*final(self) },
                *mem,
                1,
            ),
            Self::cycle_ok(*old(self), *final(self)),
            old(self).current_cycle == 3 ==> (final(self).current_cycle == 0 <==> (cc < 4
                && !old(self).cond(cc))),
            old(self).current_cycle == 4 ==> *final(self) == (Cpu {
                current_cycle: 0,
                PC: old(self).staged_word(),
                ..*old(self)
            }),
    {
        if self.current_cycle == 2 {
            self.fetch_stage(mem, 0);
        } else if self.current_cycle == 3 {
            self.fetch_stage(mem, 1);
            if cc < 4 && !self.check_cond(cc) {
                self.reset();
            }
        } else if self.current_cycle == 4 {
            self.PC = self.staged();
            self.reset();
        } else if self.current_cycle != 1 {
            self.reset();
        }
    }

    /// JP HL: one cycle.
    fn jp_hl(&mut self)
        requires
            old(self).wf(),
        ensures
            Self::cycle_ok(*old(self), *final(self)),
            *final(self) == (Cpu { current_cycle: 0, PC: old(self).HL, ..*old(self) }),
    {
        self.PC = self.HL;
        self.reset();
    }

    /// Pushes one byte: SP moves down by one, then the byte is written there.
    fn push_byte(&mut self, mem: &mut Mem, v: u8)
        requires
            old(self).regs_wf(),
            old(mem).wf(),
        ensures
            *final(self) == (Cpu { SP: dec16(old(self).SP), ..*old(self) }),
            Self::bus_ok(*old(mem), *final(mem)),
            Mem::write_effect(*old(mem), *final(mem), dec16(old(self).SP), v),
    {
        self.SP = wrapping_dec(self.SP);
        mem.set(self.SP, v);
    }

    /// Pops one byte into the staging buffer: read at SP, then SP moves up.
    fn pop_byte(&mut self, mem: &Mem, i: usize)
        requires
            old(self).regs_wf(),
            mem.wf(),
            i < 5,
        ensures
            *final(self) == (Cpu {
                SP: inc16(old(self).SP),
                store: final(self).store,
                ..*old(self)
            }),
            final(self).store@ == old(self).store@.update(i as int, mem.read_spec(old(self).SP)),
            final(self).regs_wf(),
    {
        let v = mem.get(self.SP);
        self.stage(i, v);
        self.SP = wrapping_inc(self.SP);
    }

    /// CALL a16 (`cc` 4) and CALL cc,a16: operand on cycles 2 and 3 (the test
    /// on 3), PC pushed on cycles 4 and 5, the jump on cycle 6.
    fn call(&mut self, mem: &mut Mem, cc: u8)
        requires
            old(self).wf(),
            old(mem).wf(),
        ensures
            old(self).current_cycle == 2 ==> Self::fetched_operand(*old(self), *final(self), *old(mem), 0)
                && *final(mem) == *old(mem),
            old(self).current_cycle == 3 ==> Self::fetched_operand(
                *old(self),
                Cpu { current_cycle: old(self).current_cycle, ..*final(self) },
                *old(mem),
                1,
            ) && *final(mem) == *old(mem),
            old(self).current_cycle == 4 || old(self).current_cycle == 5 ==> *final(self) == (Cpu {
                SP: dec16(old(self).SP),
                ..*old(self)
            }),
            Self::cycle_ok(*old(self), *final(self)),
            Self::bus_ok(*old(mem), *final(mem)),
            old(self).current_cycle == 3 ==> (final(self).current_cycle == 0 <==> (cc < 4
                && !old(self).cond(cc))),
            old(self).current_cycle == 4 ==> Mem::write_effect(
                *old(mem),
                *final(mem),
                dec16(old(self).SP),
                hi_byte(old(self).PC),
            ),
            old(self).current_cycle == 5 ==> Mem::write_effect(
                *old(mem),
                *final(mem),
                dec16(old(self).SP),
                lo_byte(old(self).PC),
            ),
            old(self).current_cycle == 6 ==> *final(self) == (Cpu {
                current_cycle: 0,
                PC: old(self).staged_word(),
                ..*old(self)
            }),
    {
        if self.current_cycle == 2 {
            self.fetch_stage(mem, 0);
        } else if self.current_cycle == 3 {
            self.fetch_stage(mem, 1);
            if cc < 4 && !self.check_cond(cc) {
                self.reset();
            }
        } else if self.current_cycle == 4 {
            let v = (self.PC / 256) as u8;
            self.push_byte(mem, v);
        } else if self.current_cycle == 5 {
            let v = (self.PC % 256) as u8;
            self.push_byte(mem, v);
        } else {
            if self.current_cycle == 6 {
                self.PC = self.staged();
            }
            if self.current_cycle != 1 {
                self.reset();
            }
        }
    }

    /// RET (`cc` 4), RETI (`cc` 5) and RET cc: the test on cycle 2 (RET cc
    /// only, which then pops one cycle later), PC popped low byte first, the
    /// jump on the last cycle. RETI also sets IME.
    fn ret(&mut self, mem: &Mem, cc: u8)
        requires
            old(self).wf(),
            mem.wf(),
        ensures
            ({
                let first: u8 = if cc < 4 { 3 } else { 2 };
                &&& old(self).current_cycle == first ==> Self::popped_operand(
                    *old(self),
                    *final(self),
                    *mem,
                    0,
                )
                &&& old(self).current_cycle == first + 1 ==> Self::popped_operand(
                    *old(self),
                    *final(self),
                    *mem,
                    1,
                )
            }),
            Self::cycle_ok(*old(self), *final(self)),
            cc < 4 && old(self).current_cycle == 2 ==> (final(self).current_cycle == 0
                <==> !old(self).cond(cc)),
            ({
                let last: u8 = if cc < 4 { 5 } else { 4 };
                old(self).current_cycle == last ==> *final(self) == (Cpu {
                    current_cycle: 0,
                    PC: old(self).staged_word(),
                    ime: cc == 5 || old(self).ime,
                    ..*old(self)
                })
            }),
    {
        let first: u8 = if cc < 4 {
            3
        } else {
            2
        };
        if cc < 4 && self.current_cycle == 2 {
            if !self.check_cond(cc) {
                self.reset();
            }
        } else if self.current_cycle == first {
            self.pop_byte(mem, 0);
        } else if self.current_cycle == first + 1 {
            self.pop_byte(mem, 1);
        } else if self.current_cycle == first + 2 {
            self.PC = self.staged();
            if cc == 5 {
                self.ime = true;
            }
            self.reset();
        } else if self.current_cycle != 1 {
            self.reset();
        }
    }

    /// RST v: PC pushed on cycles 2 and 3, the jump to `v` on cycle 4.
    fn rst(&mut self, mem: &mut Mem, v: u16)
        requires
            old(self).wf(),
            old(mem).wf(),
        ensures
            old(self).current_cycle == 2 ==> *final(self) == (Cpu {
                SP: dec16(old(self).SP),
                ..*old(self)
            }) && Mem::write_effect(*old(mem), *final(mem), dec16(old(self).SP), hi_byte(old(self).PC)),
            old(self).current_cycle == 3 ==> *final(self) == (Cpu {
                SP: dec16(old(self).SP),
                ..*old(self)
            }) && Mem::write_effect(*old(mem), *final(mem), dec16(old(self).SP), lo_byte(old(self).PC)),
            Self::cycle_ok(*old(self), *final(self)),
            Self::bus_ok(*old(mem), *final(mem)),
            old(self).current_cycle == 4 ==> *final(self) == (Cpu {
                current_cycle: 0,
                PC: v,
                ..*old(self)
            }),
    {
        if self.current_cycle == 2 {
            let b = (self.PC / 256) as u8;
            self.push_byte(mem, b);
        } else if self.current_cycle == 3 {
            let b = (self.PC % 256) as u8;
            self.push_byte(mem, b);
        } else if self.current_cycle == 4 {
            self.PC = v;
            self.reset();
        } else if self.current_cycle != 1 {
            self.reset();
        }
    }

    /// PUSH rr: the high byte on cycle 2 and the low byte on cycle 3, at
    /// the two addresses below SP; SP moves down on cycle 4.
    fn push(&mut self, reg: &Reg, mem: &mut Mem)
        requires
            old(self).wf(),
            old(mem).wf(),
        ensures
            Self::cycle_ok(*old(self), *final(self)),
            Self::bus_ok(*old(mem), *final(mem)),
            old(self).current_cycle == 2 ==> *final(self) == *old(self) && Mem::write_effect(
                *old(mem),
                *final(mem),
                dec16(old(self).SP),
                hi_byte(old(self).word_reg(*reg)),
            ),
            old(self).current_cycle == 3 ==> *final(self) == *old(self) && Mem::write_effect(
                *old(mem),
                *final(mem),
                dec16(dec16(old(self).SP)),
                lo_byte(old(self).word_reg(*reg)),
            ),
            old(self).current_cycle == 4 ==> *final(self) == (Cpu {
                current_cycle: 0,
                SP: dec16(dec16(old(self).SP)),
                ..*old(self)
            }) && *final(mem) == *old(mem),
    {
        if self.current_cycle == 2 {
            let v = self.get_word_reg(reg);
            mem.set(wrapping_dec(self.SP), (v / 256) as u8);
        } else if self.current_cycle == 3 {
            let v = self.get_word_reg(reg);
            mem.set(wrapping_dec(wrapping_dec(self.SP)), (v % 256) as u8);
        } else if self.current_cycle == 4 {
            self.SP = wrapping_dec(wrapping_dec(self.SP));
            self.reset();
        } else if self.current_cycle != 1 {
            self.reset();
        }
    }

    /// POP rr: the low byte from SP on cycle 2, the high byte from SP + 1 on
    /// cycle 3; then SP moves up by two. POP AF clears F's low nibble.
    fn pop(&mut self, reg: &Reg, mem: &Mem)
        requires
            old(self).wf(),
            mem.wf(),
        ensures
            old(self).current_cycle == 2 ==> *final(self) == (Cpu {
                store: final(self).store,
                ..*old(self)
            }) && final(self).store@ == old(self).store@.update(0, mem.read_spec(old(self).SP)),
            Self::cycle_ok(*old(self), *final(self)),
            old(self).current_cycle == 2 ==> final(self).store@[0] == mem.read_spec(old(self).SP)
                && final(self).current_cycle == 2,
            old(self).current_cycle == 3 ==> Self::done_with(
                Cpu { SP: inc16(inc16(old(self).SP)), store: final(self).store, ..*old(self) },
                *final(self),
                *reg,
                popped(*reg, mem.read_spec(inc16(old(self).SP)), old(self).store@[0]),
            ),
    {
        if self.current_cycle == 2 {
            let v = mem.get(self.SP);
            self.stage(0, v);
        } else if self.current_cycle == 3 {
            let v = mem.get(wrapping_inc(self.SP));
            self.stage(1, v);
            self.SP = wrapping_inc(wrapping_inc(self.SP));
            let w = self.staged();
            self.set_word_reg(reg, w);
            self.reset();
        } else if self.current_cycle != 1 {
            self.reset();
        }
    }

    /// A CB-page operation on a register, run on cycle 2.
    fn cb_reg(&mut self, cb: u8)
        requires
            old(self).regs_wf(),
            cb % 8 != 6,
        ensures
            final(self).regs_wf(),
            *final(self) == old(self).with_counted(
                half_of(cb % 8),
                cb_spec(cb, old(self).byte_reg(half_of(cb % 8)), old(self).f()),
            ),
    {
        let reg = half_reg(cb % 8);
        let v = self.get_byte_reg(&reg);
        let f = self.get_byte_reg(&HalfReg::F);
        let r = cb_op(cb, v, f);
        self.set_byte_reg(&reg, r.0);
        self.set_f(r.1);
        self.reset();
    }

    /// The CB prefix: the second opcode byte is fetched on cycle 2, where a
    /// register operation completes. On the byte at HL it is read on cycle
    /// 3 (where BIT completes) and written back on cycle 4.
    fn extended(&mut self, mem: &mut Mem)
        requires
            old(self).wf(),
            old(mem).wf(),
        ensures
            old(self).current_cycle == 2 && old(mem).read_spec(old(self).PC) % 8 == 6 ==> Self::fetched_operand(
                *old(self),
                *final(self),
                *old(mem),
                0,
            ) && *final(mem) == *old(mem),
            old(self).current_cycle == 3 && old(self).store@[0] / 64 != 1 ==> *final(self) == (Cpu {
                store: final(self).store,
                ..*old(self)
            }) && final(self).store@ == old(self).store@.update(1, old(mem).read_spec(old(self).HL))
                && *final(mem) == *old(mem),
            Self::cycle_ok(*old(self), *final(self)),
            Self::bus_ok(*old(mem), *final(mem)),
            old(self).current_cycle == 2 && old(mem).read_spec(old(self).PC) % 8 != 6 ==> ({
                let cb = old(mem).read_spec(old(self).PC);
                let mid = Cpu { PC: inc16(old(self).PC), store: final(self).store, ..*old(self) };
                *final(self) == mid.with_counted(
                    half_of(cb % 8),
                    cb_spec(cb, old(self).byte_reg(half_of(cb % 8)), old(self).f()),
                )
            }),
            old(self).current_cycle == 3 && old(self).store@[0] / 64 == 1
                ==> final(self).current_cycle == 0 && final(self).f() == cb_spec(
                old(self).store@[0],
                old(mem).read_spec(old(self).HL),
                old(self).f(),
            ).1 && final(self).a() == old(self).a(),
            old(self).current_cycle == 4 ==> ({
                let r = cb_spec(old(self).store@[0], old(self).store@[1], old(self).f());
                Mem::write_effect(*old(mem), *final(mem), old(self).HL, r.0)
            }),
    {
        if self.current_cycle == 2 {
            self.fetch_stage(mem, 0);
            let cb = self.store[0];
            if cb % 8 != 6 {
                self.cb_reg(cb);
            }
        } else if self.current_cycle == 3 {
            let v = mem.get(self.HL);
            self.stage(1, v);
            let cb = self.store[0];
            if cb / 64 == 1 {
                let f = self.get_byte_reg(&HalfReg::F);
                let r = cb_op(cb, v, f);
                self.set_f(r.1);
                self.reset();
            }
        } else if self.current_cycle == 4 {
            let cb = self.store[0];
            let f = self.get_byte_reg(&HalfReg::F);
            let r = cb_op(cb, self.store[1], f);
            mem.set(self.HL, r.0);
            self.set_f(r.1);
            self.reset();
        } else if self.current_cycle != 1 {
            self.reset();
        }
    }

    /// DI: IME off at once, and a pending EI is cancelled.
    fn di(&mut self)
        requires
            old(self).wf(),
        ensures
            Self::cycle_ok(*old(self), *final(self)),
            *final(self) == (Cpu {
                current_cycle: 0,
                ime: false,
                ei_delay: false,
                ..*old(self)
            }),
    {
        self.ime = false;
        self.ei_delay = false;
        self.reset();
    }

    /// EI: IME turns on after the next instruction has started.
    fn ei(&mut self)
        requires
            old(self).wf(),
        ensures
            Self::cycle_ok(*old(self), *final(self)),
            *final(self) == (Cpu { current_cycle: 0, ei_delay: true, ..*old(self) }),
    {
        self.ei_delay = true;
        self.reset();
    }

    /// HALT: the CPU waits until an interrupt is requested.
    fn halt(&mut self)
        requires
            old(self).wf(),
        ensures
            Self::cycle_ok(*old(self), *final(self)),
            *final(self) == (Cpu { current_cycle: 0, is_halt: true, ..*old(self) }),
    {
        self.is_halt = true;
        self.reset();
    }

    /// STOP: skips its padding byte, resets the divider and halts.
    fn stop(&mut self, mem: &mut Mem)
        requires
            old(self).wf(),
            old(mem).wf(),
        ensures
            Self::cycle_ok(*old(self), *final(self)),
            Self::bus_ok(*old(mem), *final(mem)),
            *final(self) == (Cpu {
                current_cycle: 0,
                PC: inc16(old(self).PC),
                is_halt: true,
                is_stop: true,
                ..*old(self)
            }),
            Mem::write_effect(*old(mem), *final(mem), crate::io::DIV_ADDR, 0),
    {
        self.PC = wrapping_inc(self.PC);
        mem.set(crate::io::DIV_ADDR, 0);
        self.is_stop = true;
        self.is_halt = true;
        self.reset();
    }

    /// Pushes PC and jumps to the interrupt vector `isr`.
    pub fn interupt(&mut self, mem: &mut Mem, isr: u16)
        requires
            old(self).regs_wf(),
            old(mem).wf(),
        ensures
            *final(self) == (Cpu { SP: dec16(dec16(old(self).SP)), PC: isr, ..*old(self) }),
            Self::bus_ok(*old(mem), *final(mem)),
            exists|m: Mem|
                Mem::write_effect(*old(mem), m, dec16(old(self).SP), hi_byte(old(self).PC))
                    && Mem::write_effect(
                    m,
                    *final(mem),
                    dec16(dec16(old(self).SP)),
                    lo_byte(old(self).PC),
                ),
            ({
                let hi = dec16(old(self).SP);
                let lo = dec16(dec16(old(self).SP));
                is_ram(hi) && is_ram(lo) && (!old(mem).transferring() || (0xFF80 <= hi && 0xFF80
                    <= lo)) ==> final(mem).read_spec(hi) == hi_byte(old(self).PC)
                    && final(mem).read_spec(lo) == lo_byte(old(self).PC) && final(mem).iflag()
                    == old(mem).iflag() && final(mem).ienable() == old(mem).ienable()
            }),
    {
        let pc = self.PC;
        self.push_byte(mem, (pc / 256) as u8);
        let ghost mid = *mem;
        self.push_byte(mem, (pc % 256) as u8);
        self.PC = isr;
        assert(Mem::write_effect(*old(mem), mid, dec16(old(self).SP), hi_byte(old(self).PC)));
        assert(Mem::write_effect(mid, *mem, dec16(dec16(old(self).SP)), lo_byte(old(self).PC)));
        proof {
            let hi = dec16(old(self).SP);
            let lo = dec16(dec16(old(self).SP));
            if is_ram(hi) && is_ram(lo) && (!old(mem).transferring() || (0xFF80 <= hi && 0xFF80
                <= lo)) {
                lemma_write_read(*old(mem), mid, hi, hi_byte(old(self).PC));
                lemma_write_read(mid, *mem, lo, lo_byte(old(self).PC));
                lemma_write_keeps(mid, *mem, lo, lo_byte(old(self).PC), hi);
            }
        }
    }

    /// At an instruction boundary with IME set: takes the pending interrupt
    /// of lowest number, if any. It clears IME and the request, pushes PC and
    /// jumps to 0x40 + 8 * source. Returns whether one was taken.
    pub fn check_interupts(&mut self, mem: &mut Mem) -> (r: bool)
        requires
            old(self).regs_wf(),
            old(mem).wf(),
        ensures
            final(self).regs_wf(),
            Self::bus_ok(*old(mem), *final(mem)),
            r == (old(self).ime && pending_source(old(mem).iflag(), old(mem).ienable()) < 5),
            !r ==> *final(self) == *old(self) && *final(mem) == *old(mem),
            r ==> final(self).PC == 0x40 + 8 * pending_source(old(mem).iflag(), old(mem).ienable())
                && !final(self).ime && final(self).SP == dec16(dec16(old(self).SP)),
            ({
                let src = pending_source(old(mem).iflag(), old(mem).ienable());
                let hi = dec16(old(self).SP);
                let lo = dec16(dec16(old(self).SP));
                r && is_ram(hi) && is_ram(lo) && !old(mem).transferring() ==> final(mem).iflag()
                    == old(mem).iflag() - crate::alu::pow2(src) && final(mem).ienable() == old(
                    mem,
                ).ienable() && final(mem).read_spec(hi) == hi_byte(old(self).PC)
                    && final(mem).read_spec(lo) == lo_byte(old(self).PC)
            }),
    {
        if !self.ime {
            return false;
        }
        let iflag = mem.get_iflag();
        let ie = mem.get_ienable();
        let src = pending(iflag, ie);
        if src == 5 {
            return false;
        }
        self.ime = false;
        let w = bit_mask(src);
        proof {
            reveal_with_fuel(crate::alu::pow2, 5);
        }
        mem.set_iflag(iflag - w);
        self.interupt(mem, 0x40 + 8 * src as u16);
        true
    }
}

impl Cpu {
    /// LD (a16),SP: operand on cycles 2 and 3, SP's low byte written on
    /// cycle 4 and its high byte on cycle 5.
    fn ld_a16_sp(&mut self, mem: &mut Mem)
        requires
            old(self).wf(),
            old(mem).wf(),
        ensures
            old(self).current_cycle == 2 ==> Self::fetched_operand(*old(self), *final(self), *old(mem), 0)
                && *final(mem) == *old(mem),
            old(self).current_cycle == 3 ==> Self::fetched_operand(*old(self), *final(self), *old(mem), 1)
                && *final(mem) == *old(mem),
            Self::cycle_ok(*old(self), *final(self)),
            Self::bus_ok(*old(mem), *final(mem)),
            old(self).current_cycle == 4 ==> Mem::write_effect(
                *old(mem),
                *final(mem),
                old(self).staged_word(),
                lo_byte(old(self).SP),
            ),
            old(self).current_cycle == 5 ==> Mem::write_effect(
                *old(mem),
                *final(mem),
                inc16(old(self).staged_word()),
                hi_byte(old(self).SP),
            ),
    {
        if self.current_cycle == 2 {
            self.fetch_stage(mem, 0);
        } else if self.current_cycle == 3 {
            self.fetch_stage(mem, 1);
        } else if self.current_cycle == 4 {
            let addr = self.staged();
            mem.set(addr, (self.SP % 256) as u8);
        } else if self.current_cycle == 5 {
            let addr = wrapping_inc(self.staged());
            mem.set(addr, (self.SP / 256) as u8);
            self.reset();
        } else if self.current_cycle != 1 {
            self.reset();
        }
    }

    /// The address of a high-page access: 0xFF00 plus an offset.
    pub open spec fn high(n: u8) -> u16 {
        (0xFF00 + n) as u16
    }

    /// LDH (a8),A (`to_mem`) and LDH A,(a8): offset on cycle 2, the access
    /// on cycle 3.
    fn ldh_a8(&mut self, mem: &mut Mem, to_mem: bool)
        requires
            old(self).wf(),
            old(mem).wf(),
        ensures
            old(self).current_cycle == 2 ==> Self::fetched_operand(*old(self), *final(self), *old(mem), 0)
                && *final(mem) == *old(mem),
            Self::cycle_ok(*old(self), *final(self)),
            Self::bus_ok(*old(mem), *final(mem)),
            old(self).current_cycle == 3 && to_mem ==> Mem::write_effect(
                *old(mem),
                *final(mem),
                Self::high(old(self).store@[0]),
                old(self).a(),
            ),
            old(self).current_cycle == 3 && !to_mem ==> final(self).a() == old(mem).read_spec(
                Self::high(old(self).store@[0]),
            ),
    {
        if self.current_cycle == 2 {
            self.fetch_stage(mem, 0);
        } else if self.current_cycle == 3 {
            let addr = 0xFF00 + self.store[0] as u16;
            if to_mem {
                let a = self.get_byte_reg(&HalfReg::A);
                mem.set(addr, a);
            } else {
                let v = mem.get(addr);
                self.set_byte_reg(&HalfReg::A, v);
            }
            self.reset();
        } else if self.current_cycle != 1 {
            self.reset();
        }
    }

    /// LD (C),A (`to_mem`) and LD A,(C): the access on cycle 2.
    fn ldh_c(&mut self, mem: &mut Mem, to_mem: bool)
        requires
            old(self).wf(),
            old(mem).wf(),
        ensures
            Self::cycle_ok(*old(self), *final(self)),
            Self::bus_ok(*old(mem), *final(mem)),
            old(self).current_cycle == 2 && to_mem ==> Mem::write_effect(
                *old(mem),
                *final(mem),
                Self::high(old(self).byte_reg(HalfReg::C)),
                old(self).a(),
            ),
            old(self).current_cycle == 2 && !to_mem ==> final(self).a() == old(mem).read_spec(
                Self::high(old(self).byte_reg(HalfReg::C)),
            ),
    {
        if self.current_cycle == 2 {
            let c = self.get_byte_reg(&HalfReg::C);
            let addr = 0xFF00 + c as u16;
            if to_mem {
                let a = self.get_byte_reg(&HalfReg::A);
                mem.set(addr, a);
            } else {
                let v = mem.get(addr);
                self.set_byte_reg(&HalfReg::A, v);
            }
            self.reset();
        } else if self.current_cycle != 1 {
            self.reset();
        }
    }

    /// LD (a16),A (`to_mem`) and LD A,(a16): operand on cycles 2 and 3, the
    /// access on cycle 4.
    fn ld_a16(&mut self, mem: &mut Mem, to_mem: bool)
        requires
            old(self).wf(),
            old(mem).wf(),
        ensures
            old(self).current_cycle == 2 ==> Self::fetched_operand(*old(self), *final(self), *old(mem), 0)
                && *final(mem) == *old(mem),
            old(self).current_cycle == 3 ==> Self::fetched_operand(*old(self), *final(self), *old(mem), 1)
                && *final(mem) == *old(mem),
            Self::cycle_ok(*old(self), *final(self)),
            Self::bus_ok(*old(mem), *final(mem)),
            old(self).current_cycle == 4 && to_mem ==> Mem::write_effect(
                *old(mem),
                *final(mem),
                old(self).staged_word(),
                old(self).a(),
            ),
            old(self).current_cycle == 4 && !to_mem ==> final(self).a() == old(mem).read_spec(
                old(self).staged_word(),
            ),
    {
        if self.current_cycle == 2 {
            self.fetch_stage(mem, 0);
        } else if self.current_cycle == 3 {
            self.fetch_stage(mem, 1);
        } else if self.current_cycle == 4 {
            let addr = self.staged();
            if to_mem {
                let a = self.get_byte_reg(&HalfReg::A);
                mem.set(addr, a);
            } else {
                let v = mem.get(addr);
                self.set_byte_reg(&HalfReg::A, v);
            }
            self.reset();
        } else if self.current_cycle != 1 {
            self.reset();
        }
    }

    /// What the cycle `o.current_cycle` of the instruction `o.current_op`
    /// does to the CPU (`o` to `n`) and the bus (`om` to `nm`): for each
    /// family, the effect of the cycle where it completes (and of the cycle
    /// where a conditional branch tests its flag).
    #[verifier::opaque]
    pub open spec fn executed(o: Cpu, n: Cpu, om: Mem, nm: Mem) -> bool {
        let op = o.current_op;
        let x = op / 64;
        let y = ((op / 8) % 8) as u8;
        let z = (op % 8) as u8;
        let p = (y / 2) as u8;
        let cc = o.current_cycle;
        let c = o.flag(Flag::C);
        let ended = Cpu { current_cycle: 0, ..o };
        &&& Self::cycle_ok(o, n)
        &&& Self::bus_ok(om, nm)
        &&& (op == 0 ==> n == ended && nm == om)
        &&& (x == 1 && op != 0x76 && z != 6 && y != 6 ==> Self::done_with(
            o,
            n,
            Self::pair_of(half_of(y)),
            Self::with_half(o.word_reg(Self::pair_of(half_of(y))), half_of(y), o.byte_reg(half_of(z))),
        ))
        &&& (x == 1 && z == 6 && y != 6 && cc == 2 ==> Self::done_with(
            o,
            n,
            Self::pair_of(half_of(y)),
            Self::with_half(o.word_reg(Self::pair_of(half_of(y))), half_of(y), om.read_spec(o.HL)),
        ))
        &&& (x == 1 && y == 6 && z != 6 && cc == 2 ==> n == ended && Mem::write_effect(
            om,
            nm,
            o.HL,
            o.byte_reg(half_of(z)),
        ))
        &&& (x == 0 && z == 6 && y != 6 && cc == 2 ==> Self::done_with(
            Cpu { PC: inc16(o.PC), ..o },
            n,
            Self::pair_of(half_of(y)),
            Self::with_half(o.word_reg(Self::pair_of(half_of(y))), half_of(y), om.read_spec(o.PC)),
        ))
        &&& (x == 2 && z != 6 ==> n == ended.with_af(alu8_spec(y, o.a(), o.byte_reg(half_of(z)), c)))
        &&& (x == 2 && z == 6 && cc == 2 ==> n == ended.with_af(
            alu8_spec(y, o.a(), om.read_spec(o.HL), c),
        ))
        &&& (x == 3 && z == 6 && cc == 2 ==> n == (Cpu { PC: inc16(o.PC), ..ended }).with_af(
            alu8_spec(y, o.a(), om.read_spec(o.PC), c),
        ))
        &&& (x == 0 && z == 4 && y != 6 ==> n == o.with_counted(
            half_of(y),
            inc8_spec(o.byte_reg(half_of(y)), c),
        ))
        &&& (x == 0 && z == 5 && y != 6 ==> n == o.with_counted(
            half_of(y),
            dec8_spec(o.byte_reg(half_of(y)), c),
        ))
        &&& (x == 0 && z == 7 && y < 4 ==> n == ended.with_af(rotate_a_spec(y, o.a(), c)))
        &&& (op == 0x2F ==> n == ended.with_af(
            (cpl_spec(o.a()), flag_byte(o.flag(Flag::Z), true, true, c)),
        ))
        &&& (x == 0 && z == 1 && y % 2 == 0 && cc == 3 ==> Self::done_with(
            Cpu { PC: inc16(o.PC), store: n.store, ..o },
            n,
            pair_rp(p),
            word(om.read_spec(o.PC), o.store@[0]),
        ))
        &&& (x == 3 && z == 5 && y % 2 == 0 && cc == 2 ==> n == o && Mem::write_effect(
            om,
            nm,
            dec16(o.SP),
            hi_byte(o.word_reg(pair_rp2(p))),
        ))
        &&& (x == 3 && z == 5 && y % 2 == 0 && cc == 3 ==> n == o && Mem::write_effect(
            om,
            nm,
            dec16(dec16(o.SP)),
            lo_byte(o.word_reg(pair_rp2(p))),
        ))
        &&& (x == 3 && z == 5 && y % 2 == 0 && cc == 4 ==> n == (Cpu {
            SP: dec16(dec16(o.SP)),
            ..ended
        }) && nm == om)
        &&& (x == 3 && z == 1 && y % 2 == 0 && cc == 3 ==> Self::done_with(
            Cpu { SP: inc16(inc16(o.SP)), store: n.store, ..o },
            n,
            pair_rp2(p),
            popped(pair_rp2(p), om.read_spec(inc16(o.SP)), o.store@[0]),
        ))
        &&& ((op == 0xC3 || (x == 3 && z == 2 && y < 4)) && cc == 4 ==> n == (Cpu {
            PC: o.staged_word(),
            ..ended
        }))
        &&& (op == 0xCB && cc == 2 && om.read_spec(o.PC) % 8 != 6 ==> ({
            let cb = om.read_spec(o.PC);
            let mid = Cpu { PC: inc16(o.PC), store: n.store, ..o };
            n == mid.with_counted(half_of(cb % 8), cb_spec(cb, o.byte_reg(half_of(cb % 8)), o.f()))
        }))
        &&& (op == 0xCB && cc == 4 ==> Mem::write_effect(
            om,
            nm,
            o.HL,
            cb_spec(o.store@[0], o.store@[1], o.f()).0,
        ))
        &&& ((op == 0x18 || (x == 0 && z == 0 && y >= 4)) && cc == 3 ==> n == (Cpu {
            PC: offset16(o.PC, o.store@[0]),
            ..ended
        }))
        &&& (x == 0 && z == 0 && y >= 4 && cc == 2 ==> (n.current_cycle == 0 <==> !o.cond(
            (y - 4) as u8,
        )))
        &&& (x == 0 && z == 3 && cc == 2 ==> Self::done_with(
            o,
            n,
            pair_rp(p),
            (if y % 2 == 0 {
                inc16(o.word_reg(pair_rp(p)))
            } else {
                dec16(o.word_reg(pair_rp(p)))
            }),
        ))
        &&& (x == 0 && z == 1 && y % 2 == 1 && cc == 2 ==> ({
            let hl = o.HL;
            let v = o.word_reg(pair_rp(p));
            n == (Cpu { HL: ((hl + v) % 65536) as u16, ..ended }).with_f(
                flag_byte(
                    o.flag(Flag::Z),
                    false,
                    (hl % 4096) + (v % 4096) > 4095,
                    hl + v > 65535,
                ),
            )
        }))
        &&& (op == 0x27 ==> n == ended.with_af(
            daa_spec(o.a(), o.flag(Flag::N), o.flag(Flag::H), c),
        ))
        &&& (op == 0x37 ==> n == ended.with_f(flag_byte(o.flag(Flag::Z), false, false, true)))
        &&& (op == 0x3F ==> n == ended.with_f(flag_byte(o.flag(Flag::Z), false, false, !c)))
        &&& ((op == 0x02 || op == 0x12) && cc == 2 ==> n == ended && Mem::write_effect(
            om,
            nm,
            o.word_reg(pair_rp(p)),
            o.a(),
        ))
        &&& ((op == 0x0A || op == 0x1A) && cc == 2 ==> n.a() == om.read_spec(
            o.word_reg(pair_rp(p)),
        ))
        &&& (op == 0x76 ==> n == (Cpu { is_halt: true, ..ended }))
        &&& (op == 0xF3 ==> n == (Cpu { ime: false, ei_delay: false, ..ended }))
        &&& (op == 0xFB ==> n == (Cpu { ei_delay: true, ..ended }))
        &&& (op == 0xE9 ==> n == (Cpu { PC: o.HL, ..ended }))
        &&& (op == 0xF9 && cc == 2 ==> n == (Cpu { SP: o.HL, ..ended }))
        &&& (op == 0xE8 && cc == 4 ==> n == (Cpu { SP: offset16(o.SP, o.store@[0]), ..ended }).with_f(
            sp_offset_flags(o.SP, o.store@[0]),
        ))
        &&& (op == 0xF8 && cc == 3 ==> n == (Cpu { HL: offset16(o.SP, o.store@[0]), ..ended }).with_f(
            sp_offset_flags(o.SP, o.store@[0]),
        ))
        &&& ((op == 0xCD || (x == 3 && z == 4 && y < 4)) && cc == 6 ==> n == (Cpu {
            PC: o.staged_word(),
            ..ended
        }))
        &&& ((op == 0xC9 || op == 0xD9) && cc == 4 ==> n == (Cpu {
            PC: o.staged_word(),
            ime: op == 0xD9 || o.ime,
            ..ended
        }))
        &&& (x == 3 && z == 0 && y < 4 && cc == 5 ==> n == (Cpu { PC: o.staged_word(), ..ended }))
        &&& (x == 3 && z == 0 && y < 4 && cc == 2 ==> (n.current_cycle == 0 <==> !o.cond(y)))
        &&& (x == 3 && z == 7 && cc == 4 ==> n == (Cpu { PC: (y * 8) as u16, ..ended }))
        &&& (op == 0xE0 && cc == 3 ==> Mem::write_effect(om, nm, Self::high(o.store@[0]), o.a()))
        &&& (op == 0xF0 && cc == 3 ==> n.a() == om.read_spec(Self::high(o.store@[0])))
        &&& (op == 0xE2 && cc == 2 ==> Mem::write_effect(
            om,
            nm,
            Self::high(o.byte_reg(HalfReg::C)),
            o.a(),
        ))
        &&& (op == 0xF2 && cc == 2 ==> n.a() == om.read_spec(Self::high(o.byte_reg(HalfReg::C))))
        &&& (op == 0xEA && cc == 4 ==> Mem::write_effect(om, nm, o.staged_word(), o.a()))
        &&& (op == 0xFA && cc == 4 ==> n.a() == om.read_spec(o.staged_word()))
        &&& ((op == 0x22 || op == 0x32) && cc == 2 ==> Mem::write_effect(om, nm, o.HL, o.a())
            && n.HL == (if op == 0x22 {
            inc16(o.HL)
        } else {
            dec16(o.HL)
        }))
        &&& ((op == 0x2A || op == 0x3A) && cc == 2 ==> n.a() == om.read_spec(o.HL) && n.HL == (
        if op == 0x2A {
            inc16(o.HL)
        } else {
            dec16(o.HL)
        }))
        &&& ((op == 0x34 || op == 0x35) && cc == 2 ==> ({
            let v = om.read_spec(o.HL);
            let r = if op == 0x34 {
                inc8_spec(v, c)
            } else {
                dec8_spec(v, c)
            };
            n.store@[0] == r.0 && n.f() == r.1 && n.a() == o.a() && nm == om
        }))
        &&& ((op == 0x34 || op == 0x35 || op == 0x36) && cc == 3 ==> Mem::write_effect(
            om,
            nm,
            o.HL,
            o.store@[0],
        ))
        &&& (op == 0x08 && cc == 4 ==> Mem::write_effect(om, nm, o.staged_word(), lo_byte(o.SP)))
        &&& (op == 0x08 && cc == 5 ==> Mem::write_effect(
            om,
            nm,
            inc16(o.staged_word()),
            hi_byte(o.SP),
        ))
        &&& (op == 0x10 ==> n == (Cpu {
            PC: inc16(o.PC),
            is_halt: true,
            is_stop: true,
            ..ended
        }) && Mem::write_effect(om, nm, crate::io::DIV_ADDR, 0))
        &&& ((op == 0xCD || (x == 3 && z == 4 && y < 4)) && cc == 4 ==> Mem::write_effect(
            om,
            nm,
            dec16(o.SP),
            hi_byte(o.PC),
        ))
        &&& ((op == 0xCD || (x == 3 && z == 4 && y < 4)) && cc == 5 ==> Mem::write_effect(
            om,
            nm,
            dec16(o.SP),
            lo_byte(o.PC),
        ))
        &&& ((op == 0xCD || (x == 3 && z == 4 && y < 4)) && cc == 3 ==> (n.current_cycle == 0
            <==> (op != 0xCD && !o.cond(y))))
        &&& (x == 3 && z == 2 && y < 4 && cc == 3 ==> (n.current_cycle == 0 <==> !o.cond(y)))
        &&& (op == 0xCB && cc == 3 && o.store@[0] / 64 == 1 ==> n.current_cycle == 0 && n.f()
            == cb_spec(o.store@[0], om.read_spec(o.HL), o.f()).1 && n.a() == o.a())
        &&& (((x == 0 && z == 1 && y % 2 == 0) || op == 0x36 || op == 0xC3 || (x == 3 && z == 2
            && y < 4) || op == 0xCD || (x == 3 && z == 4 && y < 4) || op == 0x08 || op == 0xE0 || op
            == 0xF0 || op == 0xEA || op == 0xFA || op == 0xE8 || op == 0xF8) && cc == 2
            ==> Self::fetched_operand(o, n, om, 0) && nm == om)
        &&& ((op == 0xC3 || (x == 3 && z == 2 && y < 4) || op == 0xCD || (x == 3 && z == 4 && y < 4)
            || op == 0x08 || op == 0xEA || op == 0xFA) && cc == 3 ==> Self::fetched_operand(
            o,
            Cpu { current_cycle: o.current_cycle, ..n },
            om,
            1,
        ) && nm == om)
        &&& ((op == 0x18 || (x == 0 && z == 0 && y >= 4)) && cc == 2 ==> Self::fetched_operand(
            o,
            Cpu { current_cycle: o.current_cycle, ..n },
            om,
            0,
        ))
        &&& (((op == 0xC9 || op == 0xD9) && cc == 2) || (x == 3 && z == 0 && y < 4 && cc == 3)
            ==> Self::popped_operand(o, n, om, 0))
        &&& (((op == 0xC9 || op == 0xD9) && cc == 3) || (x == 3 && z == 0 && y < 4 && cc == 4)
            ==> Self::popped_operand(o, n, om, 1))
        &&& ((op == 0xCD || (x == 3 && z == 4 && y < 4)) && (cc == 4 || cc == 5) ==> n == (Cpu {
            SP: dec16(o.SP),
            ..o
        }))
        &&& (x == 3 && z == 7 && cc == 2 ==> n == (Cpu { SP: dec16(o.SP), ..o }) && Mem::write_effect(
            om,
            nm,
            dec16(o.SP),
            hi_byte(o.PC),
        ))
        &&& (x == 3 && z == 7 && cc == 3 ==> n == (Cpu { SP: dec16(o.SP), ..o }) && Mem::write_effect(
            om,
            nm,
            dec16(o.SP),
            lo_byte(o.PC),
        ))
        &&& (x == 3 && z == 1 && y % 2 == 0 && cc == 2 ==> n == (Cpu { store: n.store, ..o })
            && n.store@ == o.store@.update(0, om.read_spec(o.SP)))
        &&& (op == 0xCB && cc == 2 && om.read_spec(o.PC) % 8 == 6 ==> Self::fetched_operand(
            o,
            n,
            om,
            0,
        ) && nm == om)
        &&& (op == 0xCB && cc == 3 && o.store@[0] / 64 != 1 ==> n == (Cpu { store: n.store, ..o })
            && n.store@ == o.store@.update(1, om.read_spec(o.HL)) && nm == om)
        &&& (is_undefined(op) ==> n == ended && nm == om)
    }

    /// Opcodes 0x00..=0x3F with z < 4: NOP, STOP, JR, 16-bit loads and arithmetic, indirect loads.
    #[verifier::rlimit(100)]
    fn execute_x0_low(&mut self, mem: &mut Mem)
        requires
            old(self).wf(),
            old(mem).wf(),
            old(self).current_op / 64 == 0,
            old(self).current_op % 8 < 4,
        ensures
            Self::executed(*old(self), *final(self), *old(mem), *final(mem)),
            Self::cycle_ok(*old(self), *final(self)),
            Self::bus_ok(*old(mem), *final(mem)),
    {
        reveal(Cpu::executed);
        let op = self.current_op;
        let y = (op / 8) % 8;
        let z = op % 8;
        let p = y / 2;
        let q = y % 2;
        if z == 0 {
            if y == 0 {
                self.noop();
            } else if y == 1 {
                self.ld_a16_sp(mem);
            } else if y == 2 {
                self.stop(mem);
            } else if y == 3 {
                self.jr(mem, 4);
            } else {
                self.jr(mem, y - 4);
            }
        } else if z == 1 {
            if q == 0 {
                self.ld_rr_d16(mem, &reg_rp(p));
            } else {
                self.add_hl_rr(&reg_rp(p));
            }
        } else if z == 2 {
            if q == 0 {
                if p == 0 {
                    self.ld_ar_a(&Reg::BC, mem);
                } else if p == 1 {
                    self.ld_ar_a(&Reg::DE, mem);
                } else {
                    self.ld_hl_step_a(mem, p == 2);
                }
            } else {
                if p == 0 {
                    self.ld_a_rr(mem, &Reg::BC);
                } else if p == 1 {
                    self.ld_a_rr(mem, &Reg::DE);
                } else if p == 2 {
                    self.ld_a_hl_inc(mem);
                } else {
                    self.ld_a_hl_dec(mem);
                }
            }
        } else {
            if q == 0 {
                self.inc_rr(&reg_rp(p));
            } else {
                self.dec_rr(&reg_rp(p));
            }
        }
    }

    /// Opcodes 0x00..=0x3F with z >= 4: INC, DEC, 8-bit immediate loads, rotates, DAA, CPL, SCF, CCF.
    #[verifier::rlimit(100)]
    fn execute_x0_high(&mut self, mem: &mut Mem)
        requires
            old(self).wf(),
            old(mem).wf(),
            old(self).current_op / 64 == 0,
            old(self).current_op % 8 >= 4,
        ensures
            Self::executed(*old(self), *final(self), *old(mem), *final(mem)),
            Self::cycle_ok(*old(self), *final(self)),
            Self::bus_ok(*old(mem), *final(mem)),
    {
        reveal(Cpu::executed);
        let op = self.current_op;
        let y = (op / 8) % 8;
        let z = op % 8;
        if z == 4 {
            if y == 6 {
                self.inc_hl(mem);
            } else {
                self.inc_r(&half_reg(y));
            }
        } else if z == 5 {
            if y == 6 {
                self.dec_hl(mem);
            } else {
                self.dec_r(&half_reg(y));
            }
        } else if z == 6 {
            if y == 6 {
                self.ld_hl_d8(mem);
            } else {
                self.ld_r_d8(mem, &half_reg(y));
            }
        } else {
            if y < 4 {
                self.rotate_acc(y);
            } else if y == 4 {
                self.daa();
            } else if y == 5 {
                self.cpl();
            } else {
                self.set_carry(y == 7);
            }
        }
    }

    /// Opcodes with x = 0, split by their low three bits.
    fn execute_x0(&mut self, mem: &mut Mem)
        requires
            old(self).wf(),
            old(mem).wf(),
            old(self).current_op / 64 == 0,
        ensures
            Self::executed(*old(self), *final(self), *old(mem), *final(mem)),
            Self::cycle_ok(*old(self), *final(self)),
            Self::bus_ok(*old(mem), *final(mem)),
    {
        if self.current_op % 8 < 4 {
            self.execute_x0_low(mem);
        } else {
            self.execute_x0_high(mem);
        }
    }

    /// Opcodes 0x40..=0x7F: LD r,r' and HALT.
    #[verifier::rlimit(100)]
    fn execute_x1(&mut self, mem: &mut Mem)
        requires
            old(self).wf(),
            old(mem).wf(),
            old(self).current_op / 64 == 1,
        ensures
            Self::executed(*old(self), *final(self), *old(mem), *final(mem)),
            Self::cycle_ok(*old(self), *final(self)),
            Self::bus_ok(*old(mem), *final(mem)),
    {
        reveal(Cpu::executed);
        let op = self.current_op;
        let y = (op / 8) % 8;
        let z = op % 8;
        if op == 0x76 {
            self.halt();
        } else if z == 6 {
            self.ld_r_hl(&half_reg(y), mem);
        } else if y == 6 {
            self.ld_hl_r(mem, &half_reg(z));
        } else {
            self.ld_r_r(&half_reg(y), &half_reg(z));
        }
    }

    /// Opcodes 0x80..=0xBF: the accumulator operations on registers and (HL).
    #[verifier::rlimit(100)]
    fn execute_x2(&mut self, mem: &mut Mem)
        requires
            old(self).wf(),
            old(mem).wf(),
            old(self).current_op / 64 == 2,
        ensures
            Self::executed(*old(self), *final(self), *old(mem), *final(mem)),
            Self::cycle_ok(*old(self), *final(self)),
            Self::bus_ok(*old(mem), *final(mem)),
    {
        reveal(Cpu::executed);
        let op = self.current_op;
        let y = (op / 8) % 8;
        let z = op % 8;
        if z == 6 {
            self.alu_m(y, mem);
        } else {
            self.alu_r(y, &half_reg(z));
        }
    }

    /// Opcodes 0xC0..=0xFF with z < 4: returns, POP, JP, high-page loads, the CB prefix, DI, EI.
    #[verifier::rlimit(100)]
    fn execute_x3_low(&mut self, mem: &mut Mem)
        requires
            old(self).wf(),
            old(mem).wf(),
            old(self).current_op / 64 == 3,
            old(self).current_op % 8 < 4,
        ensures
            Self::executed(*old(self), *final(self), *old(mem), *final(mem)),
            Self::cycle_ok(*old(self), *final(self)),
            Self::bus_ok(*old(mem), *final(mem)),
    {
        reveal(Cpu::executed);
        let op = self.current_op;
        let y = (op / 8) % 8;
        let z = op % 8;
        let p = y / 2;
        let q = y % 2;
        if z == 0 {
            if y < 4 {
                self.ret(mem, y);
            } else if y == 4 {
                self.ldh_a8(mem, true);
            } else if y == 5 {
                self.add_sp_s8(mem);
            } else if y == 6 {
                self.ldh_a8(mem, false);
            } else {
                self.ld_hl_sp_s8(mem);
            }
        } else if z == 1 {
            if q == 0 {
                self.pop(&reg_rp2(p), mem);
            } else if p == 0 {
                self.ret(mem, 4);
            } else if p == 1 {
                self.ret(mem, 5);
            } else if p == 2 {
                self.jp_hl();
            } else {
                self.ld_sp_hl();
            }
        } else if z == 2 {
            if y < 4 {
                self.jp(mem, y);
            } else if y == 4 {
                self.ldh_c(mem, true);
            } else if y == 5 {
                self.ld_a16(mem, true);
            } else if y == 6 {
                self.ldh_c(mem, false);
            } else {
                self.ld_a16(mem, false);
            }
        } else {
            if y == 0 {
                self.jp(mem, 4);
            } else if y == 1 {
                self.extended(mem);
            } else if y == 6 {
                self.di();
            } else if y == 7 {
                self.ei();
            } else {
                self.noop();
            }
        }
    }

    /// Opcodes 0xC0..=0xFF with z >= 4: CALL, PUSH, immediate accumulator operations, RST.
    #[verifier::rlimit(100)]
    fn execute_x3_high(&mut self, mem: &mut Mem)
        requires
            old(self).wf(),
            old(mem).wf(),
            old(self).current_op / 64 == 3,
            old(self).current_op % 8 >= 4,
        ensures
            Self::executed(*old(self), *final(self), *old(mem), *final(mem)),
            Self::cycle_ok(*old(self), *final(self)),
            Self::bus_ok(*old(mem), *final(mem)),
    {
        reveal(Cpu::executed);
        let op = self.current_op;
        let y = (op / 8) % 8;
        let z = op % 8;
        let p = y / 2;
        let q = y % 2;
        if z == 4 {
            if y < 4 {
                self.call(mem, y);
            } else {
                self.noop();
            }
        } else if z == 5 {
            if q == 0 {
                self.push(&reg_rp2(p), mem);
            } else if p == 0 {
                self.call(mem, 4);
            } else {
                self.noop();
            }
        } else if z == 6 {
            self.alu_d8(y, mem);
        } else {
            self.rst(mem, y as u16 * 8);
        }
    }

    /// Opcodes with x = 3, split by their low three bits.
    fn execute_x3(&mut self, mem: &mut Mem)
        requires
            old(self).wf(),
            old(mem).wf(),
            old(self).current_op / 64 == 3,
        ensures
            Self::executed(*old(self), *final(self), *old(mem), *final(mem)),
            Self::cycle_ok(*old(self), *final(self)),
            Self::bus_ok(*old(mem), *final(mem)),
    {
        if self.current_op % 8 < 4 {
            self.execute_x3_low(mem);
        } else {
            self.execute_x3_high(mem);
        }
    }

    /// Runs the current cycle of the instruction in `current_op`, decoded
    /// by its bit fields: x = bits 7..6, y = bits 5..3, z = bits 2..0.
    /// Undefined opcodes take one cycle and do nothing.
    pub fn execute(&mut self, mem: &mut Mem)
        requires
            old(self).wf(),
            old(mem).wf(),
        ensures
            Self::executed(*old(self), *final(self), *old(mem), *final(mem)),
            Self::cycle_ok(*old(self), *final(self)),
            Self::bus_ok(*old(mem), *final(mem)),
    {
        let x = self.current_op / 64;
        if x == 0 {
            self.execute_x0(mem);
        } else if x == 1 {
            self.execute_x1(mem);
        } else if x == 2 {
            self.execute_x2(mem);
        } else {
            self.execute_x3(mem);
        }
    }

    /// What one machine cycle does (`o` to `n`, the bus `om` to `nm`). At
    /// an instruction boundary (cycle 1) a halted CPU waits for a requested
    /// interrupt; then, with IME set, a pending interrupt is dispatched over
    /// five cycles; else the next opcode is fetched from PC and its first
    /// cycle runs. Between boundaries the current instruction's next cycle
    /// runs.
    pub open spec fn ticked(o: Cpu, n: Cpu, om: Mem, nm: Mem) -> bool {
        let pending = o.ime && pending_source(om.iflag(), om.ienable()) < 5;
        let fetched = Cpu {
            current_op: om.read_spec(o.PC),
            PC: inc16(o.PC),
            ime: o.ime || o.ei_delay,
            ei_delay: false,
            ..o
        };
        let before_count = Cpu { current_cycle: (n.current_cycle - 1) as u8, ..n };
        let boundary = o.current_cycle == 1 && !o.dispatching;
        &&& n.wf()
        &&& Self::bus_ok(om, nm)
        &&& (n.current_cycle == 1 || n.current_cycle == o.current_cycle + 1)
        &&& (!boundary && !o.dispatching ==> Self::executed(o, before_count, om, nm))
        &&& (boundary && !o.is_halt && !pending ==> Self::executed(fetched, before_count, om, nm))
        &&& (boundary && !o.is_halt && pending ==> n.PC == 0x40 + 8 * pending_source(
            om.iflag(),
            om.ienable(),
        ) && n.dispatching && !n.ime && n.current_cycle == 2)
        &&& (boundary && o.is_halt && pending_source(om.iflag(), om.ienable()) == 5 ==> n == o && nm
            == om)
    }

    /// Advances one machine cycle, as `ticked` says.
    pub fn tick(&mut self, mem: &mut Mem)
        requires
            old(self).wf(),
            old(mem).wf(),
        ensures
            Self::ticked(*old(self), *final(self), *old(mem), *final(mem)),
    {
        if self.current_cycle == 1 && !self.dispatching {
            if self.is_halt {
                let iflag = mem.get_iflag();
                let ie = mem.get_ienable();
                if pending(iflag, ie) == 5 {
                    return ;
                }
                self.is_halt = false;
                self.is_stop = false;
            }
            if self.check_interupts(mem) {
                self.dispatching = true;
                self.current_cycle = 2;
                return ;
            }
            if self.ei_delay {
                self.ime = true;
                self.ei_delay = false;
            }
            self.current_op = self.get_op(mem);
            self.execute(mem);
        } else if self.dispatching {
            if self.current_cycle >= 5 {
                self.dispatching = false;
                self.reset();
            }
        } else {
            self.execute(mem);
        }
        self.current_cycle = self.current_cycle + 1;
    }
}

/// PUSH rr then POP rr: the two bytes that PUSH writes below SP, read back
/// by POP from the new SP, give rr's value (AF with F's low nibble clear).
/// This holds while the stack is in RAM and no DMA transfer runs.
pub proof fn lemma_push_pop_round_trip(r: Reg, v: u16, sp: u16, m0: Mem, m1: Mem, m2: Mem)
    requires
        m0.wf(),
        !m0.transferring(),
        crate::mem::is_ram(dec16(sp)),
        crate::mem::is_ram(dec16(dec16(sp))),
        Mem::write_effect(m0, m1, dec16(sp), hi_byte(v)),
        Mem::write_effect(m1, m2, dec16(dec16(sp)), lo_byte(v)),
    ensures
        popped(r, m2.read_spec(inc16(dec16(dec16(sp)))), m2.read_spec(dec16(dec16(sp))))
            == crate::cpu::stored_word(r, v),
{
    crate::mem::lemma_write_read(m0, m1, dec16(sp), hi_byte(v));
    assert(m1.wf()) by {
        crate::mem::lemma_write_wf(m0, m1, dec16(sp), hi_byte(v));
    }
    crate::mem::lemma_write_read(m1, m2, dec16(dec16(sp)), lo_byte(v));
    crate::mem::lemma_write_keeps(m1, m2, dec16(dec16(sp)), lo_byte(v), dec16(sp));
    assert(inc16(dec16(dec16(sp))) == dec16(sp));
}

/// LD (HL),b then LD A,(HL): the byte that the store writes at HL is what
/// the load reads, while HL is in RAM and no DMA transfer runs.
pub proof fn lemma_store_load(hl: u16, b: u8, m0: Mem, m1: Mem)
    requires
        m0.wf(),
        !m0.transferring(),
        crate::mem::is_ram(hl),
        Mem::write_effect(m0, m1, hl, b),
    ensures
        m1.read_spec(hl) == b,
{
    crate::mem::lemma_write_read(m0, m1, hl, b);
}

/// What `executed` says of CPL.
pub proof fn lemma_executed_cpl(o: Cpu, n: Cpu, om: Mem, nm: Mem)
    requires
        o.current_op == 0x2F,
        Cpu::executed(o, n, om, nm),
    ensures
        n == (Cpu { current_cycle: 0, ..o }).with_af(
            (cpl_spec(o.a()), flag_byte(o.flag(Flag::Z), true, true, o.flag(Flag::C))),
        ),
{
    reveal(Cpu::executed);
}

/// CPL run twice gives back A (and keeps Z and C).
pub proof fn lemma_cpl_twice_executed(
    o1: Cpu,
    n1: Cpu,
    om1: Mem,
    nm1: Mem,
    o2: Cpu,
    n2: Cpu,
    om2: Mem,
    nm2: Mem,
)
    requires
        o1.current_op == 0x2F,
        Cpu::executed(o1, n1, om1, nm1),
        o2.current_op == 0x2F,
        o2.AF == n1.AF,
        Cpu::executed(o2, n2, om2, nm2),
    ensures
        n2.a() == o1.a(),
        n2.flag(Flag::Z) == o1.flag(Flag::Z),
        n2.flag(Flag::C) == o1.flag(Flag::C),
{
    lemma_executed_cpl(o1, n1, om1, nm1);
    lemma_executed_cpl(o2, n2, om2, nm2);
    crate::alu::lemma_flag_byte(o1.flag(Flag::Z), true, true, o1.flag(Flag::C));
    crate::alu::lemma_flag_byte(o2.flag(Flag::Z), true, true, o2.flag(Flag::C));
    crate::alu::lemma_cpl_twice(o1.a());
}

/// What `executed` says of the last cycle of LD (HL),d8.
pub proof fn lemma_executed_store_hl(o: Cpu, n: Cpu, om: Mem, nm: Mem)
    requires
        o.current_op == 0x36,
        o.current_cycle == 3,
        Cpu::executed(o, n, om, nm),
    ensures
        Mem::write_effect(om, nm, o.HL, o.store@[0]),
{
    reveal(Cpu::executed);
}

/// What `executed` says of LD A,(HL).
pub proof fn lemma_executed_load_hl(o: Cpu, n: Cpu, om: Mem, nm: Mem)
    requires
        o.current_op == 0x7E,
        o.current_cycle == 2,
        Cpu::executed(o, n, om, nm),
    ensures
        n.a() == om.read_spec(o.HL),
{
    reveal(Cpu::executed);
}

/// LD (HL),d8 then LD A,(HL), with nothing else writing between: A gets
/// the byte that the store wrote, while HL is in RAM and no DMA runs.
pub proof fn lemma_store_load_executed(
    o1: Cpu,
    n1: Cpu,
    m0: Mem,
    m1: Mem,
    o2: Cpu,
    n2: Cpu,
    nm2: Mem,
)
    requires
        m0.wf(),
        !m0.transferring(),
        is_ram(o1.HL),
        o1.current_op == 0x36,
        o1.current_cycle == 3,
        Cpu::executed(o1, n1, m0, m1),
        o2.current_op == 0x7E,
        o2.current_cycle == 2,
        o2.HL == o1.HL,
        Cpu::executed(o2, n2, m1, nm2),
    ensures
        n2.a() == o1.store@[0],
{
    lemma_executed_store_hl(o1, n1, m0, m1);
    lemma_executed_load_hl(o2, n2, m1, nm2);
    lemma_write_read(m0, m1, o1.HL, o1.store@[0]);
}

/// What `executed` says of the cycles of PUSH rr.
pub proof fn lemma_executed_push(p: u8, o: Cpu, n: Cpu, om: Mem, nm: Mem)
    requires
        p < 4,
        o.current_op == 0xC5 + 16 * p,
        Cpu::executed(o, n, om, nm),
    ensures
        o.current_cycle == 2 ==> n == o && Mem::write_effect(
            om,
            nm,
            dec16(o.SP),
            hi_byte(o.word_reg(pair_rp2(p))),
        ),
        o.current_cycle == 3 ==> n == o && Mem::write_effect(
            om,
            nm,
            dec16(dec16(o.SP)),
            lo_byte(o.word_reg(pair_rp2(p))),
        ),
        o.current_cycle == 4 ==> n.SP == dec16(dec16(o.SP)) && nm == om,
{
    reveal(Cpu::executed);
}

/// What `executed` says of the cycles of POP rr.
pub proof fn lemma_executed_pop(p: u8, o: Cpu, n: Cpu, om: Mem, nm: Mem)
    requires
        p < 4,
        o.current_op == 0xC1 + 16 * p,
        Cpu::executed(o, n, om, nm),
    ensures
        o.current_cycle == 2 ==> n == (Cpu { store: n.store, ..o }) && n.store@ == o.store@.update(
            0,
            om.read_spec(o.SP),
        ),
        o.current_cycle == 3 ==> n.word_reg(pair_rp2(p)) == popped(
            pair_rp2(p),
            om.read_spec(inc16(o.SP)),
            o.store@[0],
        ) && n.SP == inc16(inc16(o.SP)),
{
    reveal(Cpu::executed);
}

/// PUSH rr then POP rr, cycle by cycle, with nothing else writing between:
/// rr gets its value back (AF with F's low nibble clear) and SP returns,
/// while the stack is in RAM and no DMA runs.
pub proof fn lemma_push_pop_executed(
    p: u8,
    o2: Cpu,
    n2: Cpu,
    o3: Cpu,
    n3: Cpu,
    o4: Cpu,
    n4: Cpu,
    q2: Cpu,
    r2: Cpu,
    q3: Cpu,
    r3: Cpu,
    m0: Mem,
    m1: Mem,
    m2: Mem,
    m3: Mem,
)
    requires
        p < 4,
        m0.wf(),
        !m0.transferring(),
        is_ram(dec16(o2.SP)),
        is_ram(dec16(dec16(o2.SP))),
        o2.current_op == 0xC5 + 16 * p && o2.current_cycle == 2,
        Cpu::executed(o2, n2, m0, m1),
        o3 == (Cpu { current_cycle: 3, ..n2 }),
        Cpu::executed(o3, n3, m1, m2),
        o4 == (Cpu { current_cycle: 4, ..n3 }),
        Cpu::executed(o4, n4, m2, m3),
        q2.current_op == 0xC1 + 16 * p && q2.current_cycle == 2,
        q2.regs_wf(),
        q2.SP == n4.SP,
        Cpu::executed(q2, r2, m3, m3),
        q3 == (Cpu { current_cycle: 3, ..r2 }),
        Cpu::executed(q3, r3, m3, m3),
    ensures
        r3.word_reg(pair_rp2(p)) == crate::cpu::stored_word(pair_rp2(p), o2.word_reg(pair_rp2(p))),
        r3.SP == o2.SP,
{
    let v = o2.word_reg(pair_rp2(p));
    let sp = o2.SP;
    lemma_executed_push(p, o2, n2, m0, m1);
    assert(o3.SP == sp && o3.word_reg(pair_rp2(p)) == v);
    lemma_executed_push(p, o3, n3, m1, m2);
    assert(o4.SP == sp);
    lemma_executed_push(p, o4, n4, m2, m3);
    assert(m3 == m2 && q2.SP == dec16(dec16(sp)));
    lemma_executed_pop(p, q2, r2, m3, m3);
    assert(q3.SP == q2.SP && q3.store@[0] == m2.read_spec(dec16(dec16(sp))));
    lemma_executed_pop(p, q3, r3, m3, m3);
    lemma_push_pop_round_trip(pair_rp2(p), v, sp, m0, m1, m2);
    assert(inc16(inc16(dec16(dec16(o2.SP)))) == o2.SP);
    assert(inc16(dec16(dec16(o2.SP))) == dec16(o2.SP));
}

/// What `executed` says of NOP: the instruction ends, nothing else moves.
pub proof fn lemma_executed_nop(o: Cpu, n: Cpu, om: Mem, nm: Mem)
    requires
        o.current_op == 0,
        Cpu::executed(o, n, om, nm),
    ensures
        n == (Cpu { current_cycle: 0, ..o }),
        nm == om,
{
    reveal(Cpu::executed);
}

} // verus!
