//! The LR35902 core: registers, flags, and the cycle-counted interpreter.
//! Each call of `tick` is one machine cycle; an instruction spends one
//! cycle per memory access, and `current_cycle` says which of its cycles
//! comes next.
#![allow(non_snake_case)]
use vstd::prelude::*;

use crate::alu::{
    flag_byte, hi_byte, lo_byte, make_flags, word,
};
use crate::mem::Mem;

verus! {

/// The six 16-bit registers.
#[derive(Clone, Copy, PartialEq, Eq, Structural, Debug)]
pub enum Reg {
    AF,
    BC,
    DE,
    HL,
    SP,
    PC,
}

/// The eight 8-bit halves of AF, BC, DE and HL.
#[derive(Clone, Copy, PartialEq, Eq, Structural, Debug)]
pub enum HalfReg {
    A,
    F,
    B,
    C,
    D,
    E,
    H,
    L,
}

/// The four flags of F.
#[derive(Clone, Copy, PartialEq, Eq, Structural, Debug)]
pub enum Flag {
    Z,
    N,
    H,
    C,
}

/// The bit of F that holds a flag, as its value (Z 128, N 64, H 32, C 16).
pub open spec fn flag_weight(f: Flag) -> int {
    match f {
        Flag::Z => 128,
        Flag::N => 64,
        Flag::H => 32,
        Flag::C => 16,
    }
}

/// The value a register pair holds after it is written with `v`: F's low
/// nibble always reads zero.
pub open spec fn stored_word(r: Reg, v: u16) -> u16 {
    if r == Reg::AF {
        (v - v % 16) as u16
    } else {
        v
    }
}

/// The name of a register pair, as the assembler writes it.
pub open spec fn reg_name(r: Reg) -> Seq<char> {
    match r {
        Reg::AF => seq!['A', 'F'],
        Reg::BC => seq!['B', 'C'],
        Reg::DE => seq!['D', 'E'],
        Reg::HL => seq!['H', 'L'],
        Reg::SP => seq!['S', 'P'],
        Reg::PC => seq!['P', 'C'],
    }
}

impl Reg {
    pub fn name(&self) -> (r: &'static str)
        ensures
            r@ == reg_name(*self),
    {
        let r = match self {
            Reg::AF => "AF",
            Reg::BC => "BC",
            Reg::DE => "DE",
            Reg::HL => "HL",
            Reg::SP => "SP",
            Reg::PC => "PC",
        };
        proof {
            reveal_strlit("AF");
            reveal_strlit("BC");
            reveal_strlit("DE");
            reveal_strlit("HL");
            reveal_strlit("SP");
            reveal_strlit("PC");
        }
        r
    }
}

pub struct Cpu {
    pub AF: u16,
    pub BC: u16,
    pub DE: u16,
    pub HL: u16,
    pub SP: u16,
    pub PC: u16,
    pub ime: bool,
    /// The cycle of the current instruction that the next tick runs, from 1.
    pub current_cycle: u8,
    pub current_op: u8,
    /// Operand bytes staged between the cycles of an instruction.
    pub store: Vec<u8>,
    pub is_halt: bool,
    pub is_stop: bool,
    /// EI was run: IME turns on once the next instruction has started.
    pub ei_delay: bool,
    /// An interrupt is being dispatched; it takes five cycles.
    pub dispatching: bool,
}

impl Cpu {
    /// F's low nibble is zero and the staging buffer has its five bytes.
    pub open spec fn regs_wf(&self) -> bool {
        &&& self.AF % 16 == 0
        &&& self.store@.len() == 5
    }

    /// Between two ticks: the registers are well formed and the next cycle
    /// is one of the six that an instruction can have.
    pub open spec fn wf(&self) -> bool {
        &&& self.regs_wf()
        &&& 1 <= self.current_cycle <= 6
    }

    pub open spec fn a(&self) -> u8 {
        (self.AF / 256) as u8
    }

    pub open spec fn f(&self) -> u8 {
        (self.AF % 256) as u8
    }

    pub open spec fn flag(&self, f: Flag) -> bool {
        (self.AF as int / flag_weight(f)) % 2 == 1
    }

    pub open spec fn word_reg(&self, r: Reg) -> u16 {
        match r {
            Reg::AF => self.AF,
            Reg::BC => self.BC,
            Reg::DE => self.DE,
            Reg::HL => self.HL,
            Reg::SP => self.SP,
            Reg::PC => self.PC,
        }
    }

    pub open spec fn byte_reg(&self, r: HalfReg) -> u8 {
        match r {
            HalfReg::A => hi_byte(self.AF),
            HalfReg::F => lo_byte(self.AF),
            HalfReg::B => hi_byte(self.BC),
            HalfReg::C => lo_byte(self.BC),
            HalfReg::D => hi_byte(self.DE),
            HalfReg::E => lo_byte(self.DE),
            HalfReg::H => hi_byte(self.HL),
            HalfReg::L => lo_byte(self.HL),
        }
    }

    /// The register pair that holds a half register.
    pub open spec fn pair_of(r: HalfReg) -> Reg {
        match r {
            HalfReg::A | HalfReg::F => Reg::AF,
            HalfReg::B | HalfReg::C => Reg::BC,
            HalfReg::D | HalfReg::E => Reg::DE,
            HalfReg::H | HalfReg::L => Reg::HL,
        }
    }

    pub open spec fn is_high(r: HalfReg) -> bool {
        r == HalfReg::A || r == HalfReg::B || r == HalfReg::D || r == HalfReg::H
    }

    /// The pair's value with the half `r` replaced by `v`.
    pub open spec fn with_half(w: u16, r: HalfReg, v: u8) -> u16 {
        if Self::is_high(r) {
            word(v, lo_byte(w))
        } else {
            word(hi_byte(w), v)
        }
    }

    /// This state with register `r` set to `v`.
    pub open spec fn with_reg(self, r: Reg, v: u16) -> Cpu {
        match r {
            Reg::AF => Cpu { AF: v, ..self },
            Reg::BC => Cpu { BC: v, ..self },
            Reg::DE => Cpu { DE: v, ..self },
            Reg::HL => Cpu { HL: v, ..self },
            Reg::SP => Cpu { SP: v, ..self },
            Reg::PC => Cpu { PC: v, ..self },
        }
    }

    /// `n` is `o` with register `r` set to `v` and nothing else changed.
    pub open spec fn word_set(o: Cpu, n: Cpu, r: Reg, v: u16) -> bool {
        n == o.with_reg(r, v)
    }

    pub fn new() -> (r: Self)
        ensures
            r.wf(),
            r.AF == 0 && r.BC == 0 && r.DE == 0 && r.HL == 0 && r.SP == 0 && r.PC == 0,
            r.current_cycle == 1,
            r.current_op == 0,
            !r.ime && !r.is_halt && !r.is_stop && !r.ei_delay && !r.dispatching,
    {
        Self {
            AF: 0,
            BC: 0,
            DE: 0,
            HL: 0,
            SP: 0,
            PC: 0,
            ime: false,
            current_cycle: 1,
            current_op: 0,
            store: vec![0u8; 5],
            is_halt: false,
            is_stop: false,
            ei_delay: false,
            dispatching: false,
        }
    }

    /// Ends the current instruction: the next tick starts a new one.
    pub fn reset(&mut self)
        ensures
            *final(self) == (Cpu { current_cycle: 0, ..*old(self) }),
    {
        self.current_cycle = 0;
    }

    pub fn set_word_reg(&mut self, reg: &Reg, value: u16)
        ensures
            Self::word_set(*old(self), *final(self), *reg, stored_word(*reg, value)),
            old(self).regs_wf() ==> final(self).regs_wf(),
    {
        match reg {
            Reg::AF => self.AF = value - value % 16,
            Reg::BC => self.BC = value,
            Reg::DE => self.DE = value,
            Reg::HL => self.HL = value,
            Reg::SP => self.SP = value,
            Reg::PC => self.PC = value,
        };
    }

    pub fn get_word_reg(&self, reg: &Reg) -> (r: u16)
        ensures
            r == self.word_reg(*reg),
    {
        match reg {
            Reg::AF => self.AF,
            Reg::BC => self.BC,
            Reg::DE => self.DE,
            Reg::HL => self.HL,
            Reg::SP => self.SP,
            Reg::PC => self.PC,
        }
    }

    /// Sets a half register to zero.
    pub fn clear_reg(&mut self, reg: &HalfReg)
        ensures
            Self::word_set(
                *old(self),
                *final(self),
                Self::pair_of(*reg),
                Self::with_half(old(self).word_reg(Self::pair_of(*reg)), *reg, 0),
            ),
            old(self).regs_wf() ==> final(self).regs_wf(),
    {
        match reg {
            HalfReg::A => self.AF = self.AF % 256,
            HalfReg::F => self.AF = (self.AF / 256) * 256,
            HalfReg::B => self.BC = self.BC % 256,
            HalfReg::C => self.BC = (self.BC / 256) * 256,
            HalfReg::D => self.DE = self.DE % 256,
            HalfReg::E => self.DE = (self.DE / 256) * 256,
            HalfReg::H => self.HL = self.HL % 256,
            HalfReg::L => self.HL = (self.HL / 256) * 256,
        }
    }

    /// Sets a half register; F keeps its low nibble zero.
    pub fn set_byte_reg(&mut self, reg: &HalfReg, value: u8)
        ensures
            Self::word_set(
                *old(self),
                *final(self),
                Self::pair_of(*reg),
                Self::with_half(
                    old(self).word_reg(Self::pair_of(*reg)),
                    *reg,
                    (if *reg == HalfReg::F {
                        (value - value % 16) as u8
                    } else {
                        value
                    }),
                ),
            ),
            old(self).regs_wf() ==> final(self).regs_wf(),
    {
        let hi = value as u16 * 256;
        match reg {
            HalfReg::A => self.AF = hi + self.AF % 256,
            HalfReg::F => self.AF = (self.AF / 256) * 256 + (value - value % 16) as u16,
            HalfReg::B => self.BC = hi + self.BC % 256,
            HalfReg::C => self.BC = (self.BC / 256) * 256 + value as u16,
            HalfReg::D => self.DE = hi + self.DE % 256,
            HalfReg::E => self.DE = (self.DE / 256) * 256 + value as u16,
            HalfReg::H => self.HL = hi + self.HL % 256,
            HalfReg::L => self.HL = (self.HL / 256) * 256 + value as u16,
        }
    }

    pub fn get_byte_reg(&self, reg: &HalfReg) -> (r: u8)
        ensures
            r == self.byte_reg(*reg),
    {
        match reg {
            HalfReg::A => (self.AF / 256) as u8,
            HalfReg::F => (self.AF % 256) as u8,
            HalfReg::B => (self.BC / 256) as u8,
            HalfReg::C => (self.BC % 256) as u8,
            HalfReg::D => (self.DE / 256) as u8,
            HalfReg::E => (self.DE % 256) as u8,
            HalfReg::H => (self.HL / 256) as u8,
            HalfReg::L => (self.HL % 256) as u8,
        }
    }

    pub fn get_flag(&self, flag: Flag) -> (r: bool)
        ensures
            r == ((self.AF as int / flag_weight(flag)) % 2 == 1),
    {
        match flag {
            Flag::Z => (self.AF / 128) % 2 == 1,
            Flag::N => (self.AF / 64) % 2 == 1,
            Flag::H => (self.AF / 32) % 2 == 1,
            Flag::C => (self.AF / 16) % 2 == 1,
        }
    }

    /// AF with A kept and F rebuilt from the four flags.
    pub open spec fn with_flags(af: u16, z: bool, n: bool, h: bool, c: bool) -> u16 {
        ((af / 256) * 256 + flag_byte(z, n, h, c)) as u16
    }

    /// AF with one flag set to `value` and the other three kept.
    pub open spec fn with_flag(af: u16, flag: Flag, value: bool) -> u16 {
        let z = if flag == Flag::Z { value } else { (af / 128) % 2 == 1 };
        let n = if flag == Flag::N { value } else { (af / 64) % 2 == 1 };
        let h = if flag == Flag::H { value } else { (af / 32) % 2 == 1 };
        let c = if flag == Flag::C { value } else { (af / 16) % 2 == 1 };
        Self::with_flags(af, z, n, h, c)
    }

    pub(crate) fn set_f(&mut self, f: u8)
        requires
            f % 16 == 0,
        ensures
            *final(self) == (Cpu { AF: ((old(self).AF / 256) * 256 + f) as u16, ..*old(self) }),
            final(self).AF % 16 == 0,
    {
        self.AF = (self.AF / 256) * 256 + f as u16;
    }

    /// Sets one flag; the other flags and A are kept, F's low nibble is zero.
    pub fn set_flag(&mut self, flag: Flag, value: bool)
        ensures
            *final(self) == (Cpu { AF: Self::with_flag(old(self).AF, flag, value), ..*old(self) }),
    {
        let z = if flag == Flag::Z { value } else { self.get_flag(Flag::Z) };
        let n = if flag == Flag::N { value } else { self.get_flag(Flag::N) };
        let h = if flag == Flag::H { value } else { self.get_flag(Flag::H) };
        let c = if flag == Flag::C { value } else { self.get_flag(Flag::C) };
        let f = make_flags(z, n, h, c);
        self.set_f(f);
    }

    /// Sets H from the carry out of bit 3 of the 8-bit sum `a + b`.
    pub fn set_bhca(&mut self, a: u8, b: u8) -> (r: bool)
        ensures
            r == ((a % 16) + (b % 16) > 15),
            *final(self) == (Cpu { AF: Self::with_flag(old(self).AF, Flag::H, r), ..*old(self) }),
    {
        let r = (a % 16) + (b % 16) > 15;
        self.set_flag(Flag::H, r);
        r
    }

    /// Sets H from the borrow into bit 4 of the 8-bit difference `a - b`.
    pub fn set_bhcs(&mut self, a: u8, b: u8) -> (r: bool)
        ensures
            r == ((a % 16) < (b % 16)),
            *final(self) == (Cpu { AF: Self::with_flag(old(self).AF, Flag::H, r), ..*old(self) }),
    {
        let r = (a % 16) < (b % 16);
        self.set_flag(Flag::H, r);
        r
    }

    /// Sets H from the carry out of bit 3 of the 16-bit sum `a + b`.
    pub fn set_4hca(&mut self, a: u16, b: u16) -> (r: bool)
        ensures
            r == ((a % 16) + (b % 16) > 15),
            *final(self) == (Cpu { AF: Self::with_flag(old(self).AF, Flag::H, r), ..*old(self) }),
    {
        let r = (a % 16) + (b % 16) > 15;
        self.set_flag(Flag::H, r);
        r
    }

    /// Sets H from the borrow into bit 4 of the 16-bit difference `a - b`.
    pub fn set_4hcs(&mut self, a: u16, b: u16) -> (r: bool)
        ensures
            r == ((a % 16) < (b % 16)),
            *final(self) == (Cpu { AF: Self::with_flag(old(self).AF, Flag::H, r), ..*old(self) }),
    {
        let r = (a % 16) < (b % 16);
        self.set_flag(Flag::H, r);
        r
    }

    /// Sets H from the carry out of bit 11 of the sum `a + b`.
    pub fn set_12hca(&mut self, a: u16, b: u16) -> (r: bool)
        ensures
            r == ((a % 4096) + (b % 4096) > 4095),
            *final(self) == (Cpu { AF: Self::with_flag(old(self).AF, Flag::H, r), ..*old(self) }),
    {
        let r = (a % 4096) + (b % 4096) > 4095;
        self.set_flag(Flag::H, r);
        r
    }

    /// Sets H from the borrow into bit 12 of the difference `a - b`.
    pub fn set_12hcs(&mut self, a: u16, b: u16) -> (r: bool)
        ensures
            r == ((a % 4096) < (b % 4096)),
            *final(self) == (Cpu { AF: Self::with_flag(old(self).AF, Flag::H, r), ..*old(self) }),
    {
        let r = (a % 4096) < (b % 4096);
        self.set_flag(Flag::H, r);
        r
    }
}

} // verus!
