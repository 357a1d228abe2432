//! An emulator of the Sharp LR35902 handheld game console: its CPU, the
//! memory bus with its OAM DMA, the timer, serial link and joypad, and the
//! picture processing unit with its pixel FIFOs.
//!
//! `Emu` is the machine. Each `cycle` is one machine cycle: a DMA step when
//! a transfer runs, one CPU cycle, four PPU dots and one timer step.
use vstd::prelude::*;

pub mod alu;
pub mod apu;
pub mod cpu;
pub mod io;
pub mod mem;
pub mod ops;
pub mod ppu;

use crate::cpu::Cpu;
use crate::io::Button;
use crate::mem::{Mem, MEM_SIZE};
use crate::mem::{lemma_ly_bound, lemma_write_low};
use crate::ppu::{dots_to_frame, lemma_dots_range, lemma_inv_frame, lemma_inv_stat, Ppu};

verus! {

/// Machine cycles after which `tick_till_frame_done` gives up waiting: two
/// frames.
pub const FRAME_LIMIT: u32 = 35112;

/// The registers, for inspection.
#[derive(Clone, Copy, PartialEq, Eq, Debug)]
pub struct DebugCpu {
    pub af: u16,
    pub bc: u16,
    pub de: u16,
    pub hl: u16,
    pub sp: u16,
    pub pc: u16,
    pub ime: bool,
    pub halted: bool,
}

pub struct Emu {
    pub cpu: Cpu,
    pub mem: Mem,
    pub ppu: Ppu,
}

impl Emu {
    /// The CPU sits between two cycles, and the picture unit agrees with the
    /// bus.
    pub open spec fn wf(&self) -> bool {
        &&& self.cpu.wf()
        &&& self.mem.wf()
        &&& self.ppu.inv(self.mem)
    }

    pub fn new() -> (r: Self)
        ensures
            r.wf(),
            r.cpu.PC == 0 && r.cpu.SP == 0 && r.cpu.AF == 0,
            r.cpu.BC == 0 && r.cpu.DE == 0 && r.cpu.HL == 0,
            r.cpu.current_cycle == 1 && r.cpu.current_op == 0,
            !r.cpu.ime && !r.cpu.is_halt && !r.cpu.is_stop && !r.cpu.ei_delay && !r.cpu.dispatching,
            r.mem.ly() == 0,
            !r.mem.rom_locked(),
            !r.mem.transferring(),
            !r.mem.ppu_reading(),
            forall|a: int| 0 <= a < MEM_SIZE ==> r.mem.byte(a) == 0,
    {
        let cpu = Cpu::new();
        let mut mem = Mem::new();
        let ppu = Ppu::new_on(&mut mem);
        Self { cpu, mem, ppu }
    }

    /// The registers as the boot ROM leaves them: PC 0x0100, SP 0xFFFE,
    /// AF 0x1180.
    pub fn init(&mut self)
        requires
            old(self).wf(),
        ensures
            final(self).wf(),
            final(self).cpu == (Cpu { PC: 0x100, SP: 0xFFFE, AF: 0x1180, ..old(self).cpu }),
            final(self).mem == old(self).mem,
    {
        self.cpu.PC = 0x100;
        self.cpu.SP = 0xFFFE;
        self.cpu.AF = 0x1180;
    }

    /// Zeroes the memory and points the CPU at the cartridge entry: PC
    /// 0x0100, SP 0xFFFE, AF 0x1180 after the boot ROM (`post_boot`), else
    /// 0x0180.
    pub fn reset(&mut self, post_boot: bool)
        requires
            old(self).wf(),
        ensures
            final(self).wf(),
            final(self).cpu.PC == 0x100,
            final(self).cpu.SP == 0xFFFE,
            final(self).cpu.AF == (if post_boot {
                0x1180u16
            } else {
                0x0180u16
            }),
            final(self).cpu.current_cycle == 1,
            forall|a: int| 0 <= a < MEM_SIZE ==> final(self).mem.byte(a) == 0,
    {
        self.mem.reset();
        proof {
            lemma_inv_frame(self.ppu, old(self).mem, self.mem);
        }
        self.cpu = Cpu::new();
        self.cpu.PC = 0x100;
        self.cpu.SP = 0xFFFE;
        self.cpu.AF = if post_boot {
            0x1180
        } else {
            0x0180
        };
    }

    /// What holds between any two cycles: F's low nibble is zero, STAT
    /// bits 1..0 show the PPU mode, and LY is at most 153.
    pub open spec fn observed_invariants(&self) -> bool {
        &&& self.cpu.AF % 16 == 0
        &&& self.mem.stat() % 4 == self.ppu.mode_bits()
        &&& self.mem.ly() <= 153
    }

    pub proof fn lemma_observed(&self)
        requires
            self.wf(),
        ensures
            self.observed_invariants(),
    {
        lemma_inv_stat(self.ppu, self.mem);
        lemma_ly_bound(self.mem);
    }

    /// What one machine cycle does (`o` to `n`): the CPU moves by one
    /// `Cpu::ticked` step, on the bus as it stands after the DMA step (the
    /// bus itself when no transfer runs), and the PPU and timer steps after
    /// it leave the memory bytes as the CPU left them; the invariants hold; the frame
    /// countdown moves by four dots, and the frame-ready flag, once raised,
    /// stays.
    pub open spec fn cycled(o: Emu, n: Emu) -> bool {
        &&& n.wf()
        &&& n.observed_invariants()
        &&& exists|m0: Mem, m1: Mem|
            (!o.mem.transferring() ==> m0 == o.mem && Mem::same_memory(m1, n.mem))
                && #[trigger] Cpu::ticked(o.cpu, n.cpu, m0, m1)
        &&& (n.cpu.current_cycle == 1 || n.cpu.current_cycle == o.cpu.current_cycle + 1)
        &&& (o.ppu.frame_ready() ==> n.ppu.frame_ready())
        &&& (!o.ppu.frame_ready() && n.ppu.frame_ready() ==> n.mem.ly() == 144)
        &&& (!n.ppu.frame_ready() ==> dots_to_frame(n.mem.ly(), n.ppu.dot()) == dots_to_frame(
            o.mem.ly(),
            o.ppu.dot(),
        ) - 4)
        &&& 1 <= dots_to_frame(n.mem.ly(), n.ppu.dot()) <= 70224
    }

    /// One machine cycle: a DMA step when a transfer runs, one CPU cycle,
    /// four PPU dots, one timer step.
    pub fn cycle(&mut self)
        requires
            old(self).wf(),
        ensures
            Self::cycled(*old(self), *final(self)),
    {
        let ghost m0 = self.mem;
        if self.mem.is_transferring() {
            self.mem.dma_transfer();
            proof {
                lemma_inv_frame(self.ppu, m0, self.mem);
            }
        }
        let ghost m1 = self.mem;
        let ghost c0 = self.cpu;
        self.cpu.tick(&mut self.mem);
        let ghost m2 = self.mem;
        proof {
            lemma_inv_frame(self.ppu, m1, self.mem);
        }
        self.ppu.tick(&mut self.mem);
        self.ppu.tick(&mut self.mem);
        self.ppu.tick(&mut self.mem);
        self.ppu.tick(&mut self.mem);
        let ghost m3 = self.mem;
        self.mem.tick();
        proof {
            lemma_inv_frame(self.ppu, m3, self.mem);
            self.lemma_observed();
            lemma_dots_range(self.ppu, self.mem);
            assert(Cpu::ticked(c0, self.cpu, m1, m2));
        }
    }

    /// Runs machine cycles until the current instruction (or interrupt
    /// dispatch) is complete: at least one cycle, each one a `cycled` step,
    /// stopping at the first instruction boundary.
    pub fn tick(&mut self)
        requires
            old(self).wf(),
        ensures
            final(self).wf(),
            final(self).observed_invariants(),
            final(self).cpu.current_cycle == 1,
            exists|trace: Seq<Emu>|
                #![trigger trace.len()]
                {
                    &&& trace.len() >= 2
                    &&& trace[0] == *old(self)
                    &&& trace.last() == *final(self)
                    &&& forall|i: int|
                        0 <= i < trace.len() - 1 ==> #[trigger] Self::cycled(trace[i], trace[i + 1])
                    &&& forall|i: int|
                        0 < i < trace.len() - 1 ==> (#[trigger] trace[i]).cpu.current_cycle != 1
                },
    {
        let ghost start = *self;
        self.cycle();
        let ghost mut trace: Seq<Emu> = seq![start, *self];
        while self.cpu.current_cycle != 1
            invariant
                self.wf(),
                trace.len() >= 2,
                trace[0] == start,
                start == *old(self),
                trace.last() == *self,
                forall|i: int|
                    0 <= i < trace.len() - 1 ==> #[trigger] Self::cycled(trace[i], trace[i + 1]),
                forall|i: int| 0 < i < trace.len() - 1 ==> (#[trigger] trace[i]).cpu.current_cycle != 1,
            decreases (if self.cpu.current_cycle == 1 {
                0
            } else {
                7 - self.cpu.current_cycle
            }),
        {
            let ghost before = *self;
            self.cycle();
            proof {
                let t2 = trace.push(*self);
                assert(forall|i: int|
                    0 <= i < t2.len() - 1 ==> #[trigger] Self::cycled(t2[i], t2[i + 1])) by {
                    assert forall|i: int| 0 <= i < t2.len() - 1 implies #[trigger] Self::cycled(
                        t2[i],
                        t2[i + 1],
                    ) by {
                        if i < trace.len() - 1 {
                            assert(t2[i] == trace[i] && t2[i + 1] == trace[i + 1]);
                        } else {
                            assert(t2[i] == before && t2[i + 1] == *self);
                        }
                    }
                }
                assert(forall|i: int| 0 < i < t2.len() - 1 ==> (#[trigger] t2[i]).cpu.current_cycle != 1) by {
                    assert forall|i: int| 0 < i < t2.len() - 1 implies (#[trigger] t2[i]).cpu.current_cycle != 1 by {
                        if i < trace.len() - 1 {
                            assert(t2[i] == trace[i]);
                        } else {
                            assert(t2[i] == before);
                        }
                    }
                }
                trace = t2;
            }
        }
        proof {
            self.lemma_observed();
            assert(trace.len() >= 2);
        }
    }

    /// Runs until the picture unit completes a frame (enters VBlank) and
    /// returns PC. A frame is at most 17556 cycles away, so the loop never
    /// reaches its bound.
    pub fn tick_till_frame_done(&mut self) -> (r: u16)
        requires
            old(self).wf(),
        ensures
            final(self).wf(),
            final(self).ppu.frame_ready(),
            final(self).mem.ly() == 144,
            r == final(self).cpu.PC,
    {
        proof {
            lemma_dots_range(self.ppu, self.mem);
        }
        self.ppu.clear_ready();
        let ghost start = dots_to_frame(self.mem.ly(), self.ppu.dot());
        self.cycle();
        let mut n: u32 = 1;
        while !self.ppu.is_ready() && n < FRAME_LIMIT
            invariant
                self.wf(),
                1 <= n <= FRAME_LIMIT,
                start <= 70224,
                1 <= dots_to_frame(self.mem.ly(), self.ppu.dot()),
                !self.ppu.frame_ready() ==> dots_to_frame(self.mem.ly(), self.ppu.dot()) + 4 * n
                    == start,
                self.ppu.frame_ready() ==> self.mem.ly() == 144,
            decreases FRAME_LIMIT - n,
        {
            self.cycle();
            n = n + 1;
        }
        self.cpu.PC
    }

    /// A copy of the RGBA framebuffer.
    pub fn get_buffer(&self) -> (r: Vec<u8>)
        requires
            self.wf(),
        ensures
            r@ == self.ppu.buffer(),
    {
        let b = self.ppu.get_buffer();
        let mut out: Vec<u8> = Vec::new();
        let mut i: usize = 0;
        while i < b.len()
            invariant
                i <= b@.len(),
                out@ == b@.subrange(0, i as int),
            decreases b.len() - i,
        {
            out.push(b[i]);
            i = i + 1;
        }
        assert(out@ == b@.subrange(0, b@.len() as int));
        out
    }

    /// Copies a ROM image into 0x0000 upward (at most 32 KiB) and engages
    /// the ROM lock.
    pub fn load_rom_data(&mut self, rom: Vec<u8>)
        requires
            old(self).wf(),
        ensures
            final(self).wf(),
            final(self).mem.rom_locked(),
            final(self).cpu == old(self).cpu,
            forall|a: int|
                0 <= a < MEM_SIZE ==> final(self).mem.byte(a) == (if a < rom@.len() && a
                    < 0x8000 {
                    rom@[a]
                } else {
                    old(self).mem.byte(a)
                }),
    {
        let ghost m0 = self.mem;
        self.mem.load_rom(&rom);
        proof {
            lemma_inv_frame(self.ppu, m0, self.mem);
        }
    }

    pub fn get_cpu_state(&self) -> (r: DebugCpu)
        ensures
            r.af == self.cpu.AF && r.bc == self.cpu.BC && r.de == self.cpu.DE && r.hl
                == self.cpu.HL && r.sp == self.cpu.SP && r.pc == self.cpu.PC,
            r.ime == self.cpu.ime && r.halted == self.cpu.is_halt,
    {
        DebugCpu {
            af: self.cpu.AF,
            bc: self.cpu.BC,
            de: self.cpu.DE,
            hl: self.cpu.HL,
            sp: self.cpu.SP,
            pc: self.cpu.PC,
            ime: self.cpu.ime,
            halted: self.cpu.is_halt,
        }
    }

    /// Every address as the CPU would read it now.
    pub fn get_mem_state(&self) -> (r: Vec<u8>)
        requires
            self.wf(),
        ensures
            r@.len() == MEM_SIZE,
            forall|a: int| 0 <= a < MEM_SIZE ==> r@[a] == self.mem.read_spec(a as u16),
    {
        let mut out: Vec<u8> = Vec::new();
        let mut i: usize = 0;
        while i < MEM_SIZE
            invariant
                i <= MEM_SIZE,
                self.mem.wf(),
                out@.len() == i,
                forall|a: int| 0 <= a < i ==> out@[a] == self.mem.read_spec(a as u16),
            decreases MEM_SIZE - i,
        {
            out.push(self.mem.get(i as u16));
            i = i + 1;
        }
        out
    }

    /// Sets all eight buttons from a mask, bit set meaning pressed: Up 0,
    /// Down 1, Left 2, Right 3, A 4, B 5, Start 6, Select 7.
    pub fn button_states(&mut self, buttons: u8)
        requires
            old(self).wf(),
        ensures
            final(self).wf(),
            final(self).cpu == old(self).cpu,
            final(self).mem.joypad_view().pressed(Button::Up) == crate::alu::bit_of(
                buttons as int,
                0,
            ),
            final(self).mem.joypad_view().pressed(Button::Down) == crate::alu::bit_of(
                buttons as int,
                1,
            ),
            final(self).mem.joypad_view().pressed(Button::Left) == crate::alu::bit_of(
                buttons as int,
                2,
            ),
            final(self).mem.joypad_view().pressed(Button::Right) == crate::alu::bit_of(
                buttons as int,
                3,
            ),
            final(self).mem.joypad_view().pressed(Button::A) == crate::alu::bit_of(
                buttons as int,
                4,
            ),
            final(self).mem.joypad_view().pressed(Button::B) == crate::alu::bit_of(
                buttons as int,
                5,
            ),
            final(self).mem.joypad_view().pressed(Button::Start) == crate::alu::bit_of(
                buttons as int,
                6,
            ),
            final(self).mem.joypad_view().pressed(Button::Select) == crate::alu::bit_of(
                buttons as int,
                7,
            ),
    {
        self.press_button(Button::Up, crate::alu::test_bit(buttons, 0));
        self.press_button(Button::Down, crate::alu::test_bit(buttons, 1));
        self.press_button(Button::Left, crate::alu::test_bit(buttons, 2));
        self.press_button(Button::Right, crate::alu::test_bit(buttons, 3));
        self.press_button(Button::A, crate::alu::test_bit(buttons, 4));
        self.press_button(Button::B, crate::alu::test_bit(buttons, 5));
        self.press_button(Button::Start, crate::alu::test_bit(buttons, 6));
        self.press_button(Button::Select, crate::alu::test_bit(buttons, 7));
    }

    /// Presses (`value` true) or releases one button.
    pub fn press_button(&mut self, button: Button, value: bool)
        requires
            old(self).wf(),
        ensures
            final(self).wf(),
            final(self).cpu == old(self).cpu,
            final(self).mem.joypad_view().pressed(button) == value,
            forall|o: Button|
                o != button ==> final(self).mem.joypad_view().pressed(o) == old(
                    self,
                ).mem.joypad_view().pressed(o),
    {
        let ghost m0 = self.mem;
        self.mem.button(button, value);
        proof {
            lemma_inv_frame(self.ppu, m0, self.mem);
        }
    }

    pub fn cpu(&self) -> (r: &Cpu)
        ensures
            *r == self.cpu,
    {
        &self.cpu
    }

    pub fn mem(&self) -> (r: &Mem)
        ensures
            *r == self.mem,
    {
        &self.mem
    }

    pub fn ppu(&self) -> (r: &Ppu)
        ensures
            *r == self.ppu,
    {
        &self.ppu
    }

    /// Writes the bytes of `values` at 0x0000 upward through the bus.
    pub fn write_mem(&mut self, values: &[u8; 50])
        requires
            old(self).wf(),
        ensures
            final(self).wf(),
            final(self).cpu == old(self).cpu,
            !old(self).mem.rom_locked() ==> forall|a: int|
                0 <= a < 50 ==> final(self).mem.byte(a) == values@[a],
    {
        let ghost unlocked = !self.mem.rom_locked();
        let mut i: usize = 0;
        while i < 50
            invariant
                self.wf(),
                self.cpu == old(self).cpu,
                unlocked == !old(self).mem.rom_locked(),
                unlocked ==> !self.mem.rom_locked(),
                unlocked ==> forall|a: int| 0 <= a < i ==> self.mem.byte(a) == values@[a],
            decreases 50 - i,
        {
            let ghost m0 = self.mem;
            self.mem.set(i as u16, values[i]);
            proof {
                lemma_inv_frame(self.ppu, m0, self.mem);
                if unlocked {
                    lemma_write_low(m0, self.mem, i as u16, values@[i as int]);
                }
            }
            i = i + 1;
        }
    }

    /// The text sent over the serial link so far.
    pub fn get_serial(&self) -> (r: String)
        ensures
            crate::io::all_ascii(self.mem.serial_view().output()) ==> r@ == crate::io::ascii_text(
                self.mem.serial_view().output(),
            ),
    {
        self.mem.get_serial().get_buffer()
    }
}

/// A NOP at PC in ROM, run from an instruction boundary with interrupts
/// off and no DMA, completes in one cycle and moves PC past it, keeping the
/// other registers.
pub proof fn lemma_nop_advances_pc(e: Emu, e2: Emu)
    requires
        e.wf(),
        e.cpu.current_cycle == 1,
        !e.cpu.dispatching && !e.cpu.is_halt && !e.cpu.ime,
        !e.mem.transferring(),
        e.cpu.PC < 0x8000,
        e.mem.byte(e.cpu.PC as int) == 0,
        Emu::cycled(e, e2),
    ensures
        e2.cpu.PC == e.cpu.PC + 1,
        e2.cpu.current_cycle == 1,
        e2.cpu.AF == e.cpu.AF && e2.cpu.BC == e.cpu.BC && e2.cpu.DE == e.cpu.DE,
        e2.cpu.HL == e.cpu.HL && e2.cpu.SP == e.cpu.SP,
{
    let (m0, m1) = choose|m0: Mem, m1: Mem|
        (!e.mem.transferring() ==> m0 == e.mem && Mem::same_memory(m1, e2.mem))
            && #[trigger] Cpu::ticked(e.cpu, e2.cpu, m0, m1);
    crate::mem::lemma_read_plain(m0, e.cpu.PC);
    let o = e.cpu;
    let fetched = Cpu {
        current_op: m0.read_spec(o.PC),
        PC: crate::ops::inc16(o.PC),
        ime: o.ime || o.ei_delay,
        ei_delay: false,
        ..o
    };
    let before_count = Cpu { current_cycle: (e2.cpu.current_cycle - 1) as u8, ..e2.cpu };
    crate::ops::lemma_executed_nop(fetched, before_count, m0, m1);
}

} // verus!
