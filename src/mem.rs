//! The memory bus: the 64 KiB address space, its memory-mapped registers,
//! the interrupt registers and the OAM DMA controller.
use vstd::prelude::*;

use crate::apu::{audio_mapped, APU};
use crate::io::{
    Button, Joypad, Serial, Timer, DIV_ADDR, P1_ADDR, SB_ADDR, SC_ADDR, TAC_ADDR, TIMA_ADDR,
    TMA_ADDR,
};

verus! {

/// Size of the address space.
pub const MEM_SIZE: usize = 0x10000;

/// Bytes copied by one OAM DMA transfer.
pub const DMA_LENGTH: u16 = 160;

/// Start of OAM.
pub const OAM_START: u16 = 0xFE00;

pub struct Mem {
    mem: Vec<u8>,
    iflag: u8,
    ienable: u8,
    lcdc: u8,
    stat: u8,
    scy: u8,
    scx: u8,
    ly: u8,
    lyc: u8,
    dma: u8,
    bgp: u8,
    obp0: u8,
    obp1: u8,
    wy: u8,
    wx: u8,
    transfering: bool,
    transfer_count: u16,
    serial: Serial,
    joypad: Joypad,
    timer: Timer,
    apu: APU,
    /// Raised while the picture unit reads, which a DMA transfer does not
    /// block.
    pub ppu_access: bool,
    rom_lock: bool,
}

/// Whether a line of the joypad fell from 1 to 0 between two reads.
pub open spec fn lines_fell(before: u8, after: u8) -> bool {
    (before & !after) % 16 != 0
}

impl Mem {
    pub closed spec fn wf(&self) -> bool {
        &&& self.mem@.len() == MEM_SIZE
        &&& self.ly <= 153
        &&& self.transfer_count < DMA_LENGTH
        &&& self.apu.wf()
    }

    /// The byte stored at `addr` in the flat array.
    pub closed spec fn byte(&self, addr: int) -> u8 {
        self.mem@[addr]
    }

    pub closed spec fn iflag(&self) -> u8 {
        self.iflag
    }

    pub closed spec fn ienable(&self) -> u8 {
        self.ienable
    }

    pub closed spec fn lcdc(&self) -> u8 {
        self.lcdc
    }

    pub closed spec fn stat(&self) -> u8 {
        self.stat
    }

    pub closed spec fn ly(&self) -> u8 {
        self.ly
    }

    /// LY, as the picture unit reads it.
    pub fn get_ly(&self) -> (r: u8)
        requires
            self.wf(),
        ensures
            r == self.ly(),
            r <= 153,
    {
        self.ly
    }

    pub closed spec fn lyc(&self) -> u8 {
        self.lyc
    }

    pub closed spec fn dma_page(&self) -> u8 {
        self.dma
    }

    pub closed spec fn transferring(&self) -> bool {
        self.transfering
    }

    pub closed spec fn transfer_index(&self) -> u16 {
        self.transfer_count
    }

    /// Whether the escape flag that lets the picture unit read during a DMA
    /// transfer is raised.
    pub closed spec fn ppu_reading(&self) -> bool {
        self.ppu_access
    }

    pub closed spec fn rom_locked(&self) -> bool {
        self.rom_lock
    }

    pub closed spec fn serial_view(&self) -> Serial {
        self.serial
    }

    pub closed spec fn timer_view(&self) -> Timer {
        self.timer
    }

    pub closed spec fn joypad_view(&self) -> Joypad {
        self.joypad
    }

    /// What a read of `addr` returns when no DMA transfer blocks it.
    pub closed spec fn open_value(&self, addr: u16) -> u8 {
        if addr == P1_ADDR {
            self.joypad.value()
        } else if addr == 0xFFFF {
            self.ienable
        } else if addr == 0xFF0F {
            self.iflag
        } else if addr == 0xFF40 {
            self.lcdc
        } else if addr == 0xFF41 {
            self.stat
        } else if addr == 0xFF42 {
            self.scy
        } else if addr == 0xFF43 {
            self.scx
        } else if addr == 0xFF44 {
            self.ly
        } else if addr == 0xFF45 {
            self.lyc
        } else if addr == 0xFF46 {
            self.dma
        } else if addr == 0xFF47 {
            self.bgp
        } else if addr == 0xFF48 {
            self.obp0
        } else if addr == 0xFF49 {
            self.obp1
        } else if addr == 0xFF4A {
            self.wy
        } else if addr == 0xFF4B {
            self.wx
        } else if DIV_ADDR <= addr <= TAC_ADDR {
            self.timer.read_value(addr)
        } else if addr == SB_ADDR || addr == SC_ADDR {
            if addr == SB_ADDR {
                self.serial.data()
            } else {
                self.serial.control()
            }
        } else if 0xFF10 <= addr <= 0xFF3F {
            self.apu.value(addr)
        } else if 0xE000 <= addr <= 0xFDFF {
            self.mem@[addr - 0x2000]
        } else if 0xFEA0 <= addr <= 0xFEFF {
            0xFF
        } else {
            self.mem@[addr as int]
        }
    }

    /// What the CPU reads at `addr`: during a DMA transfer only high RAM
    /// and the DMA register answer, everything else reads 0xFF.
    pub closed spec fn read_spec(&self, addr: u16) -> u8 {
        if self.transfering && !self.ppu_access {
            if 0xFF80 <= addr <= 0xFFFE {
                self.mem@[addr as int]
            } else if addr == 0xFF46 {
                self.dma
            } else {
                0xFF
            }
        } else {
            self.open_value(addr)
        }
    }

    /// The STAT register with the coincidence bit (bit 2) set to whether
    /// LY equals LYC.
    pub open spec fn with_coincidence(stat: u8, ly: u8, lyc: u8) -> u8 {
        let b = if ly == lyc {
            4int
        } else {
            0
        };
        ((stat / 8) * 8 + b + stat % 4) as u8
    }

    /// IF with the request bit `b` (< 5) set.
    pub open spec fn with_request(iflag: u8, b: int) -> u8 {
        if crate::alu::bit_of(iflag as int, b) {
            iflag
        } else {
            (iflag + crate::alu::pow2(b)) as u8
        }
    }

    /// IF after the coincidence bit went from `before` to `after`: the LCD
    /// STAT request is raised when it became true while enabled (STAT bit 6).
    pub open spec fn coincidence_request(iflag: u8, before: u8, after: u8) -> u8 {
        if (after / 4) % 2 == 1 && (before / 4) % 2 == 0 && (after / 64) % 2 == 1 {
            Self::with_request(iflag, 1)
        } else {
            iflag
        }
    }

    /// `n` and `o` hold the same bytes, lock, DMA state and escape flag.
    pub open spec fn same_memory(o: Mem, n: Mem) -> bool {
        &&& forall|a: int| 0 <= a < MEM_SIZE ==> n.byte(a) == o.byte(a)
        &&& n.rom_locked() == o.rom_locked()
        &&& n.transferring() == o.transferring()
        &&& n.ppu_reading() == o.ppu_reading()
    }

    /// `n` differs from `o` at most in the flat memory.
    pub closed spec fn only_memory_changed(o: Mem, n: Mem) -> bool {
        n == Mem { mem: n.mem, ..o }
    }

    /// `n` differs from `o` at most in the joypad and IF.
    pub closed spec fn only_joypad_changed(o: Mem, n: Mem) -> bool {
        n == Mem { joypad: n.joypad, iflag: n.iflag, ..o }
    }

    /// `n` differs from `o` at most in the timer and IF.
    pub closed spec fn only_timer_changed(o: Mem, n: Mem) -> bool {
        n == Mem { timer: n.timer, iflag: n.iflag, ..o }
    }

    /// `n` differs from `o` at most in STAT.
    pub closed spec fn only_stat_changed(o: Mem, n: Mem) -> bool {
        n == Mem { stat: n.stat, ..o }
    }

    /// `n` differs from `o` at most in LY, STAT and IF.
    pub closed spec fn only_line_changed(o: Mem, n: Mem) -> bool {
        n == Mem { ly: n.ly, stat: n.stat, iflag: n.iflag, ..o }
    }

    /// `n` differs from `o` at most in the flat memory and the DMA progress.
    pub closed spec fn only_dma_changed(o: Mem, n: Mem) -> bool {
        n == Mem { mem: n.mem, transfering: n.transfering, transfer_count: n.transfer_count, ..o }
    }

    /// `n` differs from `o` at most in the ROM lock.
    pub closed spec fn only_lock_changed(o: Mem, n: Mem) -> bool {
        n == Mem { rom_lock: n.rom_lock, ..o }
    }

    /// How a write of `v` to `addr` changes the bus from `o` to `n`.
    pub closed spec fn write_effect(o: Mem, n: Mem, addr: u16, v: u8) -> bool {
        if addr == P1_ADDR {
            &&& n == Mem { joypad: n.joypad, iflag: n.iflag, ..o }
            &&& n.joypad.actions_selected() == ((v / 32) % 2 == 0)
            &&& n.joypad.arrows_selected() == ((v / 16) % 2 == 0)
            &&& forall|b: Button| n.joypad.pressed(b) == o.joypad.pressed(b)
            &&& n.iflag == (if lines_fell(o.joypad.value(), n.joypad.value()) {
                o.iflag | 16
            } else {
                o.iflag
            })
        } else if addr == 0xFF0F {
            n == Mem { iflag: v, ..o }
        } else if addr == 0xFF40 {
            n == Mem { lcdc: v, ..o }
        } else if addr == 0xFF41 {
            n == Mem { stat: ((v / 8 % 16) * 8 + o.stat % 8) as u8, ..o }
        } else if addr == 0xFF42 {
            n == Mem { scy: v, ..o }
        } else if addr == 0xFF43 {
            n == Mem { scx: v, ..o }
        } else if addr == 0xFF44 {
            n == o
        } else if addr == 0xFF45 {
            let stat = Self::with_coincidence(o.stat, o.ly, v);
            n == Mem { lyc: v, stat, iflag: Self::coincidence_request(o.iflag, o.stat, stat), ..o }
        } else if addr == 0xFF46 {
            if v <= 0xDF {
                n == Mem { dma: v, transfering: true, transfer_count: 0, ..o }
            } else {
                n == Mem { dma: v, ..o }
            }
        } else if addr == 0xFF47 {
            n == Mem { bgp: v, ..o }
        } else if addr == 0xFF48 {
            n == Mem { obp0: v, ..o }
        } else if addr == 0xFF49 {
            n == Mem { obp1: v, ..o }
        } else if addr == 0xFF4A {
            n == Mem { wy: v, ..o }
        } else if addr == 0xFF4B {
            n == Mem { wx: v, ..o }
        } else if DIV_ADDR <= addr <= TAC_ADDR {
            &&& n == Mem { timer: n.timer, iflag: n.iflag, ..o }
            &&& o.timer.written(addr, v, n.timer)
            &&& n.iflag == (if n.timer.did_overflow() {
                o.iflag | 4
            } else {
                o.iflag
            })
        } else if addr == SB_ADDR || addr == SC_ADDR {
            &&& n == Mem { serial: n.serial, ..o }
            &&& o.serial.written(addr, v, n.serial)
        } else if 0xFF10 <= addr <= 0xFF3F {
            &&& n == Mem { apu: n.apu, ..o }
            &&& n.apu.wf()
            &&& forall|a: u16|
                0xFF10 <= a <= 0xFF3F ==> n.apu.stored(a) == (if a == addr && audio_mapped(addr) {
                    v
                } else {
                    o.apu.stored(a)
                })
        } else if addr == 0xFFFF {
            n == Mem { ienable: v, ..o }
        } else if addr <= 0x7FFF && o.rom_lock {
            n == o
        } else if 0xFEA0 <= addr <= 0xFEFF {
            n == o
        } else {
            let target = if 0xE000 <= addr <= 0xFDFF {
                addr - 0x2000
            } else {
                addr as int
            };
            &&& n == Mem { mem: n.mem, ..o }
            &&& n.mem@ == o.mem@.update(target, v)
        }
    }

    pub fn new() -> (r: Self)
        ensures
            r.wf(),
            !r.transferring(),
            !r.rom_locked(),
            !r.ppu_reading(),
            r.iflag() == 0 && r.ienable() == 0 && r.lcdc() == 0 && r.stat() == 0,
            r.ly() == 0 && r.lyc() == 0 && r.dma_page() == 0,
            forall|a: int| 0 <= a < MEM_SIZE ==> r.byte(a) == 0,
    {
        Self {
            mem: vec![0u8; MEM_SIZE],
            iflag: 0,
            ienable: 0,
            lcdc: 0,
            stat: 0,
            scy: 0,
            scx: 0,
            ly: 0,
            lyc: 0,
            dma: 0,
            bgp: 0,
            obp0: 0,
            obp1: 0,
            wy: 0,
            wx: 0,
            transfering: false,
            transfer_count: 0,
            serial: Serial::new(),
            joypad: Joypad::new(),
            timer: Timer::new(),
            apu: APU::new(),
            ppu_access: false,
            rom_lock: false,
        }
    }

    /// Zeroes the flat memory; the registers keep their values.
    pub fn reset(&mut self)
        requires
            old(self).wf(),
        ensures
            final(self).wf(),
            Self::only_memory_changed(*old(self), *final(self)),
            final(self).stat() == old(self).stat(),
            final(self).ly() == old(self).ly(),
            forall|a: int| 0 <= a < MEM_SIZE ==> final(self).byte(a) == 0,
    {
        self.mem = vec![0u8; MEM_SIZE];
    }

    /// The flat memory array.
    pub fn get_mem(&self) -> (r: &Vec<u8>)
        requires
            self.wf(),
        ensures
            r@.len() == MEM_SIZE,
            forall|a: int| 0 <= a < MEM_SIZE ==> r@[a] == self.byte(a),
    {
        &self.mem
    }

    pub fn get_serial(&self) -> (r: &Serial)
        ensures
            *r == self.serial_view(),
    {
        &self.serial
    }

    /// Engages or releases the ROM lock, which drops writes to
    /// 0x0000..=0x7FFF.
    pub fn lock_rom(&mut self, lock: bool)
        ensures
            Self::only_lock_changed(*old(self), *final(self)),
            final(self).rom_locked() == lock,
    {
        self.rom_lock = lock;
    }

    fn open_get(&self, addr: u16) -> (r: u8)
        requires
            self.wf(),
        ensures
            r == self.open_value(addr),
    {
        if addr == P1_ADDR {
            self.joypad.read()
        } else if addr == 0xFFFF {
            self.ienable
        } else if addr == 0xFF0F {
            self.iflag
        } else if addr == 0xFF40 {
            self.lcdc
        } else if addr == 0xFF41 {
            self.stat
        } else if addr == 0xFF42 {
            self.scy
        } else if addr == 0xFF43 {
            self.scx
        } else if addr == 0xFF44 {
            self.ly
        } else if addr == 0xFF45 {
            self.lyc
        } else if addr == 0xFF46 {
            self.dma
        } else if addr == 0xFF47 {
            self.bgp
        } else if addr == 0xFF48 {
            self.obp0
        } else if addr == 0xFF49 {
            self.obp1
        } else if addr == 0xFF4A {
            self.wy
        } else if addr == 0xFF4B {
            self.wx
        } else if DIV_ADDR <= addr && addr <= TAC_ADDR {
            self.timer.read(addr)
        } else if addr == SB_ADDR || addr == SC_ADDR {
            self.serial.read(addr)
        } else if 0xFF10 <= addr && addr <= 0xFF3F {
            self.apu.read(addr)
        } else if 0xE000 <= addr && addr <= 0xFDFF {
            self.mem[(addr - 0x2000) as usize]
        } else if 0xFEA0 <= addr && addr <= 0xFEFF {
            0xFF
        } else {
            self.mem[addr as usize]
        }
    }

    /// Reads a byte as the CPU sees it. Every address answers.
    pub fn get(&self, addr: u16) -> (r: u8)
        requires
            self.wf(),
        ensures
            r == self.read_spec(addr),
    {
        if self.transfering && !self.ppu_access {
            if 0xFF80 <= addr && addr <= 0xFFFE {
                self.mem[addr as usize]
            } else if addr == 0xFF46 {
                self.dma
            } else {
                0xFF
            }
        } else {
            self.open_get(addr)
        }
    }

    /// Reads a byte as the picture unit sees it: a DMA transfer does not
    /// block it.
    pub fn ppu_get(&self, addr: u16) -> (r: u8)
        requires
            self.wf(),
        ensures
            r == self.open_value(addr),
    {
        self.open_get(addr)
    }

    fn update_coincidence(&mut self)
        requires
            old(self).wf(),
        ensures
            *final(self) == (Mem {
                stat: Self::with_coincidence(old(self).stat, old(self).ly, old(self).lyc),
                iflag: Self::coincidence_request(
                    old(self).iflag,
                    old(self).stat,
                    Self::with_coincidence(old(self).stat, old(self).ly, old(self).lyc),
                ),
                ..*old(self)
            }),
    {
        let before = self.stat;
        let b: u8 = if self.ly == self.lyc {
            4
        } else {
            0
        };
        let after = (before / 8) * 8 + b + before % 4;
        self.stat = after;
        if (after / 4) % 2 == 1 && (before / 4) % 2 == 0 && (after / 64) % 2 == 1 {
            if (self.iflag / 2) % 2 == 0 {
                self.iflag = self.iflag + 2;
            }
            proof {
                reveal_with_fuel(crate::alu::pow2, 2);
            }
        }
    }

    /// Sets LY, which only the picture unit does, and updates the
    /// coincidence bit.
    pub fn set_ly(&mut self, value: u8)
        requires
            old(self).wf(),
            value <= 153,
        ensures
            final(self).wf(),
            Self::only_line_changed(*old(self), *final(self)),
            Self::same_memory(*old(self), *final(self)),
            final(self).ienable() == old(self).ienable(),
            final(self).ly() == value,
            final(self).stat() == Self::with_coincidence(old(self).stat(), value, old(self).lyc()),
            final(self).iflag() == Self::coincidence_request(
                old(self).iflag(),
                old(self).stat(),
                final(self).stat(),
            ),
    {
        self.ly = value;
        self.update_coincidence();
    }

    /// Writes a byte as the CPU does. Every address accepts the write or
    /// drops it.
    pub fn set(&mut self, addr: u16, value: u8)
        requires
            old(self).wf(),
        ensures
            final(self).wf(),
            Self::write_effect(*old(self), *final(self), addr, value),
            final(self).stat() % 4 == old(self).stat() % 4,
            final(self).ly() == old(self).ly(),
            addr == 0xFF45 ==> final(self).lyc() == value && final(self).stat() == Self::with_coincidence(
                old(self).stat(),
                old(self).ly(),
                value,
            ),
            addr == 0xFF04 ==> final(self).timer_view().counter() == 0,
    {
        if addr == P1_ADDR {
            let before = self.joypad.read();
            self.joypad.write(value);
            let after = self.joypad.read();
            if (before & !after) % 16 != 0 {
                self.iflag = self.iflag | 16;
            }
        } else if addr == 0xFF0F {
            self.iflag = value;
        } else if addr == 0xFF40 {
            self.lcdc = value;
        } else if addr == 0xFF41 {
            self.stat = (value / 8 % 16) * 8 + self.stat % 8;
        } else if addr == 0xFF42 {
            self.scy = value;
        } else if addr == 0xFF43 {
            self.scx = value;
        } else if addr == 0xFF44 {
        } else if addr == 0xFF45 {
            self.lyc = value;
            self.update_coincidence();
        } else if addr == 0xFF46 {
            self.dma = value;
            if value <= 0xDF {
                self.transfering = true;
                self.transfer_count = 0;
            }
        } else if addr == 0xFF47 {
            self.bgp = value;
        } else if addr == 0xFF48 {
            self.obp0 = value;
        } else if addr == 0xFF49 {
            self.obp1 = value;
        } else if addr == 0xFF4A {
            self.wy = value;
        } else if addr == 0xFF4B {
            self.wx = value;
        } else if DIV_ADDR <= addr && addr <= TAC_ADDR {
            self.timer.write(addr, value);
            if self.timer.overflowed() {
                self.iflag = self.iflag | 4;
            }
        } else if addr == SB_ADDR || addr == SC_ADDR {
            self.serial.write(addr, value);
        } else if 0xFF10 <= addr && addr <= 0xFF3F {
            self.apu.write(addr, value);
        } else if addr == 0xFFFF {
            self.ienable = value;
        } else if addr <= 0x7FFF && self.rom_lock {
        } else if 0xFEA0 <= addr && addr <= 0xFEFF {
        } else if 0xE000 <= addr && addr <= 0xFDFF {
            self.mem.set((addr - 0x2000) as usize, value);
        } else {
            self.mem.set(addr as usize, value);
        }
    }

    /// One machine cycle of an OAM DMA transfer: copies byte `i` of the
    /// source page to 0xFE00 + `i`; after the 160th byte the transfer ends.
    pub fn dma_transfer(&mut self)
        requires
            old(self).wf(),
            old(self).transferring(),
        ensures
            final(self).wf(),
            ({
                let i = old(self).transfer_index();
                let src = old(self).dma_page() * 256 + i;
                &&& Self::only_dma_changed(*old(self), *final(self))
                &&& forall|a: int| 0 <= a < MEM_SIZE ==> final(self).byte(a) == (if a == OAM_START + i {
                    old(self).open_value(src as u16)
                } else {
                    old(self).byte(a)
                })
                &&& (i + 1 < DMA_LENGTH ==> final(self).transferring()
                    && final(self).transfer_index() == i + 1)
                &&& (i + 1 == DMA_LENGTH ==> !final(self).transferring()
                    && final(self).transfer_index() == 0)
            }),
            final(self).stat() == old(self).stat(),
            final(self).ly() == old(self).ly(),
    {
        let i = self.transfer_count;
        let src = (self.dma as u16) * 256 + i;
        let value = self.open_get(src);
        self.mem.set((OAM_START + i) as usize, value);
        if i + 1 == DMA_LENGTH {
            self.transfering = false;
            self.transfer_count = 0;
        } else {
            self.transfer_count = i + 1;
        }
    }

    /// IF, as the CPU's interrupt logic sees it (a DMA transfer does not
    /// hide it).
    pub fn get_iflag(&self) -> (r: u8)
        ensures
            r == self.iflag(),
    {
        self.iflag
    }

    /// IE, as the CPU's interrupt logic sees it.
    pub fn get_ienable(&self) -> (r: u8)
        ensures
            r == self.ienable(),
    {
        self.ienable
    }

    /// Sets IF, as the CPU does when it dispatches an interrupt.
    pub fn set_iflag(&mut self, v: u8)
        requires
            old(self).wf(),
        ensures
            final(self).wf(),
            Self::write_effect(*old(self), *final(self), 0xFF0F, v),
            final(self).stat() == old(self).stat(),
            final(self).ly() == old(self).ly(),
            final(self).iflag() == v,
            final(self).ienable() == old(self).ienable(),
            Self::same_memory(*old(self), *final(self)),
    {
        self.iflag = v;
    }

    /// The video register at `addr` (0xFF40..=0xFF4B) as the picture unit
    /// reads it.
    pub open spec fn video(&self, addr: u16) -> u8 {
        self.open_value(addr)
    }

    /// LCDC bit `b` (< 8).
    pub open spec fn lcdc_bit(&self, b: int) -> bool {
        crate::alu::bit_of(self.video(0xFF40) as int, b)
    }

    /// Copies a ROM image into 0x0000 upward (at most 32 KiB) and engages
    /// the ROM lock.
    pub fn load_rom(&mut self, rom: &Vec<u8>)
        requires
            old(self).wf(),
        ensures
            final(self).wf(),
            final(self).rom_locked(),
            final(self).stat() == old(self).stat(),
            final(self).ly() == old(self).ly(),
            final(self).transferring() == old(self).transferring(),
            forall|a: int|
                0 <= a < MEM_SIZE ==> final(self).byte(a) == (if a < rom@.len() && a < 0x8000 {
                    rom@[a]
                } else {
                    old(self).byte(a)
                }),
    {
        let n: usize = if rom.len() < 0x8000 {
            rom.len()
        } else {
            0x8000
        };
        let mut i: usize = 0;
        while i < n
            invariant
                n <= rom@.len(),
                n <= 0x8000,
                i <= n,
                self.mem@.len() == MEM_SIZE,
                *self == (Mem { mem: self.mem, ..*old(self) }),
                forall|a: int|
                    0 <= a < MEM_SIZE ==> self.mem@[a] == (if a < i {
                        rom@[a]
                    } else {
                        old(self).mem@[a]
                    }),
            decreases n - i,
        {
            self.mem.set(i, rom[i]);
            i = i + 1;
        }
        self.rom_lock = true;
    }

    /// Whether a DMA transfer is running.
    pub fn is_transferring(&self) -> (r: bool)
        ensures
            r == self.transferring(),
    {
        self.transfering
    }

    /// Sets bits of STAT, which only the picture unit does: `bit` 0 or 1
    /// sets the mode bits to `v` (< 4); another bit (< 8) is set to `v` (< 2).
    pub fn set_lcd_stat(&mut self, bit: u8, v: u8)
        requires
            old(self).wf(),
            (bit < 2 && v < 4) || (2 <= bit < 8 && v < 2),
        ensures
            final(self).wf(),
            final(self).ly() == old(self).ly(),
            Self::only_stat_changed(*old(self), *final(self)),
            Self::same_memory(*old(self), *final(self)),
            final(self).iflag() == old(self).iflag(),
            final(self).ienable() == old(self).ienable(),
            bit < 2 ==> final(self).stat() == (old(self).stat() / 4) * 4 + v,
            bit >= 2 ==> final(self).stat() == (if v == 1 {
                crate::alu::set_spec(old(self).stat(), bit as int)
            } else {
                crate::alu::res_spec(old(self).stat(), bit as int)
            }),
    {
        if bit < 2 {
            self.stat = (self.stat / 4) * 4 + v;
        } else if v == 1 {
            self.stat = crate::alu::set_bit(self.stat, bit);
        } else {
            self.stat = crate::alu::res_bit(self.stat, bit);
        }
    }

    /// Presses (`v` true) or releases a button; a line of the selected row
    /// that falls to 0 requests the joypad interrupt.
    pub fn button(&mut self, b: Button, v: bool)
        requires
            old(self).wf(),
        ensures
            final(self).wf(),
            Self::only_joypad_changed(*old(self), *final(self)),
            final(self).stat() == old(self).stat(),
            final(self).ly() == old(self).ly(),
            final(self).joypad_view().pressed(b) == v,
            forall|o: Button| o != b ==> final(self).joypad_view().pressed(o) == old(self).joypad_view().pressed(o),
            final(self).joypad_view().arrows_selected() == old(self).joypad_view().arrows_selected(),
            final(self).joypad_view().actions_selected() == old(self).joypad_view().actions_selected(),
            final(self).iflag() == (if lines_fell(old(self).joypad_view().value(), final(self).joypad_view().value()) {
                old(self).iflag() | 16
            } else {
                old(self).iflag()
            }),
    {
        let before = self.joypad.read();
        self.joypad.set(b, v);
        let after = self.joypad.read();
        if (before & !after) % 16 != 0 {
            self.iflag = self.iflag | 16;
        }
    }

    pub fn get_action_buttons(&self) -> (r: u8)
        ensures
            r == self.joypad_view().action_row(),
    {
        self.joypad.get_action()
    }

    pub fn get_arrow_buttons(&self) -> (r: u8)
        ensures
            r == self.joypad_view().arrow_row(),
    {
        self.joypad.get_arrow()
    }

    /// One machine cycle of the timer; an overflow of TIMA requests the
    /// timer interrupt (IF bit 2).
    pub fn tick(&mut self)
        requires
            old(self).wf(),
        ensures
            final(self).wf(),
            Self::only_timer_changed(*old(self), *final(self)),
            Self::same_memory(*old(self), *final(self)),
            final(self).stat() == old(self).stat(),
            final(self).ly() == old(self).ly(),
            old(self).timer_view().stepped(
                ((old(self).timer_view().counter() + 4) % 65536) as u16,
                old(self).timer_view().tac(),
                final(self).timer_view(),
            ),
            final(self).iflag() == (if final(self).timer_view().did_overflow() {
                old(self).iflag() | 4
            } else {
                old(self).iflag()
            }),
    {
        let overflowed = self.timer.tick();
        if overflowed {
            self.iflag = self.iflag | 4;
        }
    }
}

/// Addresses that hold plain RAM: video RAM, cartridge RAM, work RAM and
/// high RAM.
pub open spec fn is_ram(addr: u16) -> bool {
    (0x8000 <= addr <= 0xDFFF) || (0xFF80 <= addr <= 0xFFFE)
}

/// LY never leaves 0..=153.
pub proof fn lemma_ly_bound(m: Mem)
    requires
        m.wf(),
    ensures
        m.ly() <= 153,
{
}

/// While a DMA transfer runs, the CPU reads 0xFF outside high RAM and the
/// DMA register, and the stored byte in high RAM.
pub proof fn lemma_dma_blocks(m: Mem, addr: u16)
    requires
        m.transferring(),
        !m.ppu_reading(),
    ensures
        !(0xFF80 <= addr <= 0xFFFE) && addr != 0xFF46 ==> m.read_spec(addr) == 0xFF,
        0xFF80 <= addr <= 0xFFFE ==> m.read_spec(addr) == m.byte(addr as int),
{
}

/// A byte written to RAM reads back, with or without a DMA transfer running
/// when the address is in high RAM, and only without one elsewhere.
pub proof fn lemma_write_read(m0: Mem, m1: Mem, addr: u16, v: u8)
    requires
        m0.wf(),
        is_ram(addr),
        !m0.transferring() || 0xFF80 <= addr,
        Mem::write_effect(m0, m1, addr, v),
    ensures
        m1.read_spec(addr) == v,
        m1.transferring() == m0.transferring(),
        m1.ppu_reading() == m0.ppu_reading(),
        m1.iflag() == m0.iflag(),
        m1.ienable() == m0.ienable(),
        m1.wf(),
{
}

/// A write to RAM leaves what the CPU reads at other RAM addresses as it
/// was.
pub proof fn lemma_write_keeps(m0: Mem, m1: Mem, addr: u16, v: u8, other: u16)
    requires
        m0.wf(),
        is_ram(addr),
        is_ram(other),
        other != addr,
        Mem::write_effect(m0, m1, addr, v),
    ensures
        m1.read_spec(other) == m0.read_spec(other),
        m1.transferring() == m0.transferring(),
        m1.ppu_reading() == m0.ppu_reading(),
{
}

/// A write keeps the bus well formed.
pub proof fn lemma_write_wf(m0: Mem, m1: Mem, addr: u16, v: u8)
    requires
        m0.wf(),
        Mem::write_effect(m0, m1, addr, v),
        is_ram(addr),
    ensures
        m1.wf(),
{
}

/// With the ROM unlocked, a write below 0x8000 stores the byte there and
/// leaves the rest of memory and the lock as they were.
pub proof fn lemma_write_low(m0: Mem, m1: Mem, addr: u16, v: u8)
    requires
        m0.wf(),
        addr < 0x8000,
        !m0.rom_locked(),
        Mem::write_effect(m0, m1, addr, v),
    ensures
        m1.byte(addr as int) == v,
        forall|a: int| 0 <= a < MEM_SIZE && a != addr ==> m1.byte(a) == m0.byte(a),
        !m1.rom_locked(),
{
}

/// Without a DMA transfer, the CPU reads the stored byte in ROM, RAM and
/// high RAM, the mirrored work RAM byte in the echo range, and 0xFF in the
/// prohibited range.
pub proof fn lemma_read_plain(m: Mem, addr: u16)
    requires
        !m.transferring(),
    ensures
        addr < 0xE000 ==> m.read_spec(addr) == m.byte(addr as int),
        0xFF80 <= addr <= 0xFFFE ==> m.read_spec(addr) == m.byte(addr as int),
        0xE000 <= addr <= 0xFDFF ==> m.read_spec(addr) == m.byte(addr - 0x2000),
        0xFEA0 <= addr <= 0xFEFF ==> m.read_spec(addr) == 0xFF,
        0xFE00 <= addr <= 0xFE9F ==> m.read_spec(addr) == m.byte(addr as int),
{
}

/// A write of a page number up to 0xDF to 0xFF46 starts a DMA transfer
/// from its first byte; memory and the escape flag are kept.
pub proof fn lemma_dma_start(m0: Mem, m1: Mem, v: u8)
    requires
        Mem::write_effect(m0, m1, 0xFF46, v),
    ensures
        v <= 0xDF ==> m1.transferring() && m1.transfer_index() == 0,
        v > 0xDF ==> m1.transferring() == m0.transferring(),
        m1.dma_page() == v,
        forall|a: int| 0 <= a < MEM_SIZE ==> m1.byte(a) == m0.byte(a),
        m1.ppu_reading() == m0.ppu_reading(),
        m1.rom_locked() == m0.rom_locked(),
{
}

/// With the ROM locked, a write below 0x8000 changes nothing.
pub proof fn lemma_locked_write(m0: Mem, m1: Mem, addr: u16, v: u8)
    requires
        m0.rom_locked(),
        addr < 0x8000,
        Mem::write_effect(m0, m1, addr, v),
    ensures
        m1 == m0,
{
}

/// Without the ROM lock, a write below 0xE000 or to high RAM stores the byte
/// there; the echo range stores it 0x2000 lower. Nothing else in memory, nor
/// the lock, DMA state, escape flag, IF or IE, changes.
pub proof fn lemma_write_plain(m0: Mem, m1: Mem, addr: u16, v: u8)
    requires
        m0.wf(),
        !m0.rom_locked() || addr >= 0x8000,
        addr < 0xFE00 || (0xFF80 <= addr <= 0xFFFE),
        Mem::write_effect(m0, m1, addr, v),
    ensures
        ({
            let t = if 0xE000 <= addr <= 0xFDFF {
                addr - 0x2000
            } else {
                addr as int
            };
            &&& m1.byte(t) == v
            &&& forall|a: int| 0 <= a < MEM_SIZE && a != t ==> m1.byte(a) == m0.byte(a)
        }),
        m1.rom_locked() == m0.rom_locked(),
        m1.transferring() == m0.transferring(),
        m1.ppu_reading() == m0.ppu_reading(),
        m1.iflag() == m0.iflag(),
        m1.ienable() == m0.ienable(),
        m1.wf(),
{
}

/// Right after a DMA transfer starts (a write of a page up to 0xDF to
/// 0xFF46) while the escape flag is down, the CPU reads 0xFF at 0xC000 and
/// the stored byte in high RAM.
pub proof fn lemma_dma_start_blocks(m0: Mem, m1: Mem, v: u8, addr: u16)
    requires
        v <= 0xDF,
        !m0.ppu_reading(),
        Mem::write_effect(m0, m1, 0xFF46, v),
    ensures
        m1.read_spec(0xC000) == 0xFF,
        0xFF80 <= addr <= 0xFFFE ==> m1.read_spec(addr) == m0.byte(addr as int),
{
    lemma_dma_start(m0, m1, v);
    lemma_dma_blocks(m1, 0xC000);
    lemma_dma_blocks(m1, addr);
}

} // verus!
