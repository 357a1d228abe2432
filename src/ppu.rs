//! The picture processing unit: the mode state machine of each scanline,
//! the OAM search, the tile fetcher with its two pixel FIFOs, and the
//! 160x144 RGBA framebuffer.
use vstd::prelude::*;

use crate::alu::{bit_of, test_bit};
use crate::mem::Mem;

verus! {

pub const WIDTH: u8 = 160;

pub const HEIGHT: u8 = 144;

/// Bytes in the framebuffer: four per pixel.
pub const BUFFER_SIZE: usize = 92160;

/// Dots in one scanline.
pub const LINE_DOTS: u16 = 456;

/// Dots of the OAM search at the start of a visible line.
pub const OAM_DOTS: u16 = 80;

/// Entries a pixel FIFO can hold.
pub const FIFO_SIZE: usize = 16;

/// The RGBA colour of each of the four shades.
pub open spec fn rgba(shade: int, k: int) -> u8 {
    let c: Seq<u8> = if shade == 0 {
        seq![0xF3u8, 0xF0u8, 0xDEu8, 0xFFu8]
    } else if shade == 1 {
        seq![0x63u8, 0x91u8, 0xB0u8, 0xFFu8]
    } else if shade == 2 {
        seq![0x1Eu8, 0x3Au8, 0x83u8, 0xFFu8]
    } else {
        seq![0x3Du8, 0x17u8, 0x52u8, 0xFFu8]
    };
    c[k]
}

pub fn shade_rgba(shade: u8, k: usize) -> (r: u8)
    requires
        k < 4,
    ensures
        r == rgba(shade as int, k as int),
{
    let c: [u8; 4] = if shade == 0 {
        [0xF3, 0xF0, 0xDE, 0xFF]
    } else if shade == 1 {
        [0x63, 0x91, 0xB0, 0xFF]
    } else if shade == 2 {
        [0x1E, 0x3A, 0x83, 0xFF]
    } else {
        [0x3D, 0x17, 0x52, 0xFF]
    };
    c[k]
}

/// The shade that palette `pal` gives colour index `idx` (< 4):
/// `(pal >> (2 * idx)) & 3`.
pub open spec fn palette_shade(pal: u8, idx: u8) -> u8 {
    let d: int = if idx == 0 {
        1
    } else if idx == 1 {
        4
    } else if idx == 2 {
        16
    } else {
        64
    };
    ((pal as int / d) % 4) as u8
}

pub fn apply_palette(pal: u8, idx: u8) -> (r: u8)
    ensures
        r == palette_shade(pal, idx),
        r < 4,
{
    let d: u8 = if idx == 0 {
        1
    } else if idx == 1 {
        4
    } else if idx == 2 {
        16
    } else {
        64
    };
    (pal / d) % 4
}

/// The colour index of pixel `bit` of a tile row: the bit of the high byte
/// then the bit of the low byte.
pub open spec fn color_index(data0: u8, data1: u8, bit: int) -> u8 {
    ((if bit_of(data1 as int, bit) {
        2int
    } else {
        0
    }) + (if bit_of(data0 as int, bit) {
        1int
    } else {
        0
    })) as u8
}

pub fn pixel_index(data0: u8, data1: u8, bit: u8) -> (r: u8)
    requires
        bit < 8,
    ensures
        r == color_index(data0, data1, bit as int),
        r < 4,
{
    let hi: u8 = if test_bit(data1, bit) {
        2
    } else {
        0
    };
    let lo: u8 = if test_bit(data0, bit) {
        1
    } else {
        0
    };
    hi + lo
}

/// A FIFO entry: priority (sprites) at bit 5, colour index at bits 3..2,
/// shade at bits 1..0.
pub open spec fn entry(priority: u8, num: u8, shade: u8) -> u8 {
    (priority * 32 + num * 4 + shade) as u8
}

pub open spec fn entry_num(e: u8) -> u8 {
    (e / 4) % 4
}

pub open spec fn entry_shade(e: u8) -> u8 {
    e % 4
}

pub open spec fn entry_priority(e: u8) -> u8 {
    (e / 32) % 2
}

/// The shade shown for a background entry `bw` and, if there is one, a
/// sprite entry `ob`: the sprite's, unless it is transparent, sprites are
/// off, or it sits behind a background colour other than 0.
pub open spec fn mixed_shade(bw: u8, ob: Option<u8>, obj_enabled: bool) -> u8 {
    match ob {
        Some(o) => if entry_num(o) == 0 || !obj_enabled {
            entry_shade(bw)
        } else if entry_priority(o) == 1 && entry_num(bw) > 0 {
            entry_shade(bw)
        } else {
            entry_shade(o)
        },
        None => entry_shade(bw),
    }
}

pub fn mix_shade(bw: u8, ob: Option<u8>, obj_enabled: bool) -> (r: u8)
    ensures
        r == mixed_shade(bw, ob, obj_enabled),
        r < 4,
{
    match ob {
        Some(o) => if (o / 4) % 4 == 0 || !obj_enabled {
            bw % 4
        } else if (o / 32) % 2 == 1 && (bw / 4) % 4 > 0 {
            bw % 4
        } else {
            o % 4
        },
        None => bw % 4,
    }
}

/// A pixel FIFO of up to 16 entries. The background FIFO gives a pixel only
/// while it holds at least 8; the sprite FIFO whenever it holds one.
pub struct Fifo {
    data: Vec<u8>,
    is_for_sprite: bool,
}

impl Fifo {
    pub closed spec fn view(&self) -> Seq<u8> {
        self.data@
    }

    pub closed spec fn for_sprites(&self) -> bool {
        self.is_for_sprite
    }

    pub open spec fn wf(&self) -> bool {
        self.view().len() <= FIFO_SIZE
    }

    pub open spec fn pop_ready(&self) -> bool {
        if self.for_sprites() {
            self.view().len() > 0
        } else {
            self.view().len() >= 8
        }
    }

    pub fn new(is_for_sprite: bool) -> (r: Self)
        ensures
            r.view() == Seq::<u8>::empty(),
            r.for_sprites() == is_for_sprite,
    {
        Self { data: Vec::new(), is_for_sprite }
    }

    /// Gives the front entry when the FIFO may give one.
    pub fn tick(&mut self) -> (r: Option<u8>)
        ensures
            final(self).for_sprites() == old(self).for_sprites(),
            old(self).pop_ready() ==> r == Some(old(self).view()[0]) && final(self).view() == old(
                self,
            ).view().drop_first(),
            !old(self).pop_ready() ==> r.is_none() && final(self).view() == old(self).view(),
    {
        if self.can_pop() {
            return Some(self.pop());
        }
        None
    }

    pub fn clear(&mut self)
        ensures
            final(self).view() == Seq::<u8>::empty(),
            final(self).for_sprites() == old(self).for_sprites(),
    {
        self.data.clear();
    }

    pub fn can_pop(&self) -> (r: bool)
        ensures
            r == self.pop_ready(),
    {
        if self.is_for_sprite {
            self.data.len() > 0
        } else {
            self.data.len() >= 8
        }
    }

    /// Whether a row of eight pixels fits: fewer than eight entries held.
    pub fn can_push(&self) -> (r: bool)
        ensures
            r == (self.view().len() < 8),
    {
        self.data.len() < 8
    }

    pub fn len(&self) -> (r: usize)
        ensures
            r == self.view().len(),
    {
        self.data.len()
    }

    pub fn push(&mut self, value: u8)
        requires
            old(self).view().len() < FIFO_SIZE,
        ensures
            final(self).view() == old(self).view().push(value),
            final(self).for_sprites() == old(self).for_sprites(),
    {
        self.data.push(value);
    }

    /// Mixes a sprite pixel into slot `i`: it fills a new slot at the end, or
    /// replaces a slot whose colour index is 0 (transparent).
    pub fn mix(&mut self, priority: u8, color_num: u8, color: u8, i: u8)
        requires
            i <= old(self).view().len(),
            i < FIFO_SIZE,
            priority < 2,
            color_num < 4,
            color < 4,
        ensures
            final(self).for_sprites() == old(self).for_sprites(),
            i == old(self).view().len() ==> final(self).view() == old(self).view().push(
                entry(priority, color_num, color),
            ),
            i < old(self).view().len() ==> final(self).view() == (if entry_num(
                old(self).view()[i as int],
            ) == 0 {
                old(self).view().update(i as int, entry(priority, color_num, color))
            } else {
                old(self).view()
            }),
    {
        let e = priority * 32 + color_num * 4 + color;
        if (i as usize) == self.data.len() {
            self.data.push(e);
        } else if (self.data[i as usize] / 4) % 4 == 0 {
            self.data.set(i as usize, e);
        }
    }

    pub fn replace(&mut self, i: u8, value: u8)
        requires
            (i as int) < old(self).view().len(),
        ensures
            final(self).view() == old(self).view().update(i as int, value),
            final(self).for_sprites() == old(self).for_sprites(),
    {
        self.data.set(i as usize, value);
    }

    pub fn peek(&self, i: u8) -> (r: u8)
        requires
            (i as int) < self.view().len(),
        ensures
            r == self.view()[i as int],
    {
        self.data[i as usize]
    }

    pub fn pop(&mut self) -> (r: u8)
        requires
            old(self).view().len() > 0,
        ensures
            r == old(self).view()[0],
            final(self).view() == old(self).view().drop_first(),
            final(self).for_sprites() == old(self).for_sprites(),
    {
        self.data.remove(0)
    }
}

/// Dots from line `ly`, dot `dot` until the dot that enters VBlank
/// (the last dot of line 143), counting that one.
pub open spec fn dots_to_frame(ly: u8, dot: u16) -> int {
    if ly <= 143 {
        (143 - ly) * 456 + (456 - dot)
    } else {
        (153 - ly) * 456 + (456 - dot) + 144 * 456
    }
}

/// The framebuffer `b` with pixel (`x`, `y`) set to the RGBA colour of
/// `shade`.
pub open spec fn pixel_written(b: Seq<u8>, x: u8, y: u8, shade: u8) -> Seq<u8> {
    let p = (x + y * 160) * 4;
    b.update(p, rgba(shade as int, 0)).update(p + 1, rgba(shade as int, 1)).update(
        p + 2,
        rgba(shade as int, 2),
    ).update(p + 3, rgba(shade as int, 3))
}

/// Whether a sprite at OAM row `y` covers line `ly`: `y <= ly + 16 <
/// y + height`.
pub open spec fn sprite_on_line(y: u8, ly: u8, height: int) -> bool {
    y <= ly + 16 < y + height
}

/// A sprite pixel `e` mixed into slot `i` of the sprite FIFO `q`: it fills
/// a new slot at the end, or replaces a transparent one.
pub open spec fn mix_into(q: Seq<u8>, i: int, e: u8) -> Seq<u8> {
    if i == q.len() {
        q.push(e)
    } else if entry_num(q[i]) == 0 {
        q.update(i, e)
    } else {
        q
    }
}

/// The sprite FIFO `q` after the pixels `j..8` of a sprite row were mixed
/// in, pixel `j` going to slot `j - skip` (when that slot exists or is the
/// next one). Bits come from the left (bit 7) unless the row is flipped.
pub open spec fn row_mixed(
    q: Seq<u8>,
    j: int,
    skip: int,
    d0: u8,
    d1: u8,
    pal: u8,
    pri: u8,
    xflip: bool,
) -> Seq<u8>
    decreases 8 - j,
{
    if j >= 8 {
        q
    } else {
        let bit = if xflip {
            j
        } else {
            7 - j
        };
        let idx = color_index(d0, d1, bit);
        let e = entry(pri, idx, palette_shade(pal, idx));
        let q2 = if j - skip <= q.len() {
            mix_into(q, j - skip, e)
        } else {
            q
        };
        row_mixed(q2, j + 1, skip, d0, d1, pal, pri, xflip)
    }
}

/// The sprite FIFO `q` after the sprite at OAM address `oa` is mixed in at
/// pixel `x`: only when it is an OAM entry, its X is in 1..=167, its rows
/// cover LY at the height of LCDC bit 2, and its left edge is at `x` (or
/// left of the screen, at pixel 0). The row is read from the tile at
/// 0x8000 + tile * 16 (even tile for tall sprites), flipped vertically by
/// attribute bit 6, horizontally by bit 5, shaded by OBP1 (bit 4) or OBP0,
/// behind the background when bit 7 is set.
pub open spec fn sprite_mixed(q: Seq<u8>, mem: Mem, oa: u16, x: u8) -> Seq<u8> {
    let tall = mem.lcdc_bit(2);
    let height: int = if tall {
        16
    } else {
        8
    };
    let ly = mem.ly() as int;
    if oa < 0xFE00 || oa > 0xFE9C {
        q
    } else {
        let o_y = mem.video(oa) as int;
        let o_x = mem.video((oa + 1) as u16);
        let o_a = mem.video((oa + 3) as u16);
        let starts = if o_x < 8 {
            x == 0
        } else {
            o_x - 8 == x
        };
        if o_x == 0 || o_x >= 168 || ly + 16 < o_y || ly + 16 >= o_y + height || !starts {
            q
        } else {
            let skip: int = if o_x < 8 {
                8 - o_x
            } else {
                0
            };
            let row = ly + 16 - o_y;
            let line = if bit_of(o_a as int, 6) {
                height - 1 - row
            } else {
                row
            };
            let raw = mem.video((oa + 2) as u16) as int;
            let tile = if tall {
                raw - raw % 2
            } else {
                raw
            };
            let addr = 0x8000 + tile * 16 + line * 2;
            let pal = if bit_of(o_a as int, 4) {
                mem.video(0xFF49)
            } else {
                mem.video(0xFF48)
            };
            let pri: u8 = if bit_of(o_a as int, 7) {
                1
            } else {
                0
            };
            row_mixed(
                q,
                skip,
                skip,
                mem.video(addr as u16),
                mem.video((addr + 1) as u16),
                pal,
                pri,
                bit_of(o_a as int, 5),
            )
        }
    }
}

/// The sprite FIFO `q` after the sprites `oams[s..]` are mixed in, in order.
pub open spec fn sprites_mixed(q: Seq<u8>, mem: Mem, oams: Seq<u16>, s: int, x: u8) -> Seq<u8>
    decreases oams.len() - s,
{
    if s < 0 || s >= oams.len() {
        q
    } else {
        sprites_mixed(sprite_mixed(q, mem, oams[s], x), mem, oams, s + 1, x)
    }
}

/// The four modes of a scanline; the number is what STAT bits 1..0 show.
#[derive(Clone, Copy, PartialEq, Eq, Structural, Debug)]
pub enum PPUMode {
    OAMSearch,
    PixelTransfer,
    HBlank,
    VBlank,
}

pub open spec fn mode_number(m: PPUMode) -> u8 {
    match m {
        PPUMode::HBlank => 0,
        PPUMode::VBlank => 1,
        PPUMode::OAMSearch => 2,
        PPUMode::PixelTransfer => 3,
    }
}

pub fn mode_value(m: PPUMode) -> (r: u8)
    ensures
        r == mode_number(m),
{
    match m {
        PPUMode::HBlank => 0,
        PPUMode::VBlank => 1,
        PPUMode::OAMSearch => 2,
        PPUMode::PixelTransfer => 3,
    }
}

/// The fetcher's four steps, two dots each.
#[derive(Clone, Copy, PartialEq, Eq, Structural, Debug)]
pub enum FetcherMode {
    ReadTile,
    Data0,
    Data1,
    Idle,
}

/// Whether the fetcher reads the background or the window.
#[derive(Clone, Copy, PartialEq, Eq, Structural, Debug)]
pub enum BgWin {
    Background,
    Window,
}

/// The start of a tile map: 0x9C00 when the LCDC bit is set, else 0x9800.
pub open spec fn map_base(bit: bool) -> int {
    if bit {
        0x9C00
    } else {
        0x9800
    }
}

/// The address of the row `line % 8` of tile `tile`: from 0x8000 with an
/// unsigned tile number when LCDC bit 4 is set, else from 0x9000 with a
/// signed one.
pub open spec fn tile_row_addr(unsigned_tiles: bool, tile: u8, line: int) -> int {
    let base = if unsigned_tiles {
        0x8000 + tile * 16
    } else {
        0x9000 + crate::alu::signed8(tile) * 16
    };
    base + (line % 8) * 2
}

pub struct Fetcher {
    mode: FetcherMode,
    data0: u8,
    data1: u8,
    tile_num: u8,
    curr_tile: u16,
    bg_win_on: bool,
    bg: BgWin,
    window_line: u16,
}

impl Fetcher {
    pub closed spec fn wf(&self) -> bool {
        &&& self.curr_tile < 32
    }

    pub closed spec fn step(&self) -> FetcherMode {
        self.mode
    }

    pub closed spec fn layer(&self) -> BgWin {
        self.bg
    }

    pub closed spec fn tile_x(&self) -> u16 {
        self.curr_tile
    }

    pub closed spec fn tile(&self) -> u8 {
        self.tile_num
    }

    pub closed spec fn low(&self) -> u8 {
        self.data0
    }

    pub closed spec fn high(&self) -> u8 {
        self.data1
    }

    /// Whether the background and window show (LCDC bit 0, read at
    /// ReadTile).
    pub closed spec fn background_on(&self) -> bool {
        self.bg_win_on
    }

    pub closed spec fn win_line(&self) -> u16 {
        self.window_line
    }

    /// The line of the layer being fetched: LY + SCY for the background,
    /// the window's own line counter for the window.
    pub open spec fn line(&self, mem: &Mem) -> int {
        if self.layer() == BgWin::Background {
            (mem.ly() + mem.video(0xFF42)) % 256
        } else {
            self.win_line() as int % 256
        }
    }

    /// The tile map entry that ReadTile reads.
    pub open spec fn map_addr(&self, mem: &Mem) -> int {
        let bit = if self.layer() == BgWin::Background {
            mem.lcdc_bit(3)
        } else {
            mem.lcdc_bit(6)
        };
        map_base(bit) + (self.line(mem) / 8) * 32 + self.tile_x() as int
    }

    /// The fetcher and background FIFO after the window check at pixel
    /// `x`: when the window is enabled (LCDC bit 5), WY <= LY, WX <= 166 and
    /// `x` reaches WX - 7, the FIFO is flushed and the fetcher restarts at
    /// tile column 0 of the window's next line.
    pub closed spec fn after_window(f: Fetcher, q: Seq<u8>, mem: Mem, x: u8) -> (Fetcher, Seq<u8>) {
        let wx = mem.video(0xFF4B);
        let wy = mem.video(0xFF4A);
        let reached = if wx < 7 {
            x == 0
        } else {
            x + 7 == wx
        };
        if f.bg == BgWin::Background && mem.lcdc_bit(5) && wy <= mem.ly() && wx <= 166 && reached {
            (
                Fetcher {
                    mode: FetcherMode::ReadTile,
                    curr_tile: 0,
                    window_line: ((f.window_line + 1) % 65536) as u16,
                    bg: BgWin::Window,
                    ..f
                },
                Seq::<u8>::empty(),
            )
        } else {
            (f, q)
        }
    }

    /// ReadTile: the tile number from the map, and whether LCDC bit 0
    /// shows the background.
    pub closed spec fn read_tile_spec(f: Fetcher, mem: Mem) -> Fetcher {
        Fetcher {
            bg_win_on: mem.lcdc_bit(0),
            tile_num: mem.video(f.map_addr(&mem) as u16),
            mode: FetcherMode::Data0,
            ..f
        }
    }

    /// Data0: the low byte of the tile's row.
    pub closed spec fn data0_spec(f: Fetcher, mem: Mem) -> Fetcher {
        Fetcher {
            data0: mem.video(tile_row_addr(mem.lcdc_bit(4), f.tile_num, f.line(&mem)) as u16),
            mode: FetcherMode::Data1,
            ..f
        }
    }

    /// Data1: the high byte of the tile's row.
    pub closed spec fn data1_spec(f: Fetcher, mem: Mem) -> Fetcher {
        Fetcher {
            data1: mem.video((tile_row_addr(mem.lcdc_bit(4), f.tile_num, f.line(&mem)) + 1) as u16),
            mode: FetcherMode::Idle,
            ..f
        }
    }

    /// The eight background entries of the fetched row, leftmost first: the
    /// colour index and its BGP shade, or 0 while the background is off.
    pub closed spec fn row_entries(f: Fetcher, mem: Mem) -> Seq<u8> {
        Seq::new(
            8,
            |k: int|
                if f.bg_win_on {
                    let idx = color_index(f.data0, f.data1, 7 - k);
                    entry(0, idx, palette_shade(mem.video(0xFF47), idx))
                } else {
                    0
                },
        )
    }

    /// Idle: when the FIFO holds fewer than 8 entries, the row goes in and
    /// the fetcher moves to the next tile column.
    pub closed spec fn idle_spec(f: Fetcher, q: Seq<u8>, mem: Mem) -> (Fetcher, Seq<u8>) {
        if q.len() < 8 {
            (
                Fetcher {
                    curr_tile: ((f.curr_tile + 1) % 32) as u16,
                    mode: FetcherMode::ReadTile,
                    ..f
                },
                q + Self::row_entries(f, mem),
            )
        } else {
            (f, q)
        }
    }

    /// One fetcher dot: the window check, then on odd dots the current step.
    pub closed spec fn after_tick(f: Fetcher, q: Seq<u8>, mem: Mem, cycle: u16, x: u8) -> (
        Fetcher,
        Seq<u8>,
    ) {
        let (f1, q1) = Self::after_window(f, q, mem, x);
        if cycle % 2 == 0 {
            (f1, q1)
        } else {
            match f1.mode {
                FetcherMode::ReadTile => (Self::read_tile_spec(f1, mem), q1),
                FetcherMode::Data0 => (Self::data0_spec(f1, mem), q1),
                FetcherMode::Data1 => (Self::data1_spec(f1, mem), q1),
                FetcherMode::Idle => Self::idle_spec(f1, q1, mem),
            }
        }
    }

    pub fn new() -> (r: Self)
        ensures
            r.wf(),
            r.step() == FetcherMode::ReadTile,
            r.layer() == BgWin::Background,
            r.win_line() == 0xFFFF,
    {
        Self {
            mode: FetcherMode::ReadTile,
            data0: 0,
            data1: 0,
            tile_num: 0,
            curr_tile: 0,
            bg_win_on: true,
            bg: BgWin::Background,
            window_line: 0xFFFF,
        }
    }

    /// Starts a line: the first tile column is SCX / 8, on the background.
    pub fn reset(&mut self, mem: &Mem)
        requires
            mem.wf(),
        ensures
            final(self).wf(),
            final(self).step() == FetcherMode::ReadTile,
            final(self).layer() == BgWin::Background,
            final(self).tile_x() == mem.video(0xFF43) / 8,
            final(self).win_line() == old(self).win_line(),
    {
        self.mode = FetcherMode::ReadTile;
        self.data0 = 0;
        self.data1 = 0;
        self.tile_num = 0;
        let scx = mem.ppu_get(0xFF43);
        self.curr_tile = (scx / 8) as u16;
        self.bg_win_on = true;
        self.bg = BgWin::Background;
    }

    /// Resets the window's line counter, at the end of VBlank.
    pub fn reset_win(&mut self)
        requires
            old(self).wf(),
        ensures
            final(self).wf(),
            final(self).win_line() == 0xFFFF,
            final(self).layer() == old(self).layer(),
    {
        self.window_line = 0xFFFF;
    }

    fn lcdc_bit(mem: &Mem, b: u8) -> (r: bool)
        requires
            mem.wf(),
            b < 8,
        ensures
            r == mem.lcdc_bit(b as int),
    {
        test_bit(mem.ppu_get(0xFF40), b)
    }

    /// Switches to the window when it is enabled (LCDC bit 5), WY <= LY and
    /// the pixel `x` reaches WX - 7: the background FIFO is flushed and the
    /// fetcher restarts on the window's next line.
    pub fn win_or_back(&mut self, mem: &Mem, x: u8, fifo: &mut Fifo)
        requires
            old(self).wf(),
            mem.wf(),
        ensures
            (*final(self), final(fifo).view()) == Self::after_window(*old(self), old(fifo).view(), *mem, x),
            final(self).wf(),
            final(fifo).for_sprites() == old(fifo).for_sprites(),
            ({
                let wx = mem.video(0xFF4B);
                let wy = mem.video(0xFF4A);
                let reached = if wx < 7 {
                    x == 0
                } else {
                    x + 7 == wx
                };
                if old(self).layer() == BgWin::Background && mem.lcdc_bit(5) && wy <= mem.ly()
                    && wx <= 166 && reached {
                    &&& final(fifo).view() == Seq::<u8>::empty()
                    &&& final(self).layer() == BgWin::Window
                    &&& final(self).step() == FetcherMode::ReadTile
                    &&& final(self).tile_x() == 0
                    &&& final(self).win_line() == (old(self).win_line() + 1) % 65536
                } else {
                    *final(self) == *old(self) && final(fifo).view() == old(fifo).view()
                }
            }),
    {
        if self.bg == BgWin::Window {
            return ;
        }
        let wx = mem.ppu_get(0xFF4B);
        let wy = mem.ppu_get(0xFF4A);
        let ly = mem.get_ly();
        let on = Self::lcdc_bit(mem, 5);
        let reached = if wx < 7 {
            x == 0
        } else {
            x as u16 + 7 == wx as u16
        };
        if on && wy <= ly && wx <= 166 && reached {
            fifo.clear();
            self.mode = FetcherMode::ReadTile;
            self.curr_tile = 0;
            self.window_line = crate::ops::wrapping_inc(self.window_line);
            self.bg = BgWin::Window;
        }
    }

    /// ReadTile: reads the tile number from the map.
    pub fn read_tile(&mut self, mem: &Mem)
        requires
            old(self).wf(),
            mem.wf(),
        ensures
            *final(self) == Self::read_tile_spec(*old(self), *mem),
            final(self).wf(),
            final(self).tile() == mem.video(old(self).map_addr(mem) as u16),
            final(self).background_on() == mem.lcdc_bit(0),
            final(self).step() == FetcherMode::Data0,
            final(self).tile_x() == old(self).tile_x(),
            final(self).layer() == old(self).layer(),
            final(self).win_line() == old(self).win_line(),
    {
        self.bg_win_on = Self::lcdc_bit(mem, 0);
        let bit = if self.bg == BgWin::Background {
            Self::lcdc_bit(mem, 3)
        } else {
            Self::lcdc_bit(mem, 6)
        };
        let line = self.line_of(mem);
        let base: u16 = if bit {
            0x9C00
        } else {
            0x9800
        };
        let addr = base + (line / 8) * 32 + self.curr_tile;
        self.tile_num = mem.ppu_get(addr);
        self.mode = FetcherMode::Data0;
    }

    fn line_of(&self, mem: &Mem) -> (r: u16)
        requires
            mem.wf(),
        ensures
            r == self.line(mem),
            r < 256,
    {
        if self.bg == BgWin::Background {
            let scy = mem.ppu_get(0xFF42);
            let ly = mem.get_ly();
            (ly as u16 + scy as u16) % 256
        } else {
            self.window_line % 256
        }
    }

    fn row_addr(&self, mem: &Mem) -> (r: u16)
        requires
            mem.wf(),
        ensures
            r == tile_row_addr(mem.lcdc_bit(4), self.tile(), self.line(mem)),
    {
        let line = self.line_of(mem);
        let t = self.tile_num as u16;
        let base: u16 = if Self::lcdc_bit(mem, 4) {
            0x8000 + t * 16
        } else if t < 128 {
            0x9000 + t * 16
        } else {
            0x9000 - (256 - t) * 16
        };
        base + (line % 8) * 2
    }

    /// Data0: reads the low byte of the tile's row.
    pub fn get_data0(&mut self, mem: &Mem)
        requires
            old(self).wf(),
            mem.wf(),
        ensures
            *final(self) == Self::data0_spec(*old(self), *mem),
            final(self).wf(),
            final(self).low() == mem.video(
                tile_row_addr(mem.lcdc_bit(4), old(self).tile(), old(self).line(mem)) as u16,
            ),
            final(self).step() == FetcherMode::Data1,
            final(self).tile() == old(self).tile(),
            final(self).tile_x() == old(self).tile_x(),
            final(self).layer() == old(self).layer(),
            final(self).win_line() == old(self).win_line(),
    {
        let addr = self.row_addr(mem);
        self.data0 = mem.ppu_get(addr);
        self.mode = FetcherMode::Data1;
    }

    /// Data1: reads the high byte of the tile's row.
    pub fn get_data1(&mut self, mem: &Mem)
        requires
            old(self).wf(),
            mem.wf(),
        ensures
            *final(self) == Self::data1_spec(*old(self), *mem),
            final(self).wf(),
            final(self).high() == mem.video(
                (tile_row_addr(mem.lcdc_bit(4), old(self).tile(), old(self).line(mem)) + 1) as u16,
            ),
            final(self).step() == FetcherMode::Idle,
            final(self).low() == old(self).low(),
            final(self).tile_x() == old(self).tile_x(),
            final(self).layer() == old(self).layer(),
            final(self).win_line() == old(self).win_line(),
    {
        let addr = self.row_addr(mem);
        self.data1 = mem.ppu_get(addr + 1);
        self.mode = FetcherMode::Idle;
    }

    /// Idle: when the FIFO has room, pushes the row's eight pixels, the
    /// leftmost (bit 7) first, each as colour index and BGP shade; all 0
    /// while the background is off (LCDC bit 0). The tile column advances.
    pub fn idle(&mut self, bw_fifo: &mut Fifo, mem: &Mem)
        requires
            old(self).wf(),
            mem.wf(),
            old(bw_fifo).wf(),
        ensures
            (*final(self), final(bw_fifo).view()) == Self::idle_spec(*old(self), old(bw_fifo).view(), *mem),
            final(self).wf(),
            final(bw_fifo).wf(),
            final(bw_fifo).for_sprites() == old(bw_fifo).for_sprites(),
            final(self).layer() == old(self).layer(),
            final(self).win_line() == old(self).win_line(),
            old(bw_fifo).view().len() < 8 ==> ({
                &&& final(bw_fifo).view().len() == old(bw_fifo).view().len() + 8
                &&& forall|k: int|
                    0 <= k < old(bw_fifo).view().len() ==> final(bw_fifo).view()[k] == old(
                        bw_fifo,
                    ).view()[k]
                &&& forall|k: int|
                    0 <= k < 8 ==> #[trigger] final(bw_fifo).view()[old(bw_fifo).view().len() + k]
                        == (if old(self).background_on() {
                        let idx = color_index(old(self).low(), old(self).high(), 7 - k);
                        entry(0, idx, palette_shade(mem.video(0xFF47), idx))
                    } else {
                        0
                    })
                &&& final(self).tile_x() == (old(self).tile_x() + 1) % 32
                &&& final(self).step() == FetcherMode::ReadTile
            }),
            old(bw_fifo).view().len() >= 8 ==> final(bw_fifo).view() == old(bw_fifo).view()
                && final(self).tile_x() == old(self).tile_x(),
    {
        if bw_fifo.can_push() {
            let ghost start = bw_fifo.view();
            let palette = mem.ppu_get(0xFF47);
            let mut k: u8 = 0;
            while k < 8
                invariant
                    k <= 8,
                    start.len() < 8,
                    bw_fifo.view().len() == start.len() + k,
                    bw_fifo.for_sprites() == old(bw_fifo).for_sprites(),
                    palette == mem.video(0xFF47),
                    forall|j: int| 0 <= j < start.len() ==> bw_fifo.view()[j] == start[j],
                    forall|j: int|
                        0 <= j < k ==> #[trigger] bw_fifo.view()[start.len() + j] == (
                        if self.bg_win_on {
                            let idx = color_index(self.data0, self.data1, 7 - j);
                            entry(0, idx, palette_shade(palette, idx))
                        } else {
                            0
                        }),
                decreases 8 - k,
            {
                let e: u8 = if self.bg_win_on {
                    let idx = pixel_index(self.data0, self.data1, 7 - k);
                    let shade = apply_palette(palette, idx);
                    idx * 4 + shade
                } else {
                    0
                };
                bw_fifo.push(e);
                k = k + 1;
            }
            proof {
                let row = Self::row_entries(*old(self), *mem);
                assert forall|i: int| 0 <= i < start.len() + 8 implies bw_fifo.view()[i] == (start
                    + row)[i] by {
                    if i >= start.len() {
                        let j = i - start.len();
                        assert(bw_fifo.view()[start.len() + j] == row[j]);
                    }
                }
                assert(bw_fifo.view() =~= start + row);
            }
            self.curr_tile = (self.curr_tile + 1) % 32;
            self.mode = FetcherMode::ReadTile;
        }
    }

    /// One fetcher step: first the window check at pixel `x`, then, on the
    /// second dot of each pair (`current_cycle` odd), the current step.
    pub fn tick(&mut self, mem: &Mem, current_cycle: u16, bw_fifo: &mut Fifo, x: u8)
        requires
            old(self).wf(),
            mem.wf(),
            old(bw_fifo).wf(),
        ensures
            (*final(self), final(bw_fifo).view()) == Self::after_tick(
                *old(self),
                old(bw_fifo).view(),
                *mem,
                current_cycle,
                x,
            ),
            final(self).wf(),
            final(bw_fifo).wf(),
            final(bw_fifo).for_sprites() == old(bw_fifo).for_sprites(),
    {
        self.win_or_back(mem, x, bw_fifo);
        if current_cycle % 2 == 0 {
            return ;
        }
        match self.mode {
            FetcherMode::ReadTile => self.read_tile(mem),
            FetcherMode::Data0 => self.get_data0(mem),
            FetcherMode::Data1 => self.get_data1(mem),
            FetcherMode::Idle => self.idle(bw_fifo, mem),
        }
    }

    /// Mixes into the sprite FIFO the row of each visible sprite whose left
    /// edge is at pixel `current_x` (or left of the screen, at pixel 0).
    /// Each sprite pixel goes to the FIFO slot of its screen column.
    pub fn check_oam(&mut self, current_x: u8, oams: &Vec<u16>, ob_fifo: &mut Fifo, mem: &Mem)
        requires
            mem.wf(),
            old(ob_fifo).wf(),
            oams@.len() <= 10,
        ensures
            final(ob_fifo).wf(),
            final(ob_fifo).for_sprites() == old(ob_fifo).for_sprites(),
            *final(self) == *old(self),
            final(ob_fifo).view().len() >= old(ob_fifo).view().len(),
            forall|k: int|
                0 <= k < old(ob_fifo).view().len() && entry_num(old(ob_fifo).view()[k]) != 0
                    ==> final(ob_fifo).view()[k] == old(ob_fifo).view()[k],
            final(ob_fifo).view() == sprites_mixed(old(ob_fifo).view(), *mem, oams@, 0, current_x),
    {
        let tall = Self::lcdc_bit(mem, 2);
        let height: u16 = if tall {
            16
        } else {
            8
        };
        let ly = mem.get_ly() as u16;
        let mut s: usize = 0;
        while s < oams.len()
            invariant
                ob_fifo.wf(),
                ob_fifo.for_sprites() == old(ob_fifo).for_sprites(),
                mem.wf(),
                ly <= 153,
                height == 8 || height == 16,
                ob_fifo.view().len() >= old(ob_fifo).view().len(),
                forall|k: int|
                    0 <= k < old(ob_fifo).view().len() && entry_num(old(ob_fifo).view()[k]) != 0
                        ==> ob_fifo.view()[k] == old(ob_fifo).view()[k],
                0 <= s <= oams@.len(),
                tall == mem.lcdc_bit(2),
                height == (if tall {
                    16int
                } else {
                    8
                }),
                ly == mem.ly(),
                sprites_mixed(ob_fifo.view(), *mem, oams@, s as int, current_x) == sprites_mixed(
                    old(ob_fifo).view(),
                    *mem,
                    oams@,
                    0,
                    current_x,
                ),
            decreases oams.len() - s,
        {
            let oa = oams[s];
            let ghost vstart = ob_fifo.view();
            assert(sprites_mixed(vstart, *mem, oams@, s as int, current_x) == sprites_mixed(
                sprite_mixed(vstart, *mem, oa, current_x),
                *mem,
                oams@,
                s + 1,
                current_x,
            ));
            s = s + 1;
            if oa < 0xFE00 || oa > 0xFE9C {
                continue;
            }
            let o_y = mem.ppu_get(oa) as u16;
            let o_x = mem.ppu_get(oa + 1);
            let o_a = mem.ppu_get(oa + 3);
            if o_x == 0 || o_x >= 168 || ly + 16 < o_y || ly + 16 >= o_y + height {
                continue;
            }
            let starts = if o_x < 8 {
                current_x == 0
            } else {
                o_x - 8 == current_x
            };
            if !starts {
                continue;
            }
            let skip: u8 = if o_x < 8 {
                8 - o_x
            } else {
                0
            };
            let x_flip = test_bit(o_a, 5);
            let y_flip = test_bit(o_a, 6);
            let row = ly + 16 - o_y;
            let line = if y_flip {
                height - 1 - row
            } else {
                row
            };
            let raw_tile = mem.ppu_get(oa + 2) as u16;
            let tile = if tall {
                raw_tile - raw_tile % 2
            } else {
                raw_tile
            };
            let addr = 0x8000 + tile * 16 + line * 2;
            let data0 = mem.ppu_get(addr);
            let data1 = mem.ppu_get(addr + 1);
            let palette = if test_bit(o_a, 4) {
                mem.ppu_get(0xFF49)
            } else {
                mem.ppu_get(0xFF48)
            };
            let priority: u8 = if test_bit(o_a, 7) {
                1
            } else {
                0
            };
            let mut j: u8 = skip;
            while j < 8
                invariant
                    skip <= j <= 8,
                    skip < 8,
                    priority < 2,
                    ob_fifo.wf(),
                    ob_fifo.for_sprites() == old(ob_fifo).for_sprites(),
                    ob_fifo.view().len() >= old(ob_fifo).view().len(),
                    forall|k: int|
                        0 <= k < old(ob_fifo).view().len() && entry_num(old(ob_fifo).view()[k])
                            != 0 ==> ob_fifo.view()[k] == old(ob_fifo).view()[k],
                    row_mixed(
                        ob_fifo.view(),
                        j as int,
                        skip as int,
                        data0,
                        data1,
                        palette,
                        priority,
                        x_flip,
                    ) == sprite_mixed(vstart, *mem, oa, current_x),
                decreases 8 - j,
            {
                let bit = if x_flip {
                    j
                } else {
                    7 - j
                };
                let idx = pixel_index(data0, data1, bit);
                let shade = apply_palette(palette, idx);
                let slot = j - skip;
                if (slot as usize) <= ob_fifo.len() {
                    ob_fifo.mix(priority, idx, shade, slot);
                }
                j = j + 1;
            }
        }
    }
}

pub struct Ppu {
    mode: PPUMode,
    cycles: u16,
    visible_sprites: Vec<u16>,
    fetcher: Fetcher,
    bw_fifo: Fifo,
    ob_fifo: Fifo,
    display_buffer: Vec<u8>,
    x: u8,
    /// Raised when a frame is complete (VBlank entered).
    pub ready: bool,
}

impl Ppu {
    pub closed spec fn mode(&self) -> PPUMode {
        self.mode
    }

    pub closed spec fn frame_ready(&self) -> bool {
        self.ready
    }

    /// The dot within the current line, 0..=455.
    pub closed spec fn dot(&self) -> u16 {
        self.cycles
    }

    pub closed spec fn x_pos(&self) -> u8 {
        self.x
    }

    pub closed spec fn buffer(&self) -> Seq<u8> {
        self.display_buffer@
    }

    pub closed spec fn sprites(&self) -> Seq<u16> {
        self.visible_sprites@
    }

    /// The picture unit agrees with the bus: STAT shows its mode, and LY is
    /// a visible line exactly outside VBlank.
    pub closed spec fn inv(&self, mem: Mem) -> bool {
        &&& mem.wf()
        &&& self.display_buffer@.len() == BUFFER_SIZE
        &&& self.cycles < LINE_DOTS
        &&& self.visible_sprites@.len() <= 10
        &&& self.fetcher.wf()
        &&& self.bw_fifo.wf()
        &&& self.ob_fifo.wf()
        &&& !self.bw_fifo.for_sprites()
        &&& self.ob_fifo.for_sprites()
        &&& self.x < WIDTH
        &&& mem.stat() % 4 == mode_number(self.mode)
        &&& (self.mode == PPUMode::VBlank <==> mem.ly() >= 144)
        &&& (self.mode == PPUMode::OAMSearch ==> self.cycles < OAM_DOTS)
    }

    /// The mode shown in STAT bits 1..0.
    pub open spec fn mode_bits(&self) -> u8 {
        mode_number(self.mode())
    }

    pub fn new() -> (r: Self)
        ensures
            r.mode() == PPUMode::OAMSearch,
            r.dot() == 0,
            r.buffer().len() == BUFFER_SIZE,
            forall|i: int| 0 <= i < BUFFER_SIZE ==> r.buffer()[i] == 0,
            !r.frame_ready(),
    {
        Self {
            mode: PPUMode::OAMSearch,
            cycles: 0,
            visible_sprites: Vec::new(),
            fetcher: Fetcher::new(),
            bw_fifo: Fifo::new(false),
            ob_fifo: Fifo::new(true),
            display_buffer: vec![0u8; BUFFER_SIZE],
            x: 0,
            ready: false,
        }
    }

    /// A fresh picture unit, and the bus brought into agreement with it:
    /// line 0 in OAM search.
    pub fn new_on(mem: &mut Mem) -> (r: Self)
        requires
            old(mem).wf(),
        ensures
            r.inv(*final(mem)),
            final(mem).wf(),
            r.mode() == PPUMode::OAMSearch,
            final(mem).ly() == 0,
            Mem::same_memory(*old(mem), *final(mem)),
            !r.frame_ready(),
    {
        mem.set_ly(0);
        mem.set_lcd_stat(0, 2);
        Self {
            mode: PPUMode::OAMSearch,
            cycles: 0,
            visible_sprites: Vec::new(),
            fetcher: Fetcher::new(),
            bw_fifo: Fifo::new(false),
            ob_fifo: Fifo::new(true),
            display_buffer: vec![0u8; BUFFER_SIZE],
            x: 0,
            ready: false,
        }
    }

    /// Whether a frame was completed since the flag was last cleared.
    pub fn is_ready(&self) -> (r: bool)
        ensures
            r == self.frame_ready(),
    {
        self.ready
    }

    pub fn clear_ready(&mut self)
        ensures
            !final(self).frame_ready(),
            forall|m: Mem| old(self).inv(m) ==> final(self).inv(m),
            final(self).buffer() == old(self).buffer(),
            final(self).mode() == old(self).mode(),
    {
        self.ready = false;
    }

    /// The 160x144 RGBA framebuffer, row by row.
    pub fn get_buffer(&self) -> (r: &Vec<u8>)
        ensures
            r@ == self.buffer(),
    {
        &self.display_buffer
    }

    /// Copies the framebuffer into `frame`, which holds at least as many bytes.
    pub fn draw(&self, frame: &mut Vec<u8>)
        requires
            old(frame)@.len() >= self.buffer().len(),
        ensures
            final(frame)@.len() == old(frame)@.len(),
            forall|i: int| 0 <= i < self.buffer().len() ==> final(frame)@[i] == self.buffer()[i],
    {
        let mut i: usize = 0;
        while i < self.display_buffer.len()
            invariant
                frame@.len() == old(frame)@.len(),
                frame@.len() >= self.display_buffer@.len(),
                forall|j: int| 0 <= j < i ==> frame@[j] == self.display_buffer@[j],
            decreases self.display_buffer.len() - i,
        {
            frame.set(i, self.display_buffer[i]);
            i = i + 1;
        }
    }

    fn set_mode(&mut self, mem: &mut Mem, mode: PPUMode)
        requires
            old(mem).wf(),
        ensures
            final(self).mode() == mode,
            *final(self) == (Ppu { mode, ..*old(self) }),
            final(mem).wf(),
            final(mem).stat() % 4 == mode_number(mode),
            final(mem).ly() == old(mem).ly(),
            final(mem).iflag() == old(mem).iflag(),
            final(mem).ienable() == old(mem).ienable(),
            Mem::same_memory(*old(mem), *final(mem)),
    {
        self.mode = mode;
        mem.set_lcd_stat(0, mode_value(mode));
    }

    fn prep_oam_search(&mut self, mem: &mut Mem)
        requires
            old(mem).wf(),
            old(mem).ly() < 144,
            old(self).display_buffer@.len() == BUFFER_SIZE,
            old(self).fetcher.wf(),
            old(self).bw_fifo.wf() && !old(self).bw_fifo.for_sprites(),
            old(self).ob_fifo.wf() && old(self).ob_fifo.for_sprites(),
            old(self).x < WIDTH,
        ensures
            Mem::same_memory(*old(mem), *final(mem)),
            final(self).inv(*final(mem)),
            final(self).mode() == PPUMode::OAMSearch,
            final(self).dot() == 0,
            final(mem).ly() == old(mem).ly(),
            final(self).frame_ready() == old(self).frame_ready(),
            final(self).buffer() == old(self).buffer(),
    {
        self.cycles = 0;
        self.visible_sprites = Vec::new();
        self.set_mode(mem, PPUMode::OAMSearch);
    }

    /// One dot of OAM search: on each even dot one of the 40 entries is
    /// checked; it is kept, up to ten, when its rows cover LY.
    fn oam_search(&mut self, mem: &Mem)
        requires
            old(self).inv(*mem),
            old(self).mode() == PPUMode::OAMSearch,
        ensures
            final(self).inv(*mem),
            final(self).mode() == PPUMode::OAMSearch,
            final(self).dot() == old(self).dot(),
            final(self).frame_ready() == old(self).frame_ready(),
            final(self).buffer() == old(self).buffer(),
            ({
                let d = old(self).dot();
                let addr = (0xFE00 + (d / 2) * 4) as u16;
                let height = if mem.lcdc_bit(2) {
                    16
                } else {
                    8
                };
                if d % 2 == 0 && sprite_on_line(mem.video(addr), mem.ly(), height)
                    && old(self).sprites().len() < 10 {
                    final(self).sprites() == old(self).sprites().push(addr)
                } else {
                    final(self).sprites() == old(self).sprites()
                }
            }),
    {
        if self.cycles % 2 == 1 {
            return ;
        }
        let index = self.cycles / 2;
        let addr: u16 = 0xFE00 + index * 4;
        let oa_y = mem.ppu_get(addr) as u16;
        let height: u16 = if Fetcher::lcdc_bit(mem, 2) {
            16
        } else {
            8
        };
        let ly = mem.get_ly() as u16;
        if oa_y <= ly + 16 && ly + 16 < oa_y + height && self.visible_sprites.len() < 10 {
            self.visible_sprites.push(addr);
        }
    }

    fn start_transfer(&mut self, mem: &mut Mem)
        requires
            old(self).inv(*old(mem)),
            old(self).mode() == PPUMode::OAMSearch,
        ensures
            Mem::same_memory(*old(mem), *final(mem)),
            final(self).inv(*final(mem)),
            final(self).mode() == PPUMode::PixelTransfer,
            final(self).dot() == old(self).dot(),
            final(self).frame_ready() == old(self).frame_ready(),
            final(mem).ly() == old(mem).ly(),
            final(self).buffer() == old(self).buffer(),
    {
        self.bw_fifo.clear();
        self.ob_fifo.clear();
        self.fetcher.reset(mem);
        self.x = 0;
        self.set_mode(mem, PPUMode::PixelTransfer);
    }

    /// The framebuffer, the next pixel column and whether the line's last
    /// pixel was drawn, after one dot of pixel transfer from `o` on `mem`:
    /// the fetcher takes its dot; if the background FIFO then holds at least
    /// eight entries, the sprites starting at this column are mixed into the
    /// sprite FIFO, and pixel (x, LY) takes the shade of the two FIFOs'
    /// front entries mixed by the priority rule (sprites shown when LCDC
    /// bit 1 is set).
    pub closed spec fn transfer_result(o: Ppu, mem: Mem) -> (Seq<u8>, u8, bool) {
        let (f1, q1) = Fetcher::after_tick(o.fetcher, o.bw_fifo.view(), mem, o.cycles, o.x);
        if q1.len() >= 8 {
            let ob1 = sprites_mixed(o.ob_fifo.view(), mem, o.visible_sprites@, 0, o.x);
            let ob = if ob1.len() > 0 {
                Some(ob1[0])
            } else {
                None
            };
            let shade = mixed_shade(q1[0], ob, mem.lcdc_bit(1));
            (
                pixel_written(o.display_buffer@, o.x, mem.ly(), shade),
                if o.x == WIDTH - 1 {
                    0
                } else {
                    (o.x + 1) as u8
                },
                o.x == WIDTH - 1,
            )
        } else {
            (o.display_buffer@, o.x, false)
        }
    }

    /// One dot of pixel transfer: the fetcher works, and when the
    /// background FIFO holds eight pixels one is shown at (x, LY), mixed with
    /// the sprite FIFO. After pixel 159 the line goes to HBlank.
    fn pixel_transfer(&mut self, mem: &mut Mem)
        requires
            old(self).inv(*old(mem)),
            old(self).mode() == PPUMode::PixelTransfer,
        ensures
            final(self).inv(*final(mem)),
            final(self).dot() == old(self).dot(),
            final(self).frame_ready() == old(self).frame_ready(),
            final(self).mode() == PPUMode::PixelTransfer || final(self).mode() == PPUMode::HBlank,
            final(mem).ly() == old(mem).ly(),
            final(mem).iflag() == old(mem).iflag(),
            Mem::same_memory(*old(mem), *final(mem)),
            final(self).buffer() == Self::transfer_result(*old(self), *old(mem)).0,
            final(self).x_pos() == Self::transfer_result(*old(self), *old(mem)).1,
            final(self).mode() == (if Self::transfer_result(*old(self), *old(mem)).2 {
                PPUMode::HBlank
            } else {
                PPUMode::PixelTransfer
            }),
    {
        self.fetcher.tick(mem, self.cycles, &mut self.bw_fifo, self.x);
        if !self.bw_fifo.can_pop() {
            return ;
        }
        self.fetcher.check_oam(self.x, &self.visible_sprites, &mut self.ob_fifo, mem);
        let bw = self.bw_fifo.pop();
        let ob = if self.ob_fifo.len() > 0 {
            Some(self.ob_fifo.pop())
        } else {
            None
        };
        let obj_on = Fetcher::lcdc_bit(mem, 1);
        let shade = mix_shade(bw, ob, obj_on);
        let y = mem.get_ly() as usize;
        let pos: usize = (self.x as usize + y * 160) * 4;
        self.display_buffer.set(pos, shade_rgba(shade, 0));
        self.display_buffer.set(pos + 1, shade_rgba(shade, 1));
        self.display_buffer.set(pos + 2, shade_rgba(shade, 2));
        self.display_buffer.set(pos + 3, shade_rgba(shade, 3));
        assert(self.display_buffer@ == pixel_written(old(self).display_buffer@, self.x, y as u8, shade));
        if self.x == WIDTH - 1 {
            self.x = 0;
            self.set_mode(mem, PPUMode::HBlank);
        } else {
            self.x = self.x + 1;
        }
    }

    /// The end of a line: LY moves on. Entering line 144 starts VBlank,
    /// marks the frame ready and requests the VBlank interrupt; after line
    /// 153 the frame starts again at line 0.
    fn end_line(&mut self, mem: &mut Mem)
        requires
            old(self).inv(*old(mem)),
        ensures
            Mem::same_memory(*old(mem), *final(mem)),
            final(self).inv(*final(mem)),
            final(self).dot() == 0,
            final(mem).ly() == (if old(mem).ly() == 153 {
                0
            } else {
                old(mem).ly() + 1
            }),
            old(mem).ly() == 143 ==> final(self).frame_ready() && final(self).mode() == PPUMode::VBlank
                && final(mem).iflag() % 2 == 1 && final(mem).iflag() / 4 == old(mem).iflag() / 4,
            old(mem).ly() != 143 ==> final(self).frame_ready() == old(self).frame_ready(),
            final(self).buffer() == old(self).buffer(),
    {
        let ly = mem.get_ly();
        self.cycles = 0;
        self.x = 0;
        if ly == 153 {
            self.fetcher.reset_win();
            mem.set_ly(0);
            self.prep_oam_search(mem);
        } else if ly == 143 {
            let ghost i0 = mem.iflag();
            mem.set_ly(144);
            proof {
                reveal_with_fuel(crate::alu::pow2, 2);
                assert(crate::alu::pow2(1) == 2);
                let i1 = mem.iflag();
                assert(i1 == i0 || (i1 == i0 + 2 && (i0 / 2) % 2 == 0));
                assert(i1 / 4 == i0 / 4);
            }
            self.set_mode(mem, PPUMode::VBlank);
            self.ready = true;
            let flags = mem.get_iflag();
            let raised = if flags % 2 == 0 {
                flags + 1
            } else {
                flags
            };
            mem.set_iflag(raised);
        } else if ly > 143 {
            mem.set_ly(ly + 1);
        } else {
            mem.set_ly(ly + 1);
            self.prep_oam_search(mem);
        }
    }

    /// Advances one dot.
    pub fn tick(&mut self, mem: &mut Mem)
        requires
            old(self).inv(*old(mem)),
        ensures
            Mem::same_memory(*old(mem), *final(mem)),
            final(self).inv(*final(mem)),
            final(mem).wf(),
            old(self).dot() + 1 < LINE_DOTS ==> final(mem).ly() == old(mem).ly(),
            old(self).dot() + 1 == LINE_DOTS ==> final(mem).ly() == (if old(mem).ly() == 153 {
                0
            } else {
                old(mem).ly() + 1
            }),
            old(self).dot() + 1 == LINE_DOTS && old(mem).ly() == 143 ==> final(self).frame_ready()
                && final(self).mode() == PPUMode::VBlank && final(mem).iflag() % 2 == 1
                && final(mem).iflag() / 4 == old(mem).iflag() / 4,
            final(self).dot() == (if old(self).dot() + 1 == LINE_DOTS {
                0
            } else {
                old(self).dot() + 1
            }),
            old(self).frame_ready() ==> final(self).frame_ready(),
            !old(self).frame_ready() && final(self).frame_ready() ==> final(mem).ly() == 144
                && final(self).dot() == 0,
            !final(self).frame_ready() ==> dots_to_frame(final(mem).ly(), final(self).dot())
                == dots_to_frame(old(mem).ly(), old(self).dot()) - 1,
            old(self).mode() == PPUMode::PixelTransfer ==> final(self).buffer()
                == Self::transfer_result(*old(self), *old(mem)).0,
            old(self).mode() != PPUMode::PixelTransfer ==> final(self).buffer() == old(self).buffer(),
    {
        match self.mode {
            PPUMode::OAMSearch => self.oam_search(mem),
            PPUMode::PixelTransfer => self.pixel_transfer(mem),
            _ => {},
        }
        let next = self.cycles + 1;
        if next == LINE_DOTS {
            self.end_line(mem);
        } else {
            if self.mode == PPUMode::OAMSearch && next == OAM_DOTS {
                self.start_transfer(mem);
            }
            self.cycles = next;
        }
    }
}

/// The agreement between the picture unit and the bus depends on the bus
/// only through its well-formedness, the mode bits of STAT and LY.
pub proof fn lemma_inv_frame(p: Ppu, m1: Mem, m2: Mem)
    requires
        p.inv(m1),
        m2.wf(),
        m2.stat() % 4 == m1.stat() % 4,
        m2.ly() == m1.ly(),
    ensures
        p.inv(m2),
        p.inv(m1) ==> m1.wf(),
{
}

/// While the picture unit and the bus agree, STAT bits 1..0 show the
/// mode, and LY is a visible line exactly outside VBlank.
pub proof fn lemma_inv_stat(p: Ppu, m: Mem)
    requires
        p.inv(m),
    ensures
        m.stat() % 4 == p.mode_bits(),
        (p.mode() == PPUMode::VBlank) == (m.ly() >= 144),
        m.wf(),
{
}

/// From any state, the next frame is at most one full frame of dots away.
pub proof fn lemma_dots_range(p: Ppu, m: Mem)
    requires
        p.inv(m),
    ensures
        1 <= dots_to_frame(m.ly(), p.dot()) <= 70224,
{
}

} // verus!
